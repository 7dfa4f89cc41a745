use wasm_verification_component::component_id::component_id_from_hash;
use wasm_verification_component::config::{
    default_component_cache_base_dir, default_tee_class, join_path, ComponentRegistryConfig,
    VerifyOptions,
};

#[test]
fn test_default_tee_class() {
    assert_eq!(default_tee_class(), "cpu");
}

#[test]
fn test_default_component_cache_base_dir() {
    assert_eq!(
        default_component_cache_base_dir(),
        ".wasm-verification-component-cache/components"
    );
}

#[test]
fn test_registry_config_defaults_signature_check_disabled() {
    let cfg = ComponentRegistryConfig::default();
    assert!(!cfg.verify_component_signature);
}

#[test]
fn test_component_id_from_hash_is_deterministic() {
    let hash = [0xAB; 32];
    let id = component_id_from_hash(&hash);
    assert!(id.starts_with("component-"));
    assert!(id.ends_with(&"ab".repeat(32)));
}

#[test]
fn component_id_is_prefix_and_lower_hex() {
    let mut hash = [0u8; 32];
    hash[0] = 0x01;
    hash[1] = 0x23;
    hash[2] = 0xfe;
    hash[31] = 0x9a;
    let id = component_id_from_hash(&hash);
    let expected = format!("component-0123fe{}9a", "00".repeat(28));
    assert_eq!(id, expected);
    assert_eq!(id.len(), 74);
    assert_eq!(component_id_from_hash(&hash), id);
}

#[test]
fn distinct_hashes_give_distinct_ids() {
    let a = component_id_from_hash(&[0x10; 32]);
    let b = component_id_from_hash(&[0x01; 32]);
    assert_ne!(a, b);
}

#[test]
fn config_default_uses_default_base_dir() {
    let cfg = ComponentRegistryConfig::default();
    assert_eq!(cfg.component_cache_base_dir, ".wasm-verification-component-cache/components");
    let copy = cfg.clone();
    assert_eq!(copy.component_cache_base_dir, cfg.component_cache_base_dir);
    assert_eq!(copy.verify_component_signature, cfg.verify_component_signature);
}

#[test]
fn verify_options_default() {
    let options = VerifyOptions::default();
    assert_eq!(options.cache_dir, ".wasm-verification-component-cache");
    assert!(options.pccs_url.is_none());
}

#[test]
fn join_path_places_name_inside_base() {
    assert_eq!(join_path("cache", "component-1"), "cache/component-1");
    assert_eq!(join_path("cache/", "component-1"), "cache/component-1");
    assert_eq!(join_path("", "component-1"), "component-1");
    assert_eq!(join_path("/", "x"), "/x");
}

#[test]
fn verify_options_clone_is_equal() {
    let options = VerifyOptions {
        cache_dir: "c".to_string(),
        pccs_url: Some("https://p".to_string()),
    };
    let copy = options.clone();
    assert_eq!(copy.cache_dir, "c");
    assert_eq!(copy.pccs_url.as_deref(), Some("https://p"));
}
