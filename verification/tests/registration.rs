use wasm_verification_component::config::ComponentRegistryConfig;
use wasm_verification_component::driver::{
    configure_component_registry, register_component, EvaluationError, InitDataHash, ReportData,
    WasmVerificationComponentDriver, WasmVerificationComponentEvidence,
};
use wasm_verification_component::engine::WasmVerificationComponent;
use wasm_verification_component::registry::{
    RegistrationAction, RegistrationError, RegistrationEvent,
};

const EMPTY_COMPONENT: [u8; 8] = [0x00, 0x61, 0x73, 0x6d, 0x0d, 0x00, 0x01, 0x00];
const EMPTY_COMPONENT_ID: &str =
    "component-24eaf3439a60c96764c4f2c92a0a81b52bd4fe5d5b91f090184a0f6486b1bf29";

fn driver() -> WasmVerificationComponentDriver {
    WasmVerificationComponentDriver::new().ok().expect("engine")
}

fn register(driver: &mut WasmVerificationComponentDriver, bytes: &[u8]) -> Result<String, RegistrationError> {
    let mut event = RegistrationEvent::Requested;
    loop {
        match register_component(driver, bytes, event) {
            RegistrationAction::VerifySignature => event = RegistrationEvent::SignatureChecked(Ok(())),
            RegistrationAction::CreateCacheDir(_) => event = RegistrationEvent::CacheDirCreated(Ok(())),
            RegistrationAction::Finished(result) => return result,
        }
    }
}

#[test]
fn new_component_asks_for_its_cache_dir() {
    let mut d = driver();
    match register_component(&mut d, &EMPTY_COMPONENT, RegistrationEvent::Requested) {
        RegistrationAction::CreateCacheDir(dir) => assert_eq!(
            dir,
            format!(".wasm-verification-component-cache/components/{}", EMPTY_COMPONENT_ID)
        ),
        _ => panic!("expected a cache directory request"),
    }
    assert!(d.registry().get_component(EMPTY_COMPONENT_ID).is_none());
}

#[test]
fn registration_gives_digest_id_and_is_found_again() {
    let mut d = driver();
    let id = register(&mut d, &EMPTY_COMPONENT).ok().expect("registered");
    assert_eq!(id, EMPTY_COMPONENT_ID);
    let found = d.registry().get_component(&id).expect("found");
    assert_eq!(
        found.cache_dir,
        format!(".wasm-verification-component-cache/components/{}", EMPTY_COMPONENT_ID)
    );
    match register_component(&mut d, &EMPTY_COMPONENT, RegistrationEvent::Requested) {
        RegistrationAction::Finished(Ok(again)) => assert_eq!(again, id),
        _ => panic!("a registered component is found at once"),
    }
}

#[test]
fn signature_check_is_asked_for_when_configured() {
    let mut d = driver();
    let config = ComponentRegistryConfig {
        verify_component_signature: true,
        component_cache_base_dir: "cache".to_string(),
    };
    configure_component_registry(&mut d, config);
    assert!(matches!(
        register_component(&mut d, &EMPTY_COMPONENT, RegistrationEvent::Requested),
        RegistrationAction::VerifySignature
    ));
    match register_component(
        &mut d,
        &EMPTY_COMPONENT,
        RegistrationEvent::SignatureChecked(Err("no signature".to_string())),
    ) {
        RegistrationAction::Finished(Err(RegistrationError::SignatureRejected(why))) => {
            assert_eq!(why, "no signature")
        }
        _ => panic!("expected a rejected signature"),
    }
    assert!(matches!(
        register_component(&mut d, &EMPTY_COMPONENT, RegistrationEvent::Requested),
        RegistrationAction::VerifySignature
    ));
    match register_component(&mut d, &EMPTY_COMPONENT, RegistrationEvent::SignatureChecked(Ok(()))) {
        RegistrationAction::CreateCacheDir(dir) => assert_eq!(dir, format!("cache/{}", EMPTY_COMPONENT_ID)),
        _ => panic!("expected a cache directory request"),
    }
}

#[test]
fn cache_dir_failure_is_reported() {
    let mut d = driver();
    assert!(matches!(
        register_component(&mut d, &EMPTY_COMPONENT, RegistrationEvent::Requested),
        RegistrationAction::CreateCacheDir(_)
    ));
    match register_component(
        &mut d,
        &EMPTY_COMPONENT,
        RegistrationEvent::CacheDirCreated(Err("read-only".to_string())),
    ) {
        RegistrationAction::Finished(Err(RegistrationError::CacheDirUnavailable(why))) => {
            assert_eq!(why, "read-only")
        }
        _ => panic!("expected a cache directory failure"),
    }
    assert!(d.registry().get_component(EMPTY_COMPONENT_ID).is_none());
}

fn signatures_required() -> WasmVerificationComponentDriver {
    let mut d = driver();
    configure_component_registry(
        &mut d,
        ComponentRegistryConfig {
            verify_component_signature: true,
            component_cache_base_dir: "cache".to_string(),
        },
    );
    d
}

#[test]
fn unrequested_cache_dir_event_registers_nothing() {
    let mut d = signatures_required();
    assert!(matches!(
        register_component(&mut d, &EMPTY_COMPONENT, RegistrationEvent::CacheDirCreated(Ok(()))),
        RegistrationAction::Finished(Err(RegistrationError::UnexpectedEvent))
    ));
    assert!(d.registry().get_component(EMPTY_COMPONENT_ID).is_none());
}

#[test]
fn unrequested_signature_event_is_refused() {
    let mut d = signatures_required();
    assert!(matches!(
        register_component(&mut d, &EMPTY_COMPONENT, RegistrationEvent::SignatureChecked(Ok(()))),
        RegistrationAction::Finished(Err(RegistrationError::UnexpectedEvent))
    ));
    assert!(d.registry().get_component(EMPTY_COMPONENT_ID).is_none());
}

#[test]
fn cache_dir_event_before_signature_check_is_refused() {
    let mut d = signatures_required();
    assert!(matches!(
        register_component(&mut d, &EMPTY_COMPONENT, RegistrationEvent::Requested),
        RegistrationAction::VerifySignature
    ));
    assert!(matches!(
        register_component(&mut d, &EMPTY_COMPONENT, RegistrationEvent::CacheDirCreated(Ok(()))),
        RegistrationAction::Finished(Err(RegistrationError::UnexpectedEvent))
    ));
    assert!(d.registry().get_component(EMPTY_COMPONENT_ID).is_none());
    assert!(matches!(
        register_component(&mut d, &EMPTY_COMPONENT, RegistrationEvent::SignatureChecked(Ok(()))),
        RegistrationAction::Finished(Err(RegistrationError::UnexpectedEvent))
    ));
}

#[test]
fn answer_for_other_bytes_is_refused() {
    let mut d = driver();
    assert!(matches!(
        register_component(&mut d, &EMPTY_COMPONENT, RegistrationEvent::Requested),
        RegistrationAction::CreateCacheDir(_)
    ));
    assert!(matches!(
        register_component(&mut d, b"other bytes", RegistrationEvent::CacheDirCreated(Ok(()))),
        RegistrationAction::Finished(Err(RegistrationError::UnexpectedEvent))
    ));
}

#[test]
fn signed_registration_completes_in_order() {
    let mut d = signatures_required();
    let id = register(&mut d, &EMPTY_COMPONENT).ok().expect("registered");
    assert_eq!(id, EMPTY_COMPONENT_ID);
    assert_eq!(
        d.registry().get_component(&id).expect("found").cache_dir,
        format!("cache/{}", EMPTY_COMPONENT_ID)
    );
}

#[test]
fn invalid_component_fails_to_load() {
    let mut d = driver();
    let result = register(&mut d, b"not a component");
    assert!(matches!(result, Err(RegistrationError::LoadFailed(_))));
}

const EMPTY_BYTES_ID: &str =
    "component-e3b0c44298fc1c149afbf4c8996fb92427ae41e4649b934ca495991b7852b855";

#[test]
fn empty_bytes_fail_to_load_and_leave_no_entry() {
    let mut d = driver();
    assert!(matches!(register(&mut d, b""), Err(RegistrationError::LoadFailed(_))));
    assert!(d.registry().get_component(EMPTY_BYTES_ID).is_none());
    assert!(matches!(register(&mut d, b""), Err(RegistrationError::LoadFailed(_))));
}

#[test]
fn core_module_fails_to_load() {
    let mut d = driver();
    let core_module = [0x00, 0x61, 0x73, 0x6d, 0x01, 0x00, 0x00, 0x00];
    assert!(matches!(register(&mut d, &core_module), Err(RegistrationError::LoadFailed(_))));
}

#[test]
fn load_component_rejects_non_components() {
    let v = WasmVerificationComponent::new().ok().expect("engine");
    assert!(v.load_component(b"").is_err());
    assert!(v.load_component(&[0x00, 0x61, 0x73, 0x6d, 0x01, 0x00, 0x00, 0x00]).is_err());
    assert!(v.load_component(&EMPTY_COMPONENT).is_ok());
}

#[test]
fn configure_keeps_registered_components() {
    let mut d = driver();
    let id = register(&mut d, &EMPTY_COMPONENT).ok().expect("registered");
    configure_component_registry(&mut d, ComponentRegistryConfig::default());
    assert!(d.registry().get_component(&id).is_some());
}

fn wrapped(component_id: &str) -> WasmVerificationComponentEvidence {
    WasmVerificationComponentEvidence {
        component_id: component_id.to_string(),
        evidence: {
            let mut fields = serde_json::Map::new();
            fields.insert("quote".to_string(), serde_json::Value::String("Zm9v".to_string()));
            serde_json::Value::Object(fields)
        },
        pccs_url: Some("https://pccs.example".to_string()),
        tee_class: "cpu".to_string(),
    }
}

#[test]
fn unregistered_component_cannot_be_evaluated() {
    let d = driver();
    let plan = d.plan_evaluation(wrapped("component-abc"), &ReportData::NotProvided, &InitDataHash::NotProvided);
    match plan {
        Err(EvaluationError::ComponentNotRegistered(id)) => assert_eq!(id, "component-abc"),
        _ => panic!("expected an unregistered component"),
    }
}

#[test]
fn evaluation_plan_carries_component_and_options() {
    let mut d = driver();
    let id = register(&mut d, &EMPTY_COMPONENT).ok().expect("registered");
    let plan = d
        .plan_evaluation(
            wrapped(&id),
            &ReportData::Value(vec![1, 2, 3]),
            &InitDataHash::NotProvided,
        )
        .ok()
        .expect("plan");
    assert_eq!(plan.options.cache_dir, format!(".wasm-verification-component-cache/components/{}", id));
    assert_eq!(plan.options.pccs_url.as_deref(), Some("https://pccs.example"));
    assert_eq!(plan.expected_report_data, Some(vec![1, 2, 3]));
    assert_eq!(plan.expected_init_data_hash, None);
    assert_eq!(plan.tee_class, "cpu");
    let evidence: serde_json::Value = serde_json::from_slice(&plan.evidence).unwrap();
    assert_eq!(evidence["quote"], serde_json::Value::String("Zm9v".to_string()));
}

#[test]
fn distinct_components_get_distinct_cache_dirs() {
    let mut d = driver();
    let named: [u8; 12] = [0x00, 0x61, 0x73, 0x6d, 0x0d, 0x00, 0x01, 0x00, 0x00, 0x02, 0x01, b'x'];
    let first = register(&mut d, &EMPTY_COMPONENT).ok().expect("registered");
    let second = register(&mut d, &named).ok().expect("registered");
    assert_ne!(first, second);
    let first_dir = d.registry().get_component(&first).expect("found").cache_dir;
    let second_dir = d.registry().get_component(&second).expect("found").cache_dir;
    assert_ne!(first_dir, second_dir);
    assert!(second_dir.ends_with(&second));
}
