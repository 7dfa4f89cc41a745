use wasm_verification_component::evidence::{
    add_pccs_url_to_evidence, attach_pccs_url, check_component_output, is_json_object,
    ComponentOutputError,
    PccsUrlError,
};

#[test]
fn evidence_without_pccs_url_is_unchanged() {
    let evidence = b"not even json".to_vec();
    let out = add_pccs_url_to_evidence(&evidence, None);
    assert!(matches!(out, Ok(ref bytes) if *bytes == evidence));
}

#[test]
fn pccs_url_is_added_to_object_evidence() {
    let evidence = br#"{"quote":"Zm9v","pccs_url":"old"}"#.to_vec();
    let out = add_pccs_url_to_evidence(&evidence, Some("https://pccs.example")).ok().unwrap();
    let value: serde_json::Value = serde_json::from_slice(&out).unwrap();
    assert_eq!(value["pccs_url"], serde_json::Value::String("https://pccs.example".to_string()));
    assert_eq!(value["quote"], serde_json::Value::String("Zm9v".to_string()));
    assert_eq!(value.as_object().unwrap().len(), 2);
}

#[test]
fn pccs_url_needs_json_evidence() {
    let out = add_pccs_url_to_evidence(b"{not json", Some("https://pccs.example"));
    assert!(matches!(out, Err(PccsUrlError::InvalidJson(_))));
}

#[test]
fn pccs_url_needs_object_evidence() {
    let out = add_pccs_url_to_evidence(b"[1, 2, 3]", Some("https://pccs.example"));
    assert!(matches!(out, Err(PccsUrlError::NotAnObject)));
}

#[test]
fn attach_pccs_url_sets_the_field() {
    let mut fields = serde_json::Map::new();
    fields.insert("a".to_string(), serde_json::Value::Bool(true));
    let mut evidence = serde_json::Value::Object(fields);
    attach_pccs_url(&mut evidence, "https://x");
    assert_eq!(evidence.get("pccs_url"), Some(&serde_json::Value::String("https://x".to_string())));
    assert_eq!(evidence.get("a"), Some(&serde_json::Value::Bool(true)));
    assert_eq!(evidence.as_object().unwrap().len(), 2);
}

#[test]
fn component_output_with_error_field_fails() {
    let out = check_component_output(r#"{"error":"bad quote"}"#);
    match out {
        Err(ComponentOutputError::VerificationFailed(err)) => {
            assert_eq!(err, serde_json::Value::String("bad quote".to_string()))
        }
        _ => panic!("expected a verification failure"),
    }
}

#[test]
fn component_output_claims_are_returned() {
    let out = check_component_output(r#"{"measurement":"abcd","tcb":3}"#);
    match out {
        Ok(value) => assert_eq!(value["measurement"], serde_json::Value::String("abcd".to_string())),
        _ => panic!("expected claims"),
    }
    assert!(check_component_output("[1,2]").is_ok());
}

#[test]
fn component_output_must_be_json() {
    assert!(matches!(check_component_output("plain text"), Err(ComponentOutputError::NotJson(_))));
}

#[test]
fn last_pccs_url_wins() {
    let evidence = br#"{"quote":"Zm9v"}"#.to_vec();
    let once = add_pccs_url_to_evidence(&evidence, Some("https://a")).ok().unwrap();
    let twice = add_pccs_url_to_evidence(&once, Some("https://b")).ok().unwrap();
    let direct = add_pccs_url_to_evidence(&evidence, Some("https://b")).ok().unwrap();
    assert_eq!(twice, direct);
    let same = add_pccs_url_to_evidence(&once, Some("https://a")).ok().unwrap();
    assert_eq!(same, once);
    let twice: serde_json::Value = serde_json::from_slice(&twice).unwrap();
    let direct: serde_json::Value = serde_json::from_slice(&direct).unwrap();
    assert_eq!(twice, direct);
    let again = add_pccs_url_to_evidence(&once, Some("https://a")).ok().unwrap();
    let again: serde_json::Value = serde_json::from_slice(&again).unwrap();
    let once: serde_json::Value = serde_json::from_slice(&once).unwrap();
    assert_eq!(again, once);
}

#[test]
fn pccs_url_keeps_numbers_and_nested_values() {
    let evidence = br#"{"version":2,"report":{"tcb":[1,2,{"x":null}],"ok":true},"pccs_url":"old"}"#;
    let out = add_pccs_url_to_evidence(evidence, Some("https://pccs.example")).ok().unwrap();
    let got: serde_json::Value = serde_json::from_slice(&out).unwrap();
    let expected: serde_json::Value = serde_json::from_str(
        r#"{"version":2,"report":{"tcb":[1,2,{"x":null}],"ok":true},"pccs_url":"https://pccs.example"}"#,
    )
    .unwrap();
    assert_eq!(got, expected);
}

#[test]
fn component_claims_are_the_whole_output() {
    let text = r#"{"reported_tcb_snp":{"bootloader":3,"microcode":209},"measurement":"ab","n":1.5,"list":[1,"a"]}"#;
    let claims = check_component_output(text).ok().unwrap();
    let expected: serde_json::Value = serde_json::from_str(text).unwrap();
    assert_eq!(claims, expected);
}

#[test]
fn verification_failure_carries_only_the_error_field() {
    let out = check_component_output(r#"{"error":{"code":7,"reason":"tcb"},"measurement":"ab"}"#);
    match out {
        Err(ComponentOutputError::VerificationFailed(err)) => {
            let expected: serde_json::Value = serde_json::from_str(r#"{"code":7,"reason":"tcb"}"#).unwrap();
            assert_eq!(err, expected)
        }
        _ => panic!("expected a verification failure"),
    }
}

#[test]
fn is_json_object_tells_objects_apart() {
    let object: serde_json::Value = serde_json::from_str(r#"{"a":1}"#).unwrap();
    let array: serde_json::Value = serde_json::from_str("[1]").unwrap();
    assert!(is_json_object(&object));
    assert!(!is_json_object(&array));
}
