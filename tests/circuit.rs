use bb_service::{check_circuit, parse_circuit_definition, CircuitError};

#[test]
fn valid_definition_is_returned_as_parsed() {
    let text = r#"{"bytecode":"H4sIAAAA","abi":{"parameters":[]},"noir_version":"0.30"}"#;
    let parsed: serde_json::Value = serde_json::from_str(text).unwrap();
    let r = parse_circuit_definition(text).unwrap();
    assert_eq!(r, parsed);
}

#[test]
fn top_level_array_is_not_an_object() {
    let r = parse_circuit_definition(r#"[{"bytecode":"x","abi":{}}]"#);
    assert!(matches!(r, Err(CircuitError::NotObject)));
    assert_eq!(r.unwrap_err().message(), "Circuit JSON must be an object");
}

#[test]
fn scalar_document_is_not_an_object() {
    let r = parse_circuit_definition("42");
    assert!(matches!(r, Err(CircuitError::NotObject)));
}

#[test]
fn missing_abi_is_refused() {
    let r = parse_circuit_definition(r#"{"bytecode":"H4sIAAAA"}"#);
    assert!(matches!(r, Err(CircuitError::MissingFields)));
    assert_eq!(
        r.unwrap_err().message(),
        "Circuit JSON must contain 'bytecode' and 'abi' fields"
    );
}

#[test]
fn missing_bytecode_is_refused() {
    let r = parse_circuit_definition(r#"{"abi":{"parameters":[]}}"#);
    assert!(matches!(r, Err(CircuitError::MissingFields)));
}

#[test]
fn empty_object_is_refused() {
    let r = parse_circuit_definition("{}");
    assert!(matches!(r, Err(CircuitError::MissingFields)));
}

#[test]
fn field_values_are_not_inspected() {
    let r = parse_circuit_definition(r#"{"bytecode":null,"abi":7}"#);
    assert!(r.is_ok());
}

#[test]
fn text_that_is_not_json_fails_to_parse() {
    let r = parse_circuit_definition("{\"bytecode\": ");
    assert!(matches!(r, Err(CircuitError::Parse(_))));
    assert!(r
        .unwrap_err()
        .message()
        .starts_with("Failed to parse circuit JSON: "));
}

#[test]
fn check_circuit_hands_back_the_document() {
    let v: serde_json::Value =
        serde_json::from_str(r#"{"abi":[1,2],"bytecode":"AA==","extra":true}"#).unwrap();
    let r = check_circuit(v.clone()).unwrap();
    assert_eq!(r, v);
}

#[test]
fn check_circuit_refuses_a_string() {
    let v = serde_json::Value::String("bytecode".to_string());
    assert!(matches!(check_circuit(v), Err(CircuitError::NotObject)));
}
