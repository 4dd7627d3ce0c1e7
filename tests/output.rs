use smed::terraform::{ParseError, TerraformClient, TerraformValue};

fn scalar(v: Option<&TerraformValue>) -> String {
    match v {
        Some(TerraformValue::String { value }) => value.clone(),
        _ => panic!("expected a scalar"),
    }
}

#[test]
fn parse_scalar_and_list() {
    let raw = r#"{"a": {"value": "10.0.0.1", "type": "string"}, "b": {"value": ["x", "y"]}}"#;
    let out = TerraformClient::parse_output(raw).unwrap();
    assert_eq!(out.len(), 2);
    assert_eq!(scalar(out.get("a")), "10.0.0.1");
    match out.get("b") {
        Some(TerraformValue::List { value }) => assert_eq!(value, &vec!["x".to_string(), "y".to_string()]),
        _ => panic!("expected a list"),
    }
    assert!(out.get("c").is_none());
}

#[test]
fn parse_empty_object() {
    let out = TerraformClient::parse_output("{}").unwrap();
    assert_eq!(out.len(), 0);
}

#[test]
fn parse_empty_list() {
    let out = TerraformClient::parse_output(r#"{"l": {"value": []}}"#).unwrap();
    match out.get("l") {
        Some(TerraformValue::List { value }) => assert!(value.is_empty()),
        _ => panic!("expected a list"),
    }
}

#[test]
fn parse_duplicate_key_kept_once() {
    let out = TerraformClient::parse_output(r#"{"a": {"value": "1"}, "a": {"value": "2"}}"#).unwrap();
    assert_eq!(out.len(), 1);
}

#[test]
fn parse_rejects_number_value() {
    let r = TerraformClient::parse_output(r#"{"a": {"value": 3}}"#);
    assert_eq!(r.err(), Some(ParseError::Malformed));
}

#[test]
fn parse_rejects_list_with_non_string() {
    let r = TerraformClient::parse_output(r#"{"a": {"value": ["x", 1]}}"#);
    assert_eq!(r.err(), Some(ParseError::Malformed));
}

#[test]
fn parse_rejects_truncated_document() {
    let r = TerraformClient::parse_output(r#"{"a": {"value": "x""#);
    assert_eq!(r.err(), Some(ParseError::Malformed));
}

#[test]
fn parse_rejects_missing_value_field() {
    let r = TerraformClient::parse_output(r#"{"a": {"other": "x"}}"#);
    assert_eq!(r.err(), Some(ParseError::Malformed));
}

#[test]
fn parse_rejects_non_object_document() {
    assert_eq!(TerraformClient::parse_output("[1, 2]").err(), Some(ParseError::Malformed));
    assert_eq!(TerraformClient::parse_output(r#"{"a": "plain"}"#).err(), Some(ParseError::Malformed));
}

#[test]
fn text_form_of_values() {
    let s = TerraformValue::String { value: "10.0.0.1".to_string() };
    assert_eq!(s.to_text(), "10.0.0.1");
    let l = TerraformValue::List { value: vec!["a".to_string(), "b".to_string(), "c".to_string()] };
    assert_eq!(l.to_text(), "[a, b, c]");
    let e = TerraformValue::List { value: vec![] };
    assert_eq!(e.to_text(), "[]");
}

#[test]
fn apply_vars() {
    let v = TerraformClient::build_apply_vars();
    assert_eq!(v, vec![("worker_count".to_string(), "2".to_string())]);
}
