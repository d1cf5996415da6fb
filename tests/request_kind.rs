use ahk_debug::{request_type_from_config, validate_adapter_name, AutoHotkeyDebugger, ConfigDocument, RequestKind};

fn doc(request: Option<&str>) -> ConfigDocument {
    ConfigDocument { request: request.map(|s| s.to_string()) }
}

#[test]
fn request_type_from_config_returns_launch_for_launch_request() {
    let config = doc(Some("launch"));
    let result = request_type_from_config(&config);
    assert!(matches!(result, Ok(RequestKind::Launch)));
}

#[test]
fn request_type_from_config_returns_attach_for_attach_request() {
    let config = doc(Some("attach"));
    let result = request_type_from_config(&config);
    assert!(matches!(result, Ok(RequestKind::Attach)));
}

#[test]
fn request_type_from_config_returns_error_for_invalid_request() {
    let config = doc(Some("invalid"));
    let result = request_type_from_config(&config);
    assert!(result.is_err());
    assert!(result.unwrap_err().contains("Invalid request type"));
}

#[test]
fn request_type_from_config_defaults_to_launch_when_missing() {
    let config = doc(None);
    let result = request_type_from_config(&config);
    assert!(matches!(result, Ok(RequestKind::Launch)));
}

#[test]
fn request_type_from_config_defaults_to_launch_when_null() {
    let result = AutoHotkeyDebugger::parse_request_kind(r#"{"request": null}"#);
    assert!(matches!(result, Ok(RequestKind::Launch)));
    let config = doc(None);
    assert!(matches!(request_type_from_config(&config), Ok(RequestKind::Launch)));
}

#[test]
fn invalid_request_message_names_value_and_options() {
    let err = request_type_from_config(&doc(Some("Launch"))).unwrap_err();
    assert_eq!(err, "Invalid request type 'Launch', expected 'launch' or 'attach'");
    assert!(err.contains("'Launch'"));
    assert!(err.contains("launch") && err.contains("attach"));
}

#[test]
fn validate_adapter_name_accepts_autohotkey() {
    let name = "autohotkey";
    let result = validate_adapter_name(name);
    assert!(result.is_ok());
}

#[test]
fn validate_adapter_name_rejects_other_names() {
    let name = "python";
    let result = validate_adapter_name(name);
    assert!(result.is_err());
    assert!(result.unwrap_err().contains("Unsupported adapter"));
}

#[test]
fn validate_adapter_name_rejects_empty_string() {
    let name = "";
    let result = validate_adapter_name(name);
    assert!(result.is_err());
}

#[test]
fn validate_adapter_name_is_case_sensitive() {
    let name = "AutoHotkey";
    let result = validate_adapter_name(name);
    assert!(result.is_err());
}

#[test]
fn unsupported_adapter_message_is_exact() {
    assert_eq!(
        validate_adapter_name("autohotkey ").unwrap_err(),
        "Unsupported adapter 'autohotkey ', expected 'autohotkey'"
    );
    assert!(validate_adapter_name("").unwrap_err().contains("Unsupported adapter"));
}

#[test]
fn parse_request_kind_parses_valid_json() {
    let json = r#"{"request": "launch"}"#;
    let result = AutoHotkeyDebugger::parse_request_kind(json);
    assert!(matches!(result, Ok(RequestKind::Launch)));
}

#[test]
fn parse_request_kind_returns_error_for_invalid_json() {
    let json = "not valid json";
    let result = AutoHotkeyDebugger::parse_request_kind(json);
    assert!(result.is_err());
    assert!(result.unwrap_err().contains("Failed to parse config JSON"));
}

#[test]
fn parse_request_kind_handles_empty_json_object() {
    let json = "{}";
    let result = AutoHotkeyDebugger::parse_request_kind(json);
    assert!(matches!(result, Ok(RequestKind::Launch)));
}

#[test]
fn parse_request_kind_reads_attach_and_rejects_other_strings() {
    assert!(matches!(AutoHotkeyDebugger::parse_request_kind(r#"{"request":"attach"}"#), Ok(RequestKind::Attach)));
    let err = AutoHotkeyDebugger::parse_request_kind(r#"{"request":"debug"}"#).unwrap_err();
    assert!(err.contains("'debug'"));
    assert!(matches!(AutoHotkeyDebugger::parse_request_kind(r#"{"request": 3}"#), Ok(RequestKind::Launch)));
}

#[test]
fn dap_request_kind_checks_adapter_first() {
    let debugger = AutoHotkeyDebugger::new();
    let err = debugger.dap_request_kind("python".to_string(), doc(Some("launch"))).unwrap_err();
    assert!(err.contains("Unsupported adapter"));
    let ok = debugger.dap_request_kind("autohotkey".to_string(), doc(Some("attach")));
    assert!(matches!(ok, Ok(RequestKind::Attach)));
}
