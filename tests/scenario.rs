use std::io::Write;

use ahk_debug::{
    launch_config, scenario_from_config, AttachRequest, AutoHotkeyDebugger, DebugConfig, DebugRequest,
    LaunchRequest,
};

fn launch(program: &str, stop_on_entry: Option<bool>) -> DebugConfig {
    DebugConfig {
        adapter: "autohotkey".to_string(),
        label: "Test".to_string(),
        request: DebugRequest::Launch(LaunchRequest {
            program: program.to_string(),
            cwd: None,
            args: vec![],
            envs: vec![],
        }),
        stop_on_entry,
    }
}

#[test]
fn dap_config_to_scenario_returns_error_for_missing_program() {
    let debugger = AutoHotkeyDebugger::new();
    let config = launch("/nonexistent/path/script.ahk", None);
    let result = debugger.dap_config_to_scenario(config);
    assert!(result.is_err());
    assert!(result.unwrap_err().contains("Script file not found"));
}

#[test]
fn dap_config_to_scenario_returns_error_for_attach_mode() {
    let debugger = AutoHotkeyDebugger::new();
    let config = DebugConfig {
        adapter: "autohotkey".to_string(),
        label: "Test".to_string(),
        request: DebugRequest::Attach(AttachRequest { process_id: None }),
        stop_on_entry: None,
    };
    let result = debugger.dap_config_to_scenario(config);
    assert!(result.is_err());
    assert!(result.unwrap_err().contains("does not support attach mode"));
}

#[test]
fn dap_config_to_scenario_succeeds_with_existing_file() {
    let temp_dir = tempfile::tempdir().unwrap();
    let mut script = tempfile::Builder::new()
        .prefix("test")
        .suffix(".ahk")
        .tempfile_in(temp_dir.path())
        .unwrap();
    script.write_all(b"MsgBox Hello").unwrap();

    let debugger = AutoHotkeyDebugger::new();
    let config = launch(&script.path().to_string_lossy(), Some(true));
    let result = debugger.dap_config_to_scenario(config);
    assert!(result.is_ok());
    let scenario = result.unwrap();
    assert_eq!(scenario.adapter, "autohotkey");
    assert!(scenario.config.contains("\"stopOnEntry\":true"));
}

#[test]
fn dap_config_to_scenario_allows_empty_program_path() {
    let debugger = AutoHotkeyDebugger::new();
    let config = launch("", None);
    let result = debugger.dap_config_to_scenario(config);
    assert!(result.is_ok());
}

#[test]
fn dap_config_to_scenario_rejects_wrong_adapter() {
    let debugger = AutoHotkeyDebugger::new();
    let mut config = launch("", None);
    config.adapter = "python".to_string();
    let result = debugger.dap_config_to_scenario(config);
    assert!(result.is_err());
    assert!(result.unwrap_err().contains("Unsupported adapter"));
}

#[test]
fn scenario_config_defaults_stop_on_entry_to_false() {
    let debugger = AutoHotkeyDebugger::new();
    let scenario = debugger.dap_config_to_scenario(launch("", None)).unwrap();
    assert_eq!(scenario.label, "Test");
    assert_eq!(
        scenario.config,
        r#"{"request":"launch","program":"","cwd":null,"args":[],"stopOnEntry":false,"port":9005}"#
    );
}

#[test]
fn scenario_from_config_trusts_the_existence_answer() {
    let missing = scenario_from_config(launch("C:\\x.ahk", None), false).unwrap_err();
    assert_eq!(
        missing,
        "Script file not found: 'C:\\x.ahk'. Check the 'program' path in your debug configuration."
    );
    let found = scenario_from_config(launch("C:\\x.ahk", Some(true)), true).unwrap();
    assert_eq!(
        found.config,
        r#"{"request":"launch","program":"C:\\x.ahk","cwd":null,"args":[],"stopOnEntry":true,"port":9005}"#
    );
    let attach = DebugConfig {
        adapter: "autohotkey".to_string(),
        label: "A".to_string(),
        request: DebugRequest::Attach(AttachRequest { process_id: Some(4) }),
        stop_on_entry: None,
    };
    assert_eq!(
        scenario_from_config(attach, true).unwrap_err(),
        "AutoHotkey debugger does not support attach mode"
    );
}

#[test]
fn launch_config_quotes_and_escapes_every_string() {
    let request = LaunchRequest {
        program: "a \"b\".ahk".to_string(),
        cwd: Some("/w".to_string()),
        args: vec!["x".to_string(), "y z".to_string(), "q\"".to_string()],
        envs: vec![],
    };
    assert_eq!(
        launch_config(&request, false),
        r#"{"request":"launch","program":"a \"b\".ahk","cwd":"/w","args":["x","y z","q\""],"stopOnEntry":false,"port":9005}"#
    );
}

#[test]
fn launch_config_escapes_controls_and_keeps_other_characters() {
    let request = LaunchRequest {
        program: "C:\\s\u{1}\u{1f}\t\n\r\u{8}\u{c}\u{7f}é/".to_string(),
        cwd: None,
        args: vec![],
        envs: vec![],
    };
    assert_eq!(
        launch_config(&request, true),
        "{\"request\":\"launch\",\"program\":\"C:\\\\s\\u0001\\u001f\\t\\n\\r\\b\\f\u{7f}é/\",\"cwd\":null,\"args\":[],\"stopOnEntry\":true,\"port\":9005}"
    );
}
