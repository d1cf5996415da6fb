use ahk_debug::{binary_from_paths, AutoHotkeyDebugger, DebugTaskDefinition, RequestKind};

fn task(config: &str) -> DebugTaskDefinition {
    DebugTaskDefinition { label: "t".to_string(), adapter: "autohotkey".to_string(), config: config.to_string() }
}

#[test]
fn binary_injects_default_port() {
    let b = binary_from_paths(
        "/r/AutoHotkey.exe".to_string(),
        "/r/debugAdapter.ahk".to_string(),
        true,
        true,
        r#"{"request":"attach","program":"p.ahk"}"#,
        "/root".to_string(),
    )
    .unwrap();
    assert_eq!(b.command.as_deref(), Some("/r/AutoHotkey.exe"));
    assert_eq!(b.arguments, vec!["/r/debugAdapter.ahk".to_string()]);
    assert!(b.envs.is_empty());
    assert_eq!(b.cwd.as_deref(), Some("/root"));
    assert_eq!(b.configuration, r#"{"port":9005,"program":"p.ahk","request":"attach"}"#);
    assert_eq!(b.request, RequestKind::Attach);
}

#[test]
fn binary_keeps_given_port() {
    let b = binary_from_paths("e".to_string(), "s".to_string(), true, true, r#"{"port": 4711}"#, "/".to_string())
        .unwrap();
    assert_eq!(b.configuration, r#"{"port":4711}"#);
    assert_eq!(b.request, RequestKind::Launch);
}

#[test]
fn binary_reports_missing_files_in_order() {
    let e = binary_from_paths("E".to_string(), "S".to_string(), false, false, "{}", "/".to_string()).unwrap_err();
    assert_eq!(e, "Debug adapter AutoHotkey.exe not found at 'E'. Try reinstalling the extension.");
    let e = binary_from_paths("E".to_string(), "S".to_string(), true, false, "{}", "/".to_string()).unwrap_err();
    assert_eq!(e, "Debug adapter script not found at 'S'. Try reinstalling the extension.");
}

#[test]
fn binary_rejects_bad_configuration() {
    let e = binary_from_paths("E".to_string(), "S".to_string(), true, true, "{", "/".to_string()).unwrap_err();
    assert!(e.starts_with("Failed to parse config JSON: "));
    let e = binary_from_paths("E".to_string(), "S".to_string(), true, true, r#"{"request":"x"}"#, "/".to_string())
        .unwrap_err();
    assert!(e.contains("Invalid request type 'x'"));
    let e = binary_from_paths("E".to_string(), "S".to_string(), true, true, "[1]", "/".to_string()).unwrap_err();
    assert!(e.starts_with("Failed to parse config"));
}

#[test]
fn build_binary_checks_runtime_on_disk() {
    let debugger = AutoHotkeyDebugger::with_base_dir("/nonexistent-base".to_string());
    let e = debugger.build_binary("1.0.0", task("{}"), None, "/".to_string()).unwrap_err();
    assert_eq!(
        e,
        "Debug adapter AutoHotkey.exe not found at '/nonexistent-base/autohotkey/autohotkey_1.0.0/extension/bin/AutoHotkey.exe'. Try reinstalling the extension."
    );
    let e = debugger
        .build_binary("1.0.0", task("{}"), Some("/nonexistent/ahk.exe".to_string()), "/".to_string())
        .unwrap_err();
    assert!(e.contains("'/nonexistent/ahk.exe'"));
}

#[test]
fn binary_keeps_a_null_port_and_fills_a_null_document() {
    let b = binary_from_paths("e".to_string(), "s".to_string(), true, true, r#"{ "port" : null, "b": 1 }"#, "/".to_string())
        .unwrap();
    assert_eq!(b.configuration, r#"{"b":1,"port":null}"#);
    let b = binary_from_paths("e".to_string(), "s".to_string(), true, true, "null", "/".to_string()).unwrap();
    assert_eq!(b.configuration, r#"{"port":9005}"#);
    assert_eq!(b.request, RequestKind::Launch);
}
