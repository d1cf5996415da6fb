use ahk_debug::AutoHotkeyDebugger;

#[test]
fn versioned_dir_contains_version() {
    let debugger = AutoHotkeyDebugger::new();
    let version = "1.2.3";
    let result = debugger.versioned_dir(version);
    assert!(result.contains("autohotkey_1.2.3"));
}

#[test]
fn ahk_exe_path_contains_expected_components() {
    let debugger = AutoHotkeyDebugger::new();
    let version = "1.0.0";
    let result = debugger.ahk_exe_path(version);
    assert!(result.contains("extension"));
    assert!(result.contains("bin"));
    assert!(result.contains("AutoHotkey.exe"));
}

#[test]
fn adapter_script_path_contains_expected_components() {
    let debugger = AutoHotkeyDebugger::new();
    let version = "1.0.0";
    let result = debugger.adapter_script_path(version);
    assert!(result.contains("extension"));
    assert!(result.contains("ahkdbg"));
    assert!(result.contains("debugAdapter.ahk"));
}

#[test]
fn paths_are_exact_under_a_base_dir() {
    let debugger = AutoHotkeyDebugger::with_base_dir("/work".to_string());
    assert_eq!(debugger.adapter_dir(), "/work/autohotkey");
    assert_eq!(debugger.versioned_dir("2.0.1"), "/work/autohotkey/autohotkey_2.0.1");
    assert_eq!(
        debugger.ahk_exe_path("2.0.1"),
        "/work/autohotkey/autohotkey_2.0.1/extension/bin/AutoHotkey.exe"
    );
    assert_eq!(
        debugger.adapter_script_path("10.4.0-beta.2"),
        "/work/autohotkey/autohotkey_10.4.0-beta.2/extension/ahkdbg/debugAdapter.ahk"
    );
}
