//! Resolution, installation and launch planning for the AutoHotkey debug adapter.

pub mod text;
pub mod json;
pub mod request;
pub mod release;
pub mod paths;
pub mod debugger;
pub mod scenario;
pub mod launch;

pub use debugger::{fallback_version, AutoHotkeyDebugger, InstallAction, InstallEvent};
pub use launch::{binary_from_paths, DebugAdapterBinary, DebugTaskDefinition};
pub use release::{select_release, version_from_tag, Asset};
pub use request::{request_type_from_config, validate_adapter_name, ConfigDocument, RequestKind, ADAPTER_NAME};
pub use scenario::{
    launch_config, scenario_from_config, AttachRequest, DebugConfig, DebugRequest, DebugScenario,
    LaunchRequest, ADAPTER_PORT,
};
