//! The launch specification of the adapter process.

use vstd::prelude::*;
use crate::debugger::AutoHotkeyDebugger;
use crate::json::{compact, field_present, json_compact, json_field_present, json_string_field, json_with_field, with_field};
use crate::paths::{exe_path_of, script_path_of};
use crate::request::{
    config_parse_error_prefix, kind_result_view, request_kind_of,
    request_type_from_config, unsupported_adapter_message, validate_adapter_name, ConfigDocument,
    RequestKind, ADAPTER_NAME,
};
use crate::scenario::{path_exists, ADAPTER_PORT};
use crate::text::{opt_view, to_string};

verus! {

/// A debug task as the host hands it over: its JSON configuration included.
#[derive(Debug)]
pub struct DebugTaskDefinition {
    pub label: String,
    pub adapter: String,
    pub config: String,
}

/// How to start the adapter process and the session it serves. The adapter
/// talks over its standard streams; the port is passed in the configuration.
#[derive(Debug)]
pub struct DebugAdapterBinary {
    pub command: Option<String>,
    pub arguments: Vec<String>,
    pub envs: Vec<(String, String)>,
    pub cwd: Option<String>,
    pub configuration: String,
    pub request: RequestKind,
}

/// The message for a missing runtime executable.
pub open spec fn runtime_missing_message(path: Seq<char>) -> Seq<char> {
    "Debug adapter AutoHotkey.exe not found at '"@ + path + "'. Try reinstalling the extension."@
}

/// The message for a missing adapter entry script.
pub open spec fn script_missing_message(path: Seq<char>) -> Seq<char> {
    "Debug adapter script not found at '"@ + path + "'. Try reinstalling the extension."@
}

/// The message for a configuration that is JSON but not an object.
pub open spec fn config_not_object_message() -> Seq<char> {
    "Failed to parse config: the configuration is not a JSON object"@
}

/// The configuration handed to the adapter: the task's own, compacted, when it
/// names a port; otherwise the task's with `ADAPTER_PORT` added. `None` when
/// the task's configuration is neither an object nor null.
pub open spec fn configuration_with_port(config: Seq<char>) -> Option<Seq<char>> {
    match json_field_present(config, "port"@) {
        None => None,
        Some(true) => json_compact(config),
        Some(false) => json_with_field(config, "port"@, ADAPTER_PORT as int),
    }
}

/// The launch specification that `exe`, `script`, the configuration text and
/// the working directory give, once both files are known to exist.
pub open spec fn launch_outcome(
    exe: Seq<char>,
    script: Seq<char>,
    config: Seq<char>,
    cwd: Seq<char>,
    r: Result<DebugAdapterBinary, String>,
) -> bool {
    match json_string_field(config, "request"@) {
        None => r matches Err(m) && config_parse_error_prefix().is_prefix_of(m@),
        Some(field) => match request_kind_of(field) {
            Err(m) => r matches Err(e) && e@ == m,
            Ok(kind) => match configuration_with_port(config) {
                None => r matches Err(e) && e@ == config_not_object_message(),
                Some(text) => r matches Ok(b) && {
                    &&& opt_view(b.command) == Some(exe)
                    &&& b.arguments@.len() == 1
                    &&& b.arguments@[0]@ == script
                    &&& b.envs@.len() == 0
                    &&& opt_view(b.cwd) == Some(cwd)
                    &&& b.configuration@ == text
                    &&& b.request == kind
                },
            },
        },
    }
}

/// What building from `exe` and `script` gives, knowing whether each exists.
pub open spec fn binary_outcome(
    exe: Seq<char>,
    script: Seq<char>,
    exe_exists: bool,
    script_exists: bool,
    config: Seq<char>,
    cwd: Seq<char>,
    r: Result<DebugAdapterBinary, String>,
) -> bool {
    if !exe_exists {
        r matches Err(m) && m@ == runtime_missing_message(exe)
    } else if !script_exists {
        r matches Err(m) && m@ == script_missing_message(script)
    } else {
        launch_outcome(exe, script, config, cwd, r)
    }
}

/// Builds the launch specification from the runtime and script paths, whether
/// each exists, the task's JSON configuration and the working directory. The
/// configuration gains the adapter's port unless it names one.
pub fn binary_from_paths(
    exe: String,
    script: String,
    exe_exists: bool,
    script_exists: bool,
    config: &str,
    cwd: String,
) -> (r: Result<DebugAdapterBinary, String>)
    ensures
        binary_outcome(exe@, script@, exe_exists, script_exists, config@, cwd@, r),
{
    if !exe_exists {
        let mut m = to_string("Debug adapter AutoHotkey.exe not found at '");
        m.append(exe.as_str());
        m.append("'. Try reinstalling the extension.");
        return Err(m);
    }
    if !script_exists {
        let mut m = to_string("Debug adapter script not found at '");
        m.append(script.as_str());
        m.append("'. Try reinstalling the extension.");
        return Err(m);
    }
    let request = match AutoHotkeyDebugger::parse_request_kind(config) {
        Ok(k) => k,
        Err(m) => return Err(m),
    };
    let text = match field_present(config, "port") {
        None => None,
        Some(true) => compact(config),
        Some(false) => with_field(config, "port", ADAPTER_PORT),
    };
    let configuration = match text {
        Some(t) => t,
        None => return Err(to_string("Failed to parse config: the configuration is not a JSON object")),
    };
    Ok(DebugAdapterBinary {
        command: Some(exe),
        arguments: vec![script],
        envs: Vec::new(),
        cwd: Some(cwd),
        configuration,
        request,
    })
}

/// The runtime executable: the caller's when given, else the bundled one.
pub open spec fn runtime_path(base: Seq<char>, version: Seq<char>, user: Option<String>) -> Seq<char> {
    match user {
        Some(p) => p@,
        None => exe_path_of(base, version),
    }
}

impl AutoHotkeyDebugger {
    /// Builds the launch specification of `version`, checking on disk that the
    /// runtime and then the entry script exist.
    pub fn build_binary(
        &self,
        version: &str,
        config: DebugTaskDefinition,
        user_provided_path: Option<String>,
        worktree_root: String,
    ) -> (r: Result<DebugAdapterBinary, String>)
        ensures
            exists|exe_exists: bool, script_exists: bool|
                binary_outcome(
                    runtime_path(self.base_dir@, version@, user_provided_path),
                    script_path_of(self.base_dir@, version@),
                    exe_exists,
                    script_exists,
                    config.config@,
                    worktree_root@,
                    r,
                ),
    {
        let exe = match user_provided_path {
            Some(p) => p,
            None => self.ahk_exe_path(version),
        };
        let script = self.adapter_script_path(version);
        let exe_exists = path_exists(exe.as_str());
        let script_exists = exe_exists && path_exists(script.as_str());
        let r = binary_from_paths(exe, script, exe_exists, script_exists, config.config.as_str(), worktree_root);
        assert(binary_outcome(
            runtime_path(self.base_dir@, version@, user_provided_path),
            script_path_of(self.base_dir@, version@),
            exe_exists,
            script_exists,
            config.config@,
            worktree_root@,
            r,
        ));
        r
    }

    /// Decides launch or attach for a configuration of this adapter.
    pub fn dap_request_kind(&self, adapter_name: String, config: ConfigDocument) -> (r: Result<
        RequestKind,
        String,
    >)
        ensures
            adapter_name@ != ADAPTER_NAME@ ==> (r matches Err(m) && m@ == unsupported_adapter_message(adapter_name@)),
            adapter_name@ == ADAPTER_NAME@ ==> kind_result_view(r) == request_kind_of(opt_view(config.request)),
    {
        match validate_adapter_name(adapter_name.as_str()) {
            Err(m) => Err(m),
            Ok(()) => request_type_from_config(&config),
        }
    }
}

} // verus!
