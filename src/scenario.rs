//! Turning a typed debug request into the adapter's configuration document.

use vstd::prelude::*;
use crate::debugger::AutoHotkeyDebugger;
use crate::json::{json_quoted, string_literal};
use crate::request::{unsupported_adapter_message, validate_adapter_name, ADAPTER_NAME};
use crate::text::{contains, lemma_contains_extend, lemma_contains_prefix, opt_view, to_string};

verus! {

/// The port that the adapter listens on.
pub const ADAPTER_PORT: u64 = 9005;

/// A request to start a program under the debugger.
#[derive(Debug)]
pub struct LaunchRequest {
    pub program: String,
    pub cwd: Option<String>,
    pub args: Vec<String>,
    pub envs: Vec<(String, String)>,
}

/// A request to attach to a running process.
#[derive(Clone, Copy, Debug)]
pub struct AttachRequest {
    pub process_id: Option<u32>,
}

/// A launch or an attach.
#[derive(Debug)]
pub enum DebugRequest {
    Launch(LaunchRequest),
    Attach(AttachRequest),
}

/// An editor-agnostic description of a debug session.
#[derive(Debug)]
pub struct DebugConfig {
    pub label: String,
    pub adapter: String,
    pub request: DebugRequest,
    pub stop_on_entry: Option<bool>,
}

/// A named debug session for this adapter, with its JSON configuration.
#[derive(Debug)]
pub struct DebugScenario {
    pub label: String,
    pub adapter: String,
    pub config: String,
}

/// The items of a JSON array of strings, comma-separated, without the brackets.
pub open spec fn json_string_items(items: Seq<String>) -> Seq<char>
    decreases items.len(),
{
    if items.len() == 0 {
        Seq::empty()
    } else if items.len() == 1 {
        json_quoted(items[0]@)
    } else {
        json_string_items(items.drop_last()) + ","@ + json_quoted(items.last()@)
    }
}

/// A JSON string, or `null` when absent.
pub open spec fn json_optional_string(s: Option<Seq<char>>) -> Seq<char> {
    match s {
        Some(v) => json_quoted(v),
        None => "null"@,
    }
}

/// The text of a JSON boolean.
pub open spec fn json_bool(b: bool) -> Seq<char> {
    if b {
        "true"@
    } else {
        "false"@
    }
}

/// The configuration document of a launch: a compact JSON object with the
/// fields `request`, `program`, `cwd`, `args`, `stopOnEntry` and `port`, in that
/// order; `port` is `ADAPTER_PORT`.
pub open spec fn launch_config_json(
    program: Seq<char>,
    cwd: Option<Seq<char>>,
    args: Seq<String>,
    stop_on_entry: bool,
) -> Seq<char> {
    "{\"request\":\"launch\",\"program\":"@ + json_quoted(program) + ",\"cwd\":"@
        + json_optional_string(cwd) + ",\"args\":["@ + json_string_items(args)
        + "],\"stopOnEntry\":"@ + json_bool(stop_on_entry) + ",\"port\":9005}"@
}

/// The entry-pause flag, off unless set.
pub open spec fn stop_flag(stop_on_entry: Option<bool>) -> bool {
    match stop_on_entry {
        Some(b) => b,
        None => false,
    }
}

/// The message for a launch whose program does not exist.
pub open spec fn script_not_found_message(program: Seq<char>) -> Seq<char> {
    "Script file not found: '"@ + program + "'. Check the 'program' path in your debug configuration."@
}

/// The message for an attach request.
pub open spec fn attach_unsupported_message() -> Seq<char> {
    "AutoHotkey debugger does not support attach mode"@
}

/// What translating `config` gives, knowing whether its program exists.
pub open spec fn scenario_outcome(config: DebugConfig, program_exists: bool, r: Result<DebugScenario, String>) -> bool {
    if config.adapter@ != ADAPTER_NAME@ {
        r matches Err(m) && m@ == unsupported_adapter_message(config.adapter@)
    } else {
        match config.request {
            DebugRequest::Attach(_) => r matches Err(m) && m@ == attach_unsupported_message(),
            DebugRequest::Launch(l) => if l.program@.len() > 0 && !program_exists {
                r matches Err(m) && m@ == script_not_found_message(l.program@)
            } else {
                r matches Ok(s) && s.label == config.label && s.adapter == config.adapter
                    && s.config@ == launch_config_json(
                    l.program@,
                    opt_view(l.cwd),
                    l.args@,
                    stop_flag(config.stop_on_entry),
                )
            },
        }
    }
}

/// The JSON array items of `args`.
fn string_items(args: &Vec<String>) -> (r: String)
    ensures
        r@ == json_string_items(args@),
{
    let mut out = String::new();
    let mut i: usize = 0;
    while i < args.len()
        invariant
            i <= args@.len(),
            out@ == json_string_items(args@.subrange(0, i as int)),
        decreases args@.len() - i,
    {
        let ghost before = args@.subrange(0, i as int);
        let ghost after = args@.subrange(0, i + 1);
        assert(after.drop_last() =~= before);
        if i > 0 {
            out.append(",");
        }
        let item = string_literal(args[i].as_str());
        out.append(item.as_str());
        proof {
            if i == 0 {
                assert(out@ =~= json_string_items(after));
            }
        }
        i = i + 1;
    }
    assert(args@.subrange(0, args@.len() as int) =~= args@);
    out
}

/// The configuration document of a launch.
pub fn launch_config(launch: &LaunchRequest, stop_on_entry: bool) -> (r: String)
    ensures
        r@ == launch_config_json(launch.program@, opt_view(launch.cwd), launch.args@, stop_on_entry),
{
    let mut out = to_string("{\"request\":\"launch\",\"program\":");
    let p = string_literal(launch.program.as_str());
    out.append(p.as_str());
    out.append(",\"cwd\":");
    match &launch.cwd {
        Some(c) => {
            let q = string_literal(c.as_str());
            out.append(q.as_str());
        },
        None => out.append("null"),
    }
    out.append(",\"args\":[");
    let items = string_items(&launch.args);
    out.append(items.as_str());
    out.append("],\"stopOnEntry\":");
    if stop_on_entry {
        out.append("true");
    } else {
        out.append("false");
    }
    out.append(",\"port\":9005}");
    out
}

/// Translates a debug request into a scenario, given whether its program exists.
/// Attach requests are refused; a launch with an empty program is accepted.
pub fn scenario_from_config(config: DebugConfig, program_exists: bool) -> (r: Result<DebugScenario, String>)
    ensures
        scenario_outcome(config, program_exists, r),
{
    if let Err(m) = validate_adapter_name(config.adapter.as_str()) {
        return Err(m);
    }
    match &config.request {
        DebugRequest::Attach(_) => Err(to_string("AutoHotkey debugger does not support attach mode")),
        DebugRequest::Launch(launch) => {
            if launch.program.unicode_len() > 0 && !program_exists {
                let mut m = to_string("Script file not found: '");
                m.append(launch.program.as_str());
                m.append("'. Check the 'program' path in your debug configuration.");
                return Err(m);
            }
            let stop = match config.stop_on_entry {
                Some(b) => b,
                None => false,
            };
            let text = launch_config(launch, stop);
            Ok(DebugScenario { label: config.label, adapter: config.adapter, config: text })
        },
    }
}

/// Relies on std::path::Path::exists: whether the file system has an entry at
/// `path` just now. Nothing is promised of the answer.
#[verifier::external_body]
pub(crate) fn path_exists(path: &str) -> (r: bool) {
    std::path::Path::new(path).exists()
}

impl AutoHotkeyDebugger {
    /// Translates a debug request into a scenario, checking on disk that a
    /// non-empty program exists. The adapter identifier is checked first.
    pub fn dap_config_to_scenario(&self, config: DebugConfig) -> (r: Result<DebugScenario, String>)
        ensures
            scenario_outcome(config, true, r) || scenario_outcome(config, false, r),
            config.request matches DebugRequest::Launch(l) && l.program@.len() == 0
                ==> scenario_outcome(config, true, r),
            !(config.request is Launch) ==> scenario_outcome(config, true, r),
            config.adapter@ != ADAPTER_NAME@ ==> scenario_outcome(config, true, r),
    {
        let checked = validate_adapter_name(config.adapter.as_str());
        let exists = match &config.request {
            DebugRequest::Launch(launch) => checked.is_err() || launch.program.unicode_len() == 0
                || path_exists(launch.program.as_str()),
            DebugRequest::Attach(_) => true,
        };
        scenario_from_config(config, exists)
    }
}

/// A launch with a missing program is reported as a missing script file, and an
/// attach request as unsupported.
pub proof fn lemma_scenario_messages(program: Seq<char>)
    ensures
        contains(script_not_found_message(program), "Script file not found"@),
        contains(attach_unsupported_message(), "does not support attach mode"@),
{
    reveal_strlit("Script file not found: '");
    reveal_strlit("Script file not found");
    reveal_strlit("AutoHotkey debugger does not support attach mode");
    reveal_strlit("does not support attach mode");
    let head = "Script file not found: '"@;
    let rest = program + "'. Check the 'program' path in your debug configuration."@;
    assert("Script file not found"@.is_prefix_of(head));
    lemma_contains_prefix(head, "Script file not found"@);
    lemma_contains_extend(Seq::empty(), head, rest, "Script file not found"@);
    assert(Seq::<char>::empty() + head + rest =~= script_not_found_message(program));
    let msg = attach_unsupported_message();
    let i: int = 20;
    assert(msg.subrange(i, i + "does not support attach mode"@.len()) =~= "does not support attach mode"@);
}

/// The configuration document carries the entry-pause flag as given.
pub proof fn lemma_launch_config_stop_flag(
    program: Seq<char>,
    cwd: Option<Seq<char>>,
    args: Seq<String>,
    stop_on_entry: bool,
)
    ensures
        stop_on_entry ==> contains(launch_config_json(program, cwd, args, stop_on_entry), "\"stopOnEntry\":true"@),
        !stop_on_entry ==> contains(launch_config_json(program, cwd, args, stop_on_entry), "\"stopOnEntry\":false"@),
{
    reveal_strlit("],\"stopOnEntry\":");
    reveal_strlit("\"stopOnEntry\":true");
    reveal_strlit("\"stopOnEntry\":false");
    reveal_strlit("true");
    reveal_strlit("false");
    let key = "],\"stopOnEntry\":"@;
    let flag = json_bool(stop_on_entry);
    let head = "{\"request\":\"launch\",\"program\":"@ + json_quoted(program) + ",\"cwd\":"@
        + json_optional_string(cwd) + ",\"args\":["@ + json_string_items(args);
    let post = ",\"port\":9005}"@;
    let i: int = 2;
    let tail = key + flag;
    let want = if stop_on_entry { "\"stopOnEntry\":true"@ } else { "\"stopOnEntry\":false"@ };
    assert(tail.subrange(i, i + want.len()) =~= want);
    lemma_contains_extend(head, tail, post, want);
    assert(head + tail + post =~= launch_config_json(program, cwd, args, stop_on_entry));
}

} // verus!
