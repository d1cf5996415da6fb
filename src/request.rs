//! The adapter identity and the launch/attach decision.

use vstd::prelude::*;
use crate::debugger::AutoHotkeyDebugger;
use crate::json::{json_string_field, read_string_field};
use crate::text::{contains, lemma_contains_extend, lemma_contains_prefix, opt_view, to_string};

verus! {

/// The one adapter identifier that this library serves.
pub const ADAPTER_NAME: &'static str = "autohotkey";

/// The message for an adapter identifier other than `ADAPTER_NAME`.
pub open spec fn unsupported_adapter_message(name: Seq<char>) -> Seq<char> {
    "Unsupported adapter '"@ + name + "', expected '"@ + ADAPTER_NAME@ + "'"@
}

/// Accepts exactly `ADAPTER_NAME`, compared character for character.
pub fn validate_adapter_name(name: &str) -> (r: Result<(), String>)
    ensures
        r is Ok <==> name@ == ADAPTER_NAME@,
        r matches Err(m) ==> m@ == unsupported_adapter_message(name@),
{
    let given = to_string(name);
    let expected = to_string(ADAPTER_NAME);
    if given == expected {
        Ok(())
    } else {
        let mut m = to_string("Unsupported adapter '");
        m.append(name);
        m.append("', expected '");
        m.append(ADAPTER_NAME);
        m.append("'");
        Err(m)
    }
}

/// Every rejected identifier is reported as an unsupported adapter.
pub proof fn lemma_rejection_names_unsupported_adapter(name: Seq<char>)
    ensures
        contains(unsupported_adapter_message(name), "Unsupported adapter"@),
{
    reveal_strlit("Unsupported adapter '");
    reveal_strlit("Unsupported adapter");
    let head = "Unsupported adapter '"@;
    let rest = name + "', expected '"@ + ADAPTER_NAME@ + "'"@;
    assert("Unsupported adapter"@.is_prefix_of(head));
    lemma_contains_prefix(head, "Unsupported adapter"@);
    lemma_contains_extend(Seq::empty(), head, rest, "Unsupported adapter"@);
    assert(Seq::<char>::empty() + head + rest =~= unsupported_adapter_message(name));
}

/// Whether a debug session starts the debuggee or attaches to a running one.
#[derive(Clone, Copy, Debug, PartialEq, Eq, Structural)]
pub enum RequestKind {
    Launch,
    Attach,
}

/// The part of an adapter configuration document that decides the request kind.
#[derive(Debug)]
pub struct ConfigDocument {
    /// The `request` field when it holds a string; `None` when it is absent,
    /// null or of another type.
    pub request: Option<String>,
}

/// The message for a `request` value other than "launch" and "attach".
pub open spec fn invalid_request_message(value: Seq<char>) -> Seq<char> {
    "Invalid request type '"@ + value + "', expected 'launch' or 'attach'"@
}

/// The request kind named by the `request` field, if the field holds a string.
pub open spec fn request_kind_of(field: Option<Seq<char>>) -> Result<RequestKind, Seq<char>> {
    match field {
        None => Ok(RequestKind::Launch),
        Some(v) => if v == "launch"@ {
            Ok(RequestKind::Launch)
        } else if v == "attach"@ {
            Ok(RequestKind::Attach)
        } else {
            Err(invalid_request_message(v))
        },
    }
}

/// A request-kind result with its error seen as characters.
pub open spec fn kind_result_view(r: Result<RequestKind, String>) -> Result<RequestKind, Seq<char>> {
    match r {
        Ok(k) => Ok(k),
        Err(m) => Err(m@),
    }
}

/// Decides launch or attach from a configuration document. An absent or null
/// `request` means launch.
pub fn request_type_from_config(config: &ConfigDocument) -> (r: Result<RequestKind, String>)
    ensures
        kind_result_view(r) == request_kind_of(opt_view(config.request)),
        config.request is None ==> r == Ok::<RequestKind, String>(RequestKind::Launch),
        config.request matches Some(v) && v@ == "launch"@ ==> r == Ok::<RequestKind, String>(
            RequestKind::Launch,
        ),
        config.request matches Some(v) && v@ == "attach"@ ==> r == Ok::<RequestKind, String>(
            RequestKind::Attach,
        ),
{
    proof {
        reveal_strlit("launch");
        reveal_strlit("attach");
        assert("launch"@[0] != "attach"@[0]);
    }
    match &config.request {
        None => Ok(RequestKind::Launch),
        Some(v) => {
            if *v == to_string("launch") {
                Ok(RequestKind::Launch)
            } else if *v == to_string("attach") {
                Ok(RequestKind::Attach)
            } else {
                let mut m = to_string("Invalid request type '");
                m.append(v.as_str());
                m.append("', expected 'launch' or 'attach'");
                Err(m)
            }
        },
    }
}

/// The text that starts the message for a configuration that is not valid JSON.
pub open spec fn config_parse_error_prefix() -> Seq<char> {
    "Failed to parse config JSON: "@
}

impl AutoHotkeyDebugger {
    /// Decides launch or attach from a configuration document given as JSON text.
    pub fn parse_request_kind(config_json: &str) -> (r: Result<RequestKind, String>)
        ensures
            json_string_field(config_json@, "request"@) matches Some(f) ==> kind_result_view(r)
                == request_kind_of(f),
            json_string_field(config_json@, "request"@) is None ==> (r matches Err(m)
                && config_parse_error_prefix().is_prefix_of(m@)),
    {
        match read_string_field(config_json, "request") {
            Ok(field) => request_type_from_config(&ConfigDocument { request: field }),
            Err(e) => {
                let mut m = to_string("Failed to parse config JSON: ");
                m.append(e.as_str());
                Err(m)
            },
        }
    }
}

/// An unrecognised `request` value is reported with that value and with both
/// accepted values.
pub proof fn lemma_invalid_request_message(value: Seq<char>)
    ensures
        contains(invalid_request_message(value), value),
        contains(invalid_request_message(value), "launch"@),
        contains(invalid_request_message(value), "attach"@),
{
    let head = "Invalid request type '"@;
    let tail = "', expected 'launch' or 'attach'"@;
    reveal_strlit("', expected 'launch' or 'attach'");
    reveal_strlit("launch");
    reveal_strlit("attach");
    lemma_contains_prefix(value, value);
    lemma_contains_extend(head, value, tail, value);
    let z: int = 13;
    assert(tail.subrange(z, z + "launch"@.len()) =~= "launch"@);
    let y: int = 25;
    assert(tail.subrange(y, y + "attach"@.len()) =~= "attach"@);
    lemma_contains_extend(head + value, tail, Seq::empty(), "launch"@);
    lemma_contains_extend(head + value, tail, Seq::empty(), "attach"@);
    assert(head + value + tail + Seq::<char>::empty() =~= invalid_request_message(value));
}

} // verus!
