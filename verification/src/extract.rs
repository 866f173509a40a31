//! Tool-call extraction: validates and decodes the tool invocations a model
//! returned into concrete command strings.
//!
//! A call is decoded only when its function name is exactly `call_command`,
//! it carries an arguments payload, that payload parses as JSON, and the
//! parsed document has a string-typed, non-empty `command` field; any other
//! shape is skipped. A payload that is not JSON at all is an error for that
//! call alone: it is counted and its siblings are still processed (per-call
//! isolation).

use vstd::prelude::*;
use vstd::string::StringExecFns;
use crate::json;
use crate::json::JsonModel;

verus! {

/// One tool invocation as the model returned it: a function name and a
/// JSON-encoded arguments payload, either of which may be absent.
pub struct ToolCall {
    pub name: Option<String>,
    pub arguments: Option<String>,
}

/// The tool-call part of a chat response: the first choice's message either
/// carries a list of tool calls or none at all.
pub struct ToolResponse {
    pub tool_calls: Option<Vec<ToolCall>>,
}

/// A tool call's arguments payload was not a JSON document.
#[derive(Debug)]
pub struct ResponseParseError;

impl ResponseParseError {
    /// A fixed human-readable description of this error.
    pub fn describe(&self) -> (s: String)
        ensures
            s@ == "malformed tool-call arguments"@,
    {
        String::from_str("malformed tool-call arguments")
    }
}

/// Whether a call names the one registered tool.
pub open spec fn spec_is_call_command(c: ToolCall) -> bool {
    c.name is Some && c.name->0@ == "call_command"@
}

/// What decoding one tool call yields: `Err(())` where the arguments payload
/// is present but not JSON, `Ok(None)` where the call is skipped, and
/// `Ok(Some(t))` where `t` is the command it carries. A call is skipped
/// unless it names the registered tool and its parsed arguments hold a
/// string-typed, non-empty `command` field.
pub open spec fn spec_extracted(c: ToolCall) -> Result<Option<Seq<char>>, ()> {
    if !spec_is_call_command(c) {
        Ok(None)
    } else if c.arguments is None {
        Ok(None)
    } else {
        match json::parsed_json(c.arguments->0@) {
            Option::None => Err(()),
            Option::Some(doc) => match doc {
                JsonModel::Fields(fields) => if fields.contains_key("command"@) {
                    match fields["command"@] {
                        JsonModel::Text(t) => if t.len() > 0 {
                            Ok(Some(t))
                        } else {
                            Ok(None)
                        },
                        _ => Ok(None),
                    }
                } else {
                    Ok(None)
                },
                _ => Ok(None),
            },
        }
    }
}

/// The view of an optional command string.
pub open spec fn spec_opt_text(o: Option<String>) -> Option<Seq<char>> {
    match o {
        Option::None => Option::None,
        Option::Some(s) => Option::Some(s@),
    }
}

/// Decodes one tool call. Yields the command it carries; yields nothing for a
/// call whose name is not `call_command`, that has no arguments, or whose
/// parsed arguments lack a string-typed, non-empty `command` field; fails
/// only where the arguments payload is not JSON.
pub fn extract_command_from_tool_call(tc: &ToolCall) -> (r: Result<
    Option<String>,
    ResponseParseError,
>)
    ensures
        r is Err <==> spec_extracted(*tc) is Err,
        r is Ok ==> spec_opt_text(r->Ok_0) == spec_extracted(*tc)->Ok_0,
{
    let expected = String::from_str("call_command");
    let name_matches = match &tc.name {
        Option::Some(n) => *n == expected,
        Option::None => false,
    };
    if !name_matches {
        return Ok(None);
    }
    let args = match &tc.arguments {
        Option::Some(a) => a,
        Option::None => { return Ok(None); },
    };
    let parsed = match json::parse_json(args.as_str()) {
        Ok(v) => v,
        Err(_) => { return Err(ResponseParseError); },
    };
    let field = match json::get_field(&parsed, "command") {
        Option::Some(f) => f,
        Option::None => { return Ok(None); },
    };
    match json::str_content(field) {
        Option::Some(cmd) => if cmd.as_str().is_empty() {
            Ok(None)
        } else {
            Ok(Some(cmd))
        },
        Option::None => Ok(None),
    }
}

/// The commands a sequence of tool calls yields, in order; calls that are
/// skipped or malformed contribute nothing.
pub open spec fn spec_commands(calls: Seq<ToolCall>) -> Seq<Seq<char>>
    decreases calls.len(),
{
    if calls.len() == 0 {
        Seq::empty()
    } else {
        spec_commands(calls.drop_last()) + (match spec_extracted(calls.last()) {
            Ok(Some(t)) => seq![t],
            _ => Seq::<Seq<char>>::empty(),
        })
    }
}

/// How many of the calls carry an arguments payload that is not JSON.
pub open spec fn spec_failures(calls: Seq<ToolCall>) -> nat
    decreases calls.len(),
{
    if calls.len() == 0 {
        0
    } else {
        spec_failures(calls.drop_last()) + (if spec_extracted(calls.last()) is Err {
            1nat
        } else {
            0nat
        })
    }
}

/// What a whole batch of tool calls yields.
pub struct Extraction {
    /// The decoded commands, in the order the model returned them.
    pub commands: Vec<String>,
    /// How many calls were dropped because their arguments were not JSON.
    pub parse_failures: usize,
}

/// Decodes every call in the batch, in order, isolating failures: a call
/// whose arguments are not JSON is only counted, and its siblings are still
/// decoded.
pub fn extract(calls: &Vec<ToolCall>) -> (r: Extraction)
    ensures
        r.commands@.map_values(|s: String| s@) == spec_commands(calls@),
        r.parse_failures == spec_failures(calls@),
{
    let mut commands: Vec<String> = Vec::new();
    let mut parse_failures: usize = 0;
    let n = calls.len();
    for i in 0..n
        invariant
            n == calls@.len(),
            commands@.map_values(|s: String| s@) == spec_commands(calls@.take(i as int)),
            parse_failures == spec_failures(calls@.take(i as int)),
            parse_failures <= i,
    {
        proof {
            assert(calls@.take(i + 1).drop_last() =~= calls@.take(i as int));
            assert(calls@.take(i + 1).last() == calls@[i as int]);
        }
        match extract_command_from_tool_call(&calls[i]) {
            Ok(Some(cmd)) => {
                commands.push(cmd);
                proof {
                    assert(commands@.map_values(|s: String| s@) =~= spec_commands(
                        calls@.take(i + 1),
                    ));
                }
            },
            Ok(None) => {
                proof {
                    assert(commands@.map_values(|s: String| s@) =~= spec_commands(
                        calls@.take(i + 1),
                    ));
                }
            },
            Err(_) => {
                parse_failures = parse_failures + 1;
                proof {
                    assert(commands@.map_values(|s: String| s@) =~= spec_commands(
                        calls@.take(i + 1),
                    ));
                }
            },
        }
    }
    proof {
        assert(calls@.take(n as int) =~= calls@);
    }
    Extraction { commands, parse_failures }
}

/// The terminal state of one resolution round: either the model returned no
/// tool calls at all, or it returned a batch and this is what the batch
/// yielded.
pub enum Resolution {
    NoToolCalls,
    Resolved(Extraction),
}

/// Resolves a chat response. A response without a tool-call list is the valid
/// terminal state `NoToolCalls`, never an error; one with a list is decoded
/// call by call.
pub fn resolve(resp: &ToolResponse) -> (r: Resolution)
    ensures
        r is NoToolCalls <==> resp.tool_calls is None,
        resp.tool_calls is Some ==> ({
            &&& r is Resolved
            &&& r->Resolved_0.commands@.map_values(|s: String| s@) == spec_commands(
                resp.tool_calls->0@,
            )
            &&& r->Resolved_0.parse_failures == spec_failures(resp.tool_calls->0@)
        }),
{
    match &resp.tool_calls {
        Option::None => Resolution::NoToolCalls,
        Option::Some(calls) => Resolution::Resolved(extract(calls)),
    }
}

impl Resolution {
    /// A fixed human-readable note on the round's terminal state.
    pub fn describe(&self) -> (s: String)
        ensures
            self is NoToolCalls ==> s@ == "no tool calls found"@,
            self is Resolved ==> s@ == "tool calls resolved"@,
    {
        match self {
            Resolution::NoToolCalls => String::from_str("no tool calls found"),
            Resolution::Resolved(_) => String::from_str("tool calls resolved"),
        }
    }
}

/// Law: only a foreign name is a reason for silence, never an error. A call
/// whose function name is anything other than the registered tool's is
/// skipped outright: it yields no command and no failure.
pub proof fn lemma_foreign_name_skipped(c: ToolCall)
    requires
        !spec_is_call_command(c),
    ensures
        spec_extracted(c) == Result::<Option<Seq<char>>, ()>::Ok(Option::None),
{
}

/// Law: a call whose arguments parse as a JSON object without a `command`
/// key yields no command for that entry, and no error either.
pub proof fn lemma_missing_command_skipped(c: ToolCall, fields: Map<Seq<char>, JsonModel>)
    requires
        c.arguments is Some,
        json::parsed_json(c.arguments->0@) == Some(JsonModel::Fields(fields)),
        !fields.contains_key("command"@),
    ensures
        spec_extracted(c) == Result::<Option<Seq<char>>, ()>::Ok(Option::None),
{
}

/// Law: the extractor's name filter is exactly the declared tool's name. For
/// any tool definition of the constant command-tool shape, a call passes the
/// filter if and only if it names that tool.
pub proof fn lemma_filter_matches_declared_tool(t: crate::schema::ToolDefinition, c: ToolCall)
    requires
        crate::schema::spec_command_tool(t),
    ensures
        spec_is_call_command(c) <==> (c.name is Some && c.name->0@ == t.name@),
{
}

/// Law: decoding isolates failures. In a batch of two calls where the first
/// carries an arguments payload that is not JSON and the second decodes to a
/// command, the batch yields exactly that one command, and exactly one
/// failure is counted.
pub proof fn lemma_isolation_keeps_sibling(bad: ToolCall, good: ToolCall, t: Seq<char>)
    requires
        spec_extracted(bad) is Err,
        spec_extracted(good) == Result::<Option<Seq<char>>, ()>::Ok(Some(t)),
    ensures
        spec_commands(seq![bad, good]) == seq![t],
        spec_failures(seq![bad, good]) == 1nat,
{
    let pair = seq![bad, good];
    let lone = seq![bad];
    assert(pair.drop_last() =~= lone);
    assert(lone.drop_last() =~= Seq::<ToolCall>::empty());
    assert(lone.last() == bad);
    assert(pair.last() == good);
    assert(spec_commands(Seq::<ToolCall>::empty()) == Seq::<Seq<char>>::empty());
    assert(spec_commands(lone) =~= Seq::<Seq<char>>::empty());
    assert(spec_commands(pair) =~= seq![t]);
    assert(spec_failures(Seq::<ToolCall>::empty()) == 0nat);
    assert(spec_failures(lone) == 1nat);
    assert(spec_failures(pair) == 1nat);
}

} // verus!
