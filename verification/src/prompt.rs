//! Prompt construction: interpolates the system prompt, the host system-info
//! string and the user's query into one outbound prompt, in that order.

use vstd::prelude::*;
use vstd::string::StringExecFns;

verus! {

/// The full prompt text: system prompt, a labeled system-info segment,
/// then a labeled user-query segment.
pub open spec fn prompt_of(sp: Seq<char>, si: Seq<char>, uq: Seq<char>) -> Seq<char> {
    sp + " Users system info: "@ + si + " \n User query:\n"@ + uq
}

/// Composes the outbound prompt from the system prompt, the host system-info
/// string and the user's query. Pure; accepts any strings, empty included.
pub fn build_prompt(system_prompt: &str, system_info: &str, user_message: &str) -> (r: String)
    ensures
        r@ == prompt_of(system_prompt@, system_info@, user_message@),
{
    let mut out = String::new();
    out.append(system_prompt);
    out.append(" Users system info: ");
    out.append(system_info);
    out.append(" \n User query:\n");
    out.append(user_message);
    out
}

/// Law: the built prompt contains each of the three inputs as a contiguous
/// subrange, in their argument order (system prompt first, then system info,
/// then the user query).
pub proof fn lemma_prompt_contains_inputs(sp: Seq<char>, si: Seq<char>, uq: Seq<char>)
    ensures
        ({
            let p = prompt_of(sp, si, uq);
            let info_at = sp.len() + " Users system info: "@.len();
            let query_at = info_at + si.len() + " \n User query:\n"@.len();
            &&& sp.len() <= info_at
            &&& info_at + si.len() <= query_at
            &&& p.len() == query_at + uq.len()
            &&& p.subrange(0, sp.len() as int) == sp
            &&& p.subrange(info_at as int, (info_at + si.len()) as int) == si
            &&& p.subrange(query_at as int, (query_at + uq.len()) as int) == uq
        }),
{
    let p = prompt_of(sp, si, uq);
    let info_at = sp.len() + " Users system info: "@.len();
    let query_at = info_at + si.len() + " \n User query:\n"@.len();
    assert(p.subrange(0, sp.len() as int) =~= sp);
    assert(p.subrange(info_at as int, (info_at + si.len()) as int) =~= si);
    assert(p.subrange(query_at as int, (query_at + uq.len()) as int) =~= uq);
}

} // verus!
