//! What the operations are for.
//!
//! Each law here speaks of a call: given the arguments and what the call
//! returned, it says what must hold of the two. `call_ensures(f, args, r)` reads
//! "a call of `f` with `args` can return `r`".

use vstd::prelude::*;

use crate::deepseek::DeepSeekMessage;
use crate::handlers::AiInteraction;
use crate::http::Reply;
use crate::llm_provider::LLMMessage;

pub mod dialogue;
pub mod generation;
pub mod nodes;
pub mod providers;
pub mod queue;
pub mod reviews;
pub mod screens;
pub mod store;
pub mod texts;

verus! {

/// The reply is an error with this status and this message.
pub open spec fn refused<T>(reply: Reply<T>, status: u16, message: Seq<char>) -> bool {
    reply matches Reply::Error(e) && e.status == status && e.message@ == message
}

/// The number that a signed 32-bit column holds for an unsigned count: the
/// count itself below the sign bit, and the same bits above it.
pub open spec fn column(tokens: u32) -> int {
    if tokens < 0x8000_0000 {
        tokens as int
    } else {
        tokens - 0x1_0000_0000
    }
}

/// The log row is about this user and this kind of call, and keeps what went
/// in, what came out and what it cost.
pub open spec fn logs(
    row: AiInteraction,
    user_id: u128,
    kind: Seq<char>,
    input: Seq<char>,
    output: Seq<char>,
    tokens: u32,
) -> bool {
    &&& row.user_id == user_id
    &&& row.interaction_type@ == kind
    &&& row.input_text@ == input
    &&& row.output_text@ == output
    &&& row.tokens_used == column(tokens)
}

/// The wire message has this role and this content.
pub open spec fn wire(m: DeepSeekMessage, role: Seq<char>, content: Seq<char>) -> bool {
    m.role@ == role && m.content@ == content
}

/// The neutral message has this role and this content.
pub open spec fn neutral(m: LLMMessage, role: Seq<char>, content: Seq<char>) -> bool {
    m.role@ == role && m.content@ == content
}

/// An optional text reads as another: both are missing, or both are there and
/// read the same.
pub open spec fn same_option(a: Option<String>, b: Option<String>) -> bool {
    &&& a is None <==> b is None
    &&& a matches Some(x) ==> (b matches Some(y) && x@ == y@)
}

/// The start of a text that messages quote: at most 500 characters.
pub open spec fn start_of(s: Seq<char>) -> Seq<char> {
    s.take(if s.len() < 500 { s.len() as int } else { 500 })
}

/// `decode`, called on a text that reads `text`, always returns `d`.
pub open spec fn always<T, F: Fn(&str) -> Result<T, String>>(
    decode: F,
    text: Seq<char>,
    d: Result<T, String>,
) -> bool {
    forall|s: &str, x: Result<T, String>|
        s@ == text && #[trigger] call_ensures(decode, (s,), x) ==> x == d
}

} // verus!
