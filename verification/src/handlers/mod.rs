//! The endpoints, grouped by resource, and what they share.
//!
//! An endpoint talks to the database and to the model in turn. Each of its
//! turns is a function here: it takes what came back and gives either what to
//! do next or the final reply.

use vstd::prelude::*;

use crate::http::{
    ErrorReply, Reply, BAD_REQUEST, CONFLICT, INTERNAL_SERVER_ERROR, NOT_FOUND,
};
use crate::ids;
use crate::ids::{id_text, RecordId};
use crate::llm_provider::LLMError;
use crate::text::{cat2, cat3};

pub mod cards_from_node;
pub mod due;
pub mod generate;
pub mod reviews;
pub mod socratic;

verus! {

/// The single JSON error shape of all endpoints.
pub fn error_response(status: u16, message: &str) -> (r: ErrorReply)
    ensures
        r.says(status, message@),
{
    ErrorReply { status, message: message.to_owned() }
}

/// A reply that reports an error.
pub(crate) fn error_reply<T>(status: u16, message: &str) -> (r: Reply<T>)
    ensures
        r.is_error(status, message@),
{
    Reply::Error(error_response(status, message))
}

/// What an AI endpoint records when the provider call fails.
pub open spec fn failure_placeholder(err: LLMError) -> Seq<char> {
    match err {
        LLMError::Truncated { finish_reason } =>
            "[truncated by the token budget (finish_reason: "@ + finish_reason@
            + ") — no usable content returned]"@,
        _ => "[no response received from DeepSeek — call failed: "@ + err.text() + "]"@,
    }
}

/// What an AI endpoint tells its caller when the provider call fails.
pub open spec fn failure_message(err: LLMError) -> Seq<char> {
    match err {
        LLMError::Truncated { finish_reason } => "DeepSeek stopped mid-answer at its token limit ("@
            + finish_reason@
            + "); nothing was parsed. Retrying, or requesting fewer items, may succeed."@,
        _ => "DeepSeek API call failed: "@ + err.text(),
    }
}

/// Renders a provider failure into what to record and what to tell the caller.
///
/// A truncated call stays distinguishable: the model did answer and ran out of
/// budget, so a retry may help, whereas a refused call is never worth one.
pub fn describe_llm_failure(err: &LLMError) -> (r: (String, String))
    ensures
        r.0@ == failure_placeholder(*err),
        r.1@ == failure_message(*err),
{
    match err {
        LLMError::Truncated { finish_reason } => (
            cat3(
                "[truncated by the token budget (finish_reason: ",
                finish_reason.as_str(),
                ") — no usable content returned]",
            ),
            cat3(
                "DeepSeek stopped mid-answer at its token limit (",
                finish_reason.as_str(),
                "); nothing was parsed. Retrying, or requesting fewer items, may succeed.",
            ),
        ),
        other => {
            let text = other.describe();
            (
                cat3("[no response received from DeepSeek — call failed: ", text.as_str(), "]"),
                cat2("DeepSeek API call failed: ", text.as_str()),
            )
        },
    }
}

/// A database error: its SQLSTATE, where it has one, and how it reads.
#[derive(Debug)]
pub struct DbError {
    pub sqlstate: Option<String>,
    pub text: String,
}

impl DbError {
    /// The error carries this SQLSTATE.
    pub open spec fn has_code(self, code: Seq<char>) -> bool {
        self.sqlstate matches Some(c) && c@ == code
    }

    pub(crate) fn code_is(&self, code: &str) -> (r: bool)
        ensures
            r == self.has_code(code@),
    {
        match &self.sqlstate {
            Some(c) => crate::text::same_text(c.as_str(), code),
            None => false,
        }
    }
}

/// The status that a database error maps to.
pub open spec fn db_error_status(err: DbError) -> u16 {
    if err.has_code("23505"@) {
        CONFLICT
    } else if err.has_code("23503"@) {
        BAD_REQUEST
    } else {
        INTERNAL_SERVER_ERROR
    }
}

/// The message that a database error maps to.
pub open spec fn db_error_message(err: DbError) -> Seq<char> {
    if err.has_code("23505"@) {
        "resource already exists (unique constraint violation)"@
    } else if err.has_code("23503"@) {
        "referenced resource does not exist (foreign key violation)"@
    } else {
        "database error: "@ + err.text@
    }
}

/// Classifies a database error: a unique violation is a conflict, a foreign
/// key violation a bad request, everything else the server's own failure.
pub fn classify_db_error(err: &DbError) -> (r: (u16, String))
    ensures
        r.0 == db_error_status(*err),
        r.1@ == db_error_message(*err),
{
    if err.code_is("23505") {
        (CONFLICT, "resource already exists (unique constraint violation)".to_owned())
    } else if err.code_is("23503") {
        (BAD_REQUEST, "referenced resource does not exist (foreign key violation)".to_owned())
    } else {
        (INTERNAL_SERVER_ERROR, cat2("database error: ", err.text.as_str()))
    }
}

/// One row of the interaction log, which keeps the cost of every model call.
#[derive(Debug)]
pub struct AiInteraction {
    pub user_id: RecordId,
    pub interaction_type: &'static str,
    pub input_text: String,
    pub output_text: String,
    pub tokens_used: i32,
}

/// A token count in the signed column of the log.
pub open spec fn tokens_column(tokens: u32) -> int {
    if tokens <= i32::MAX {
        tokens as int
    } else {
        tokens - 0x1_0000_0000
    }
}

impl AiInteraction {
    pub open spec fn records(
        self,
        user_id: RecordId,
        interaction_type: Seq<char>,
        input: Seq<char>,
        output: Seq<char>,
        tokens: u32,
    ) -> bool {
        &&& self.user_id == user_id
        &&& self.interaction_type@ == interaction_type
        &&& self.input_text@ == input
        &&& self.output_text@ == output
        &&& self.tokens_used == tokens_column(tokens)
    }
}

/// The log row for one model call.
pub fn log_ai_interaction(
    user_id: RecordId,
    interaction_type: &'static str,
    input_text: &str,
    output_text: &str,
    tokens_used: u32,
) -> (r: AiInteraction)
    ensures
        r.records(user_id, interaction_type@, input_text@, output_text@, tokens_used),
{
    let tokens_used = if tokens_used <= 0x7fff_ffff {
        tokens_used as i32
    } else {
        (tokens_used as i64 - 0x1_0000_0000) as i32
    };
    AiInteraction {
        user_id,
        interaction_type,
        input_text: input_text.to_owned(),
        output_text: output_text.to_owned(),
        tokens_used,
    }
}

/// The end of an endpoint that called the model: the call is logged, whatever
/// came of it, and then the reply is sent.
#[derive(Debug)]
pub struct Finished<T> {
    pub log: AiInteraction,
    pub reply: Reply<T>,
}

impl<T> Finished<T> {
    /// The reply to send once writing the log row was tried. A row that could
    /// not be written loses telemetry, not the reply.
    pub fn sent(self, _written: Result<(), String>) -> (r: Reply<T>)
        ensures
            r == self.reply,
    {
        self.reply
    }
}

/// The message for a study set that does not exist.
pub open spec fn set_not_found(set_id: RecordId) -> Seq<char> {
    "study set "@ + ids::hyphenated(set_id) + " not found"@
}

/// A study set must exist; `r` is its owner or the reply that ends the
/// request.
pub open spec fn owner_of<T>(
    set_id: RecordId,
    lookup: Result<Option<RecordId>, String>,
    r: Result<RecordId, Reply<T>>,
) -> bool {
    match lookup {
        Ok(Some(owner)) => r == Ok::<RecordId, Reply<T>>(owner),
        Ok(None) => r matches Err(e) && e.is_error(NOT_FOUND, set_not_found(set_id)),
        Err(text) => r matches Err(e) && e.is_error(
            INTERNAL_SERVER_ERROR,
            "database error looking up study set: "@ + text@,
        ),
    }
}

/// The owner of a study set, given what looking it up brought.
pub(crate) fn resolve_owner<T>(
    set_id: RecordId,
    lookup: Result<Option<RecordId>, String>,
) -> (r: Result<RecordId, Reply<T>>)
    ensures
        owner_of(set_id, lookup, r),
{
    match lookup {
        Ok(Some(owner)) => Ok(owner),
        Ok(None) => Err(
            error_reply(
                NOT_FOUND,
                cat3("study set ", id_text(set_id).as_str(), " not found").as_str(),
            ),
        ),
        Err(text) => Err(
            error_reply(
                INTERNAL_SERVER_ERROR,
                cat2("database error looking up study set: ", text.as_str()).as_str(),
            ),
        ),
    }
}

/// A truncated call never reads like a call without an answer, neither in the
/// log nor in the reply.
pub proof fn law_truncation_is_told_apart(truncated: LLMError, other: LLMError)
    requires
        truncated is Truncated,
        !(other is Truncated),
    ensures
        failure_placeholder(truncated) != failure_placeholder(other),
        failure_message(truncated) != failure_message(other),
{
    reveal_strlit("[truncated by the token budget (finish_reason: ");
    reveal_strlit("[no response received from DeepSeek — call failed: ");
    reveal_strlit("DeepSeek stopped mid-answer at its token limit (");
    reveal_strlit("DeepSeek API call failed: ");
    assert(failure_placeholder(truncated)[1] == 't');
    assert(failure_placeholder(other)[1] == 'n');
    assert(failure_message(truncated)[9] == 's');
    assert(failure_message(other)[9] == 'A');
}

/// Whatever went wrong, there is something to record and something to tell.
pub proof fn law_every_failure_has_words(err: LLMError)
    ensures
        failure_placeholder(err).len() > 0,
        failure_message(err).len() > 0,
{
    reveal_strlit("[truncated by the token budget (finish_reason: ");
    reveal_strlit("[no response received from DeepSeek — call failed: ");
    reveal_strlit("DeepSeek stopped mid-answer at its token limit (");
    reveal_strlit("DeepSeek API call failed: ");
}

/// The reply is the same whether or not the log row could be written.
pub proof fn law_a_failed_log_changes_no_reply<T>(
    finished: Finished<T>,
    written: Result<(), String>,
    other: Result<(), String>,
    r: Reply<T>,
    s: Reply<T>,
)
    requires
        call_ensures(Finished::<T>::sent, (finished, written), r),
        call_ensures(Finished::<T>::sent, (finished, other), s),
    ensures
        r == s,
{
}

/// A token count below the column's limit is logged as it is, and no two
/// counts are logged alike.
pub proof fn law_token_counts_are_kept(a: u32, b: u32)
    ensures
        a <= i32::MAX ==> tokens_column(a) == a,
        tokens_column(a) == tokens_column(b) ==> a == b,
        i32::MIN <= tokens_column(a) <= i32::MAX,
{
}

} // verus!
