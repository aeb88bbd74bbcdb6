//! Laws of the model providers, of what is told of their failures and of what
//! the endpoints share.

use vstd::prelude::*;

use crate::deepseek::{
    completion, wire_messages, ChatCompletionsRequest, DeepSeekClient, DeepSeekError,
    DeepSeekMessage, DeepSeekResponse, DeepSeekUsage,
};
use crate::handlers::{
    classify_db_error, describe_llm_failure, error_response, log_ai_interaction, AiInteraction,
    DbError, Finished,
};
use crate::health::{health, DbHealth};
use crate::http::{success, ErrorReply, Reply};
use crate::laws;
use crate::llm_provider::{
    accept_completion, first_finish_reason, provider_answer, LLMError, LLMMessage, LLMResponse,
};
use crate::text;

verus! {

/// A message carries the role it is made for and the text it is given.
pub proof fn law_a_message_keeps_its_text(
    content: &str,
    system: DeepSeekMessage,
    user: DeepSeekMessage,
    assistant: DeepSeekMessage,
)
    requires
        call_ensures(DeepSeekMessage::system, (content,), system),
        call_ensures(DeepSeekMessage::user, (content,), user),
        call_ensures(DeepSeekMessage::assistant, (content,), assistant),
    ensures
        laws::wire(system, "system"@, content@),
        laws::wire(user, "user"@, content@),
        laws::wire(assistant, "assistant"@, content@),
{
}

/// The same holds of the provider-neutral messages.
pub proof fn law_a_neutral_message_keeps_its_text(
    content: &str,
    system: LLMMessage,
    user: LLMMessage,
    assistant: LLMMessage,
)
    requires
        call_ensures(LLMMessage::system, (content,), system),
        call_ensures(LLMMessage::user, (content,), user),
        call_ensures(LLMMessage::assistant, (content,), assistant),
    ensures
        laws::neutral(system, "system"@, content@),
        laws::neutral(user, "user"@, content@),
        laws::neutral(assistant, "assistant"@, content@),
{
}

/// Turning messages into the wire format drops none, adds none and changes
/// neither the order nor a role nor a text.
pub proof fn law_the_wire_carries_every_message(messages: &[LLMMessage], r: Vec<DeepSeekMessage>)
    requires
        call_ensures(wire_messages, (messages,), r),
    ensures
        r@.len() == messages@.len(),
        forall|i: int|
            0 <= i < messages@.len() ==> (#[trigger] r@[i]).role@ == messages@[i].role@
                && r@[i].content@ == messages@[i].content@,
{
}

/// Of an answer with choices the first is read; one without any reads as
/// nothing.
pub proof fn law_the_first_choice_is_read(response: &DeepSeekResponse, r: String)
    requires
        call_ensures(DeepSeekResponse::first_content, (response,), r),
    ensures
        response.choices@.len() > 0 ==> r@ == response.choices@[0].message.content@,
        response.choices@.len() == 0 ==> r@.len() == 0,
{
}

/// Usage that was not reported counts as none.
pub proof fn law_missing_usage_is_zero(r: DeepSeekUsage)
    requires
        call_ensures(DeepSeekUsage::default, (), r),
    ensures
        r.total_tokens == 0 && r.prompt_tokens == 0 && r.completion_tokens == 0,
{
}

/// A failure is told with what went wrong: the transport's or the decoder's
/// words, or the status and the start of the body.
pub proof fn law_a_failure_tells_what_went_wrong(err: &DeepSeekError, r: String)
    requires
        call_ensures(DeepSeekError::describe, (err,), r),
    ensures
        match *err {
            DeepSeekError::Network(m) => r@ == "network error: "@ + m@,
            DeepSeekError::Http { status, body } => r@ == "upstream HTTP "@ + text::decimal(
                status as nat,
            ) + ": "@ + laws::start_of(body@),
            DeepSeekError::Parse(m) => r@ == "parse error: "@ + m@,
        },
{
    if let DeepSeekError::Http { status, body } = *err {
        assert(text::snippet(body@) =~= laws::start_of(body@));
    }
}

/// The same holds of the provider-neutral failures.
pub proof fn law_a_neutral_failure_tells_what_went_wrong(err: &LLMError, r: String)
    requires
        call_ensures(LLMError::describe, (err,), r),
    ensures
        match *err {
            LLMError::Network(m) => r@ == "network error: "@ + m@,
            LLMError::Http { status, body } => r@ == "upstream HTTP "@ + text::decimal(
                status as nat,
            ) + ": "@ + laws::start_of(body@),
            LLMError::Parse(m) => r@ == "parse error: "@ + m@,
            LLMError::Truncated { finish_reason } => text::contains(r@, finish_reason@),
        },
{
    match *err {
        LLMError::Http { status, body } => {
            assert(text::snippet(body@) =~= laws::start_of(body@));
        },
        LLMError::Truncated { finish_reason } => {
            assert("truncated (finish_reason: "@ + finish_reason@ + ")"@ == r@);
        },
        _ => {},
    }
}

/// There is a client exactly where there is a key, and it holds that key.
pub proof fn law_a_client_needs_its_key(api_key: Option<String>, r: Option<DeepSeekClient>)
    requires
        call_ensures(DeepSeekClient::from_env, (api_key,), r),
    ensures
        r is Some <==> (api_key matches Some(key) && key@.len() > 0),
        r matches Some(client) ==> (api_key matches Some(key) && client.api_key@ == key@),
{
}

/// A request goes to the chat-completions route, carries exactly the messages
/// it is given, asks the named model or else the default one, and is never
/// streamed.
pub proof fn law_a_request_asks_what_it_is_given<'a>(
    client: &DeepSeekClient,
    messages: &'a Vec<DeepSeekMessage>,
    model: Option<&'a str>,
    url: String,
    r: ChatCompletionsRequest<'a>,
)
    requires
        call_ensures(DeepSeekClient::completions_url, (client,), url),
        call_ensures(DeepSeekClient::chat_request, (client, messages, model), r),
    ensures
        url@ == "https://api.deepseek.com"@ + "/chat/completions"@,
        r.messages@ == messages@,
        model matches Some(m) ==> r.model@ == m@,
        model is None ==> r.model@ == "deepseek-v4-flash"@,
        !r.stream,
{
}

/// What a decoded body means: a response is handed on as it is, and a decoding
/// error is told with the start of the body.
pub open spec fn told(
    decoded: Result<DeepSeekResponse, String>,
    body: Seq<char>,
    r: Result<DeepSeekResponse, DeepSeekError>,
) -> bool {
    match decoded {
        Ok(response) => r matches Ok(given) && given == response,
        Err(e) => r matches Err(DeepSeekError::Parse(m)) && m@ == e@ + "; body snippet: "@
            + laws::start_of(body),
    }
}

/// A response is handed on as it is; an unreadable body is a parse error.
pub proof fn law_a_response_is_handed_on(
    decoded: Result<DeepSeekResponse, String>,
    body: &str,
    r: Result<DeepSeekResponse, DeepSeekError>,
)
    requires
        call_ensures(completion, (decoded, body), r),
    ensures
        told(decoded, body@, r),
{
    assert(text::snippet(body@) =~= laws::start_of(body@));
}

/// A reply is read only where its status is 200; any other status is an error
/// that keeps the status and the body.
pub proof fn law_only_200_is_read<F: Fn(&str) -> Result<DeepSeekResponse, String>>(
    client: &DeepSeekClient,
    status: u16,
    body: String,
    decode: F,
    decoded: Result<DeepSeekResponse, String>,
    r: Result<DeepSeekResponse, DeepSeekError>,
)
    requires
        call_ensures(DeepSeekClient::read_completion::<F>, (client, status, body, decode), r),
        laws::always(decode, body@, decoded),
    ensures
        status != 200 ==> (r matches Err(DeepSeekError::Http { status: s, body: b }) && s == status
            && b@ == body@),
        status == 200 ==> told(decoded, body@, r),
{
    assert(text::snippet(body@) =~= laws::start_of(body@));
}

/// A call that brought nothing is a network error with the transport's words,
/// and nothing else is one; what was brought is read by its status.
pub proof fn law_a_call_fares_as_its_transport<
    F: Fn(&str) -> Result<DeepSeekResponse, String>,
>(
    client: &DeepSeekClient,
    transport: Result<(u16, String), String>,
    decode: F,
    decoded: Result<DeepSeekResponse, String>,
    r: Result<DeepSeekResponse, DeepSeekError>,
)
    requires
        call_ensures(DeepSeekClient::chat_completion::<F>, (client, transport, decode), r),
        transport matches Ok(answer) ==> laws::always(decode, answer.1@, decoded),
    ensures
        (r matches Err(DeepSeekError::Network(_))) <==> transport is Err,
        transport matches Err(e) ==> (r matches Err(DeepSeekError::Network(m)) && m@ == e@),
        transport matches Ok(answer) ==> {
            &&& answer.0 != 200 ==> (r matches Err(DeepSeekError::Http { status, body }) && status
                == answer.0 && body@ == answer.1@)
            &&& answer.0 == 200 ==> told(decoded, answer.1@, r)
        },
{
    if let Ok(answer) = transport {
        assert(text::snippet(answer.1@) =~= laws::start_of(answer.1@));
    }
}

/// Why the model stopped is what its first choice says.
pub proof fn law_the_first_choice_says_why(reasons: Vec<Option<String>>, r: Option<String>)
    requires
        call_ensures(first_finish_reason, (reasons,), r),
    ensures
        reasons@.len() == 0 ==> r is None,
        reasons@.len() > 0 ==> laws::same_option(r, reasons@[0]),
{
}

/// An answer is refused exactly where the model stopped at its token limit;
/// any other is handed on with its text and its cost.
pub proof fn law_only_half_an_answer_is_refused(
    content: String,
    total_tokens: u32,
    finish_reason: Option<String>,
    r: Result<LLMResponse, LLMError>,
)
    requires
        call_ensures(accept_completion, (content, total_tokens, finish_reason), r),
    ensures
        r is Err <==> (finish_reason matches Some(why) && why@ == "length"@),
        r matches Ok(answer) ==> answer.content@ == content@ && answer.total_tokens
            == total_tokens,
        r matches Err(e) ==> (e matches LLMError::Truncated { finish_reason: why } && why@
            == "length"@),
{
}

/// A failure of the model stays the failure it is; an answer is that of the
/// first choice, unless it was cut off.
pub proof fn law_a_provider_answers_for_the_model(
    outcome: Result<DeepSeekResponse, DeepSeekError>,
    finish_reason: Option<String>,
    r: Result<LLMResponse, LLMError>,
)
    requires
        call_ensures(provider_answer, (outcome, finish_reason), r),
    ensures
        match outcome {
            Err(DeepSeekError::Network(m)) => r matches Err(LLMError::Network(n)) && n@ == m@,
            Err(DeepSeekError::Http { status, body }) => r matches Err(
                LLMError::Http { status: s, body: b },
            ) && s == status && b@ == body@,
            Err(DeepSeekError::Parse(m)) => r matches Err(LLMError::Parse(n)) && n@ == m@,
            Ok(response) => if finish_reason matches Some(why) && why@ == "length"@ {
                r matches Err(LLMError::Truncated { finish_reason: why }) && why@ == "length"@
            } else {
                r matches Ok(answer) && answer.total_tokens == response.usage.total_tokens && (
                response.choices@.len() > 0 ==> answer.content@
                    == response.choices@[0].message.content@) && (response.choices@.len() == 0
                    ==> answer.content@.len() == 0)
            },
        },
{
}

/// The server says it is alive. The database is up exactly where the users
/// could be counted, and then their number is reported; else the reason is.
pub proof fn law_health_reports_what_was_found(
    alive: &'static str,
    count: Result<i64, String>,
    r: DbHealth,
    code: u16,
    status: &'static str,
)
    requires
        call_ensures(health, (), alive),
        call_ensures(DbHealth::of, (count,), r),
        call_ensures(DbHealth::status_code, (&r,), code),
        call_ensures(DbHealth::status, (&r,), status),
    ensures
        alive@ == "ok"@,
        count matches Ok(n) ==> (r matches DbHealth::Up { user_count } && user_count == n) && code
            == 200 && status@ == "ok"@,
        count matches Err(e) ==> (r matches DbHealth::Down { message } && message@ == e@) && code
            == 500 && status@ == "error"@,
{
}

/// A success is a status from 200 to 299.
pub proof fn law_a_success_is_a_status_of_the_200s(status: u16, r: bool)
    requires
        call_ensures(success, (status,), r),
    ensures
        r <==> status / 100 == 2,
{
}

/// An error reply keeps its status and its message.
pub proof fn law_an_error_keeps_its_words(status: u16, message: &str, r: ErrorReply)
    requires
        call_ensures(error_response, (status, message), r),
    ensures
        r.status == status,
        r.message@ == message@,
{
}

/// What is recorded and what is told of a failure. A truncated call is told by
/// its reason and never as a call without a response; any other failure is
/// quoted as it reads.
pub proof fn law_a_failure_is_recorded_and_told(err: &LLMError, reads: String, r: (String, String))
    requires
        call_ensures(describe_llm_failure, (err,), r),
        call_ensures(LLMError::describe, (err,), reads),
    ensures
        *err matches LLMError::Truncated { finish_reason } ==> {
            &&& r.0@ == "[truncated by the token budget (finish_reason: "@ + finish_reason@
                + ") — no usable content returned]"@
            &&& r.1@ == "DeepSeek stopped mid-answer at its token limit ("@ + finish_reason@
                + "); nothing was parsed. Retrying, or requesting fewer items, may succeed."@
        },
        !(*err is Truncated) ==> {
            &&& r.0@ == "[no response received from DeepSeek — call failed: "@ + reads@ + "]"@
            &&& r.1@ == "DeepSeek API call failed: "@ + reads@
        },
{
}

/// A unique violation is a conflict and a foreign key violation a bad request,
/// and nothing else is either; any other error is told as it reads.
pub proof fn law_a_database_error_has_its_status(err: &DbError, r: (u16, String))
    requires
        call_ensures(classify_db_error, (err,), r),
    ensures
        r.0 == 409 <==> (err.sqlstate matches Some(code) && code@ == "23505"@),
        r.0 == 400 <==> (err.sqlstate matches Some(code) && code@ == "23503"@),
        r.0 == 409 || r.0 == 400 || r.0 == 500,
        r.0 == 409 ==> r.1@ == "resource already exists (unique constraint violation)"@,
        r.0 == 400 ==> r.1@ == "referenced resource does not exist (foreign key violation)"@,
        r.0 == 500 ==> r.1@ == "database error: "@ + err.text@,
{
    reveal_strlit("23505");
    reveal_strlit("23503");
    assert("23505"@[4] == '5' && "23503"@[4] == '3');
}

/// A log row keeps the call it is about.
pub proof fn law_a_log_row_keeps_its_call(
    user_id: u128,
    kind: &'static str,
    input: &str,
    output: &str,
    tokens: u32,
    r: AiInteraction,
)
    requires
        call_ensures(log_ai_interaction, (user_id, kind, input, output, tokens), r),
    ensures
        laws::logs(r, user_id, kind@, input@, output@, tokens),
        tokens <= i32::MAX ==> r.tokens_used == tokens,
{
}

/// What was decided is what is sent.
pub proof fn law_the_reply_is_sent_as_decided<T>(
    finished: Finished<T>,
    written: Result<(), String>,
    r: Reply<T>,
)
    requires
        call_ensures(Finished::<T>::sent, (finished, written), r),
    ensures
        r == finished.reply,
{
}

} // verus!
