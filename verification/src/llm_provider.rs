//! The provider-neutral side of a chat completion.

use vstd::prelude::*;

use crate::deepseek::{DeepSeekError, DeepSeekResponse};
use crate::text;
use crate::text::{cat2, cat3, cat4, decimal_text, same_text, snippet_text};

verus! {

/// A chat message, whoever the provider is.
#[derive(Debug)]
pub struct LLMMessage {
    pub role: &'static str,
    pub content: String,
}

impl LLMMessage {
    pub open spec fn says(self, role: Seq<char>, content: Seq<char>) -> bool {
        self.role@ == role && self.content@ == content
    }

    pub fn system(content: &str) -> (r: Self)
        ensures
            r.says("system"@, content@),
    {
        LLMMessage { role: "system", content: content.to_owned() }
    }

    pub fn user(content: &str) -> (r: Self)
        ensures
            r.says("user"@, content@),
    {
        LLMMessage { role: "user", content: content.to_owned() }
    }

    pub fn assistant(content: &str) -> (r: Self)
        ensures
            r.says("assistant"@, content@),
    {
        LLMMessage { role: "assistant", content: content.to_owned() }
    }
}

/// What a provider hands back: the model's text and what it cost.
#[derive(Debug)]
pub struct LLMResponse {
    pub content: String,
    pub total_tokens: u32,
}

/// Why a provider call gave no usable answer.
#[derive(Debug)]
pub enum LLMError {
    /// The request did not get through.
    Network(String),
    /// The provider answered with a status other than 200.
    Http { status: u16, body: String },
    /// The answer did not have the expected shape.
    Parse(String),
    /// The model ran out of its token budget partway through the answer.
    Truncated { finish_reason: String },
}

impl LLMError {
    /// How the error reads in a log or a reply.
    pub open spec fn text(self) -> Seq<char> {
        match self {
            LLMError::Network(m) => "network error: "@ + m@,
            LLMError::Http { status, body } => "upstream HTTP "@ + text::decimal(
                status as nat,
            ) + ": "@ + text::snippet(body@),
            LLMError::Parse(m) => "parse error: "@ + m@,
            LLMError::Truncated { finish_reason } => "truncated (finish_reason: "@
                + finish_reason@ + ")"@,
        }
    }

    pub fn describe(&self) -> (r: String)
        ensures
            r@ == self.text(),
    {
        match self {
            LLMError::Network(m) => cat2("network error: ", m.as_str()),
            LLMError::Http { status, body } => cat4(
                "upstream HTTP ",
                decimal_text(*status as u64).as_str(),
                ": ",
                snippet_text(body.as_str()).as_str(),
            ),
            LLMError::Parse(m) => cat2("parse error: ", m.as_str()),
            LLMError::Truncated { finish_reason } => cat3(
                "truncated (finish_reason: ",
                finish_reason.as_str(),
                ")",
            ),
        }
    }
}

/// What a provider is asked: the messages, and the model, where it is not the
/// provider's own choice.
#[derive(Debug)]
pub struct LLMRequest<'a> {
    pub messages: &'a Vec<LLMMessage>,
    pub model: Option<&'a str>,
}

/// Why the model stopped, given the reason of each choice: that of the first,
/// which is the one that is read.
pub fn first_finish_reason(reasons: Vec<Option<String>>) -> (r: Option<String>)
    ensures
        r == if reasons@.len() > 0 {
            reasons@[0]
        } else {
            None::<String>
        },
{
    if reasons.len() > 0 {
        match &reasons[0] {
            Some(reason) => Some(reason.clone()),
            None => None,
        }
    } else {
        None
    }
}

/// Takes a completion, unless the model stopped at its token limit: half an
/// answer is rejected rather than handed on.
pub fn accept_completion(
    content: String,
    total_tokens: u32,
    finish_reason: Option<String>,
) -> (r: Result<LLMResponse, LLMError>)
    ensures
        match finish_reason {
            Some(reason) if reason@ == "length"@ => r
                == Err::<LLMResponse, LLMError>(LLMError::Truncated { finish_reason: reason }),
            _ => r == Ok::<LLMResponse, LLMError>(LLMResponse { content, total_tokens }),
        },
{
    match finish_reason {
        Some(reason) => if same_text(reason.as_str(), "length") {
            Err(LLMError::Truncated { finish_reason: reason })
        } else {
            Ok(LLMResponse { content, total_tokens })
        },
        None => Ok(LLMResponse { content, total_tokens }),
    }
}

/// A DeepSeek failure in the provider-neutral form.
pub open spec fn neutral(err: DeepSeekError) -> LLMError {
    match err {
        DeepSeekError::Network(m) => LLMError::Network(m),
        DeepSeekError::Http { status, body } => LLMError::Http { status, body },
        DeepSeekError::Parse(m) => LLMError::Parse(m),
    }
}

/// What a DeepSeek call means to a caller that knows no provider: its failure,
/// or the text of its first choice, unless that text was cut off.
pub fn provider_answer(
    outcome: Result<DeepSeekResponse, DeepSeekError>,
    finish_reason: Option<String>,
) -> (r: Result<LLMResponse, LLMError>)
    ensures
        match outcome {
            Err(err) => r == Err::<LLMResponse, LLMError>(neutral(err)),
            Ok(response) => match finish_reason {
                Some(reason) if reason@ == "length"@ => r == Err::<LLMResponse, LLMError>(
                    LLMError::Truncated { finish_reason: reason },
                ),
                _ => r matches Ok(answer) && answer.content@ == response.content()
                    && answer.total_tokens == response.usage.total_tokens,
            },
        },
{
    match outcome {
        Err(DeepSeekError::Network(m)) => Err(LLMError::Network(m)),
        Err(DeepSeekError::Http { status, body }) => Err(LLMError::Http { status, body }),
        Err(DeepSeekError::Parse(m)) => Err(LLMError::Parse(m)),
        Ok(response) => accept_completion(
            response.first_content(),
            response.usage.total_tokens,
            finish_reason,
        ),
    }
}

/// A failure reads the same, whichever form it has.
pub proof fn law_failures_read_alike(err: DeepSeekError)
    ensures
        neutral(err).text() == err.text(),
{
}

} // verus!
