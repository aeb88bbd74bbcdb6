//! The DeepSeek chat-completions wire format.

use vstd::prelude::*;

use crate::http;
use crate::llm_provider::LLMMessage;
use crate::text;
use crate::text::{cat2, cat4, decimal_text, quote_body, snippet_text};

verus! {

/// The model used where a caller names none.
pub const DEFAULT_MODEL: &'static str = "deepseek-v4-flash";

/// Where the API lives, without a trailing slash.
pub const BASE_URL: &'static str = "https://api.deepseek.com";

/// A chat message in the wire format.
#[derive(Debug, Clone)]
pub struct DeepSeekMessage {
    pub role: &'static str,
    pub content: String,
}

impl DeepSeekMessage {
    pub open spec fn says(self, role: Seq<char>, content: Seq<char>) -> bool {
        self.role@ == role && self.content@ == content
    }

    pub fn system(content: &str) -> (r: Self)
        ensures
            r.says("system"@, content@),
    {
        DeepSeekMessage { role: "system", content: content.to_owned() }
    }

    pub fn user(content: &str) -> (r: Self)
        ensures
            r.says("user"@, content@),
    {
        DeepSeekMessage { role: "user", content: content.to_owned() }
    }

    pub fn assistant(content: &str) -> (r: Self)
        ensures
            r.says("assistant"@, content@),
    {
        DeepSeekMessage { role: "assistant", content: content.to_owned() }
    }
}

/// Messages in the wire format, one for one.
pub fn wire_messages(messages: &[LLMMessage]) -> (r: Vec<DeepSeekMessage>)
    ensures
        r@.len() == messages@.len(),
        forall|i: int|
            0 <= i < r@.len() ==> (#[trigger] r@[i]).says(messages@[i].role@, messages@[i].content@),
{
    let mut out: Vec<DeepSeekMessage> = Vec::new();
    let mut i: usize = 0;
    while i < messages.len()
        invariant
            i <= messages@.len(),
            out@.len() == i,
            forall|j: int|
                0 <= j < i ==> (#[trigger] out@[j]).says(
                    messages@[j].role@,
                    messages@[j].content@,
                ),
        decreases messages@.len() - i,
    {
        let m = &messages[i];
        out.push(DeepSeekMessage { role: m.role, content: m.content.clone() });
        i = i + 1;
    }
    out
}

/// The body of a chat-completions request.
#[derive(Debug)]
pub struct ChatCompletionsRequest<'a> {
    pub model: &'a str,
    pub messages: &'a Vec<DeepSeekMessage>,
    pub stream: bool,
}

/// The part of a response that matters here.
#[derive(Debug)]
pub struct DeepSeekResponse {
    pub choices: Vec<DeepSeekChoice>,
    pub usage: DeepSeekUsage,
}

#[derive(Debug)]
pub struct DeepSeekChoice {
    pub message: DeepSeekChoiceMessage,
}

#[derive(Debug)]
pub struct DeepSeekChoiceMessage {
    pub content: String,
}

/// Token counts; the total is what gets logged.
#[derive(Debug)]
pub struct DeepSeekUsage {
    pub total_tokens: u32,
    pub prompt_tokens: u32,
    pub completion_tokens: u32,
}

impl Default for DeepSeekUsage {
    fn default() -> (r: Self)
        ensures
            r.total_tokens == 0 && r.prompt_tokens == 0 && r.completion_tokens == 0,
    {
        DeepSeekUsage { total_tokens: 0, prompt_tokens: 0, completion_tokens: 0 }
    }
}

impl DeepSeekResponse {
    /// The text of the first choice; nothing where there is no choice.
    pub open spec fn content(self) -> Seq<char> {
        if self.choices@.len() > 0 {
            self.choices@[0].message.content@
        } else {
            Seq::empty()
        }
    }

    pub fn first_content(&self) -> (r: String)
        ensures
            r@ == self.content(),
    {
        if self.choices.len() > 0 {
            self.choices[0].message.content.clone()
        } else {
            String::new()
        }
    }
}

/// Why a DeepSeek call failed. No variant ever holds the API key.
#[derive(Debug)]
pub enum DeepSeekError {
    /// The request did not get through (network, TLS, DNS).
    Network(String),
    /// The upstream returned a status other than 200.
    Http { status: u16, body: String },
    /// The body did not match the expected schema.
    Parse(String),
}

impl DeepSeekError {
    /// How the error reads in a log or a reply. A long body is cut so that a
    /// verbose upstream does not flood either.
    pub open spec fn text(self) -> Seq<char> {
        match self {
            DeepSeekError::Network(m) => "network error: "@ + m@,
            DeepSeekError::Http { status, body } => "upstream HTTP "@ + text::decimal(status as nat)
                + ": "@ + text::snippet(body@),
            DeepSeekError::Parse(m) => "parse error: "@ + m@,
        }
    }

    pub fn describe(&self) -> (r: String)
        ensures
            r@ == self.text(),
    {
        match self {
            DeepSeekError::Network(m) => cat2("network error: ", m.as_str()),
            DeepSeekError::Http { status, body } => cat4(
                "upstream HTTP ",
                decimal_text(*status as u64).as_str(),
                ": ",
                snippet_text(body.as_str()).as_str(),
            ),
            DeepSeekError::Parse(m) => cat2("parse error: ", m.as_str()),
        }
    }
}

/// The credentials of the API.
pub struct DeepSeekClient {
    pub api_key: String,
}

/// The outcome of a completion whose body decoded to `decoded`.
pub open spec fn completion_of(
    decoded: Result<DeepSeekResponse, String>,
    body: Seq<char>,
    r: Result<DeepSeekResponse, DeepSeekError>,
) -> bool {
    match decoded {
        Ok(response) => r == Ok::<DeepSeekResponse, DeepSeekError>(response),
        Err(e) => r matches Err(DeepSeekError::Parse(m)) && m@ == text::with_snippet(e@, body),
    }
}

/// Two errors that hold the same and so read the same.
pub open spec fn same_error(a: DeepSeekError, b: DeepSeekError) -> bool {
    match (a, b) {
        (DeepSeekError::Network(m), DeepSeekError::Network(n)) => m@ == n@,
        (
            DeepSeekError::Http { status: s, body: m },
            DeepSeekError::Http { status: t, body: n },
        ) => s == t && m@ == n@,
        (DeepSeekError::Parse(m), DeepSeekError::Parse(n)) => m@ == n@,
        _ => false,
    }
}

impl DeepSeekClient {
    /// Takes the value of `DEEPSEEK_API_KEY`. A missing or empty key gives no
    /// client, so that its absence shows at startup.
    pub fn from_env(api_key: Option<String>) -> (r: Option<Self>)
        ensures
            match api_key {
                Some(key) if key@.len() > 0 => r == Some(DeepSeekClient { api_key: key }),
                _ => r is None,
            },
    {
        match api_key {
            Some(key) => if key.as_str().is_empty() {
                None
            } else {
                Some(DeepSeekClient { api_key: key })
            },
            None => None,
        }
    }

    /// Where completions are requested.
    pub fn completions_url(&self) -> (r: String)
        ensures
            r@ == BASE_URL@ + "/chat/completions"@,
    {
        cat2(BASE_URL, "/chat/completions")
    }

    /// The request for `messages`, to [`DEFAULT_MODEL`] unless `model` names
    /// another. The answer is never streamed.
    pub fn chat_request<'a>(
        &self,
        messages: &'a Vec<DeepSeekMessage>,
        model: Option<&'a str>,
    ) -> (r: ChatCompletionsRequest<'a>)
        ensures
            r.messages == messages,
            !r.stream,
            r.model@ == match model {
                Some(m) => m@,
                None => DEFAULT_MODEL@,
            },
    {
        let model = match model {
            Some(m) => m,
            None => DEFAULT_MODEL,
        };
        ChatCompletionsRequest { model, messages, stream: false }
    }

    /// What a reply with this status and body means. `decode` reads a
    /// response out of a body.
    pub fn read_completion<F: Fn(&str) -> Result<DeepSeekResponse, String>>(
        &self,
        status: u16,
        body: String,
        decode: F,
    ) -> (r: Result<DeepSeekResponse, DeepSeekError>)
        requires
            forall|s: &str| call_requires(decode, (s,)),
        ensures
            status != http::OK ==> r == Err::<DeepSeekResponse, DeepSeekError>(
                DeepSeekError::Http { status, body },
            ),
            status == http::OK ==> exists|decoded: Result<DeepSeekResponse, String>| #[trigger]
                text::decodes(decode, body@, decoded) && completion_of(decoded, body@, r),
    {
        if status != http::OK {
            return Err(DeepSeekError::Http { status, body });
        }
        let decoded = decode(body.as_str());
        assert(text::decodes(decode, body@, decoded));
        completion(decoded, body.as_str())
    }

    /// `r` is what comes of a call of this client whose transport brought
    /// `transport` (the reason why nothing came, or a status and a body), where
    /// a body that is read decodes to `decoded`.
    pub open spec fn completes_with(
        self,
        transport: Result<(u16, String), String>,
        decoded: Result<DeepSeekResponse, String>,
        r: Result<DeepSeekResponse, DeepSeekError>,
    ) -> bool {
        match transport {
            Err(e) => r == Err::<DeepSeekResponse, DeepSeekError>(DeepSeekError::Network(e)),
            Ok((status, body)) => if status != http::OK {
                r == Err::<DeepSeekResponse, DeepSeekError>(DeepSeekError::Http { status, body })
            } else {
                completion_of(decoded, body@, r)
            },
        }
    }

    /// `r` is what comes of a call of this client whose transport brought
    /// `transport`, where `decode` reads the body.
    pub open spec fn completes<F: Fn(&str) -> Result<DeepSeekResponse, String>>(
        self,
        transport: Result<(u16, String), String>,
        decode: F,
        r: Result<DeepSeekResponse, DeepSeekError>,
    ) -> bool {
        match transport {
            Err(e) => r == Err::<DeepSeekResponse, DeepSeekError>(DeepSeekError::Network(e)),
            Ok((status, body)) => if status != http::OK {
                r == Err::<DeepSeekResponse, DeepSeekError>(DeepSeekError::Http { status, body })
            } else {
                exists|decoded: Result<DeepSeekResponse, String>| #[trigger]
                    text::decodes(decode, body@, decoded) && self.completes_with(
                        transport,
                        decoded,
                        r,
                    )
            },
        }
    }

    /// What comes of a call, given what its transport brought.
    pub fn chat_completion<F: Fn(&str) -> Result<DeepSeekResponse, String>>(
        &self,
        transport: Result<(u16, String), String>,
        decode: F,
    ) -> (r: Result<DeepSeekResponse, DeepSeekError>)
        requires
            forall|s: &str| call_requires(decode, (s,)),
        ensures
            self.completes(transport, decode, r),
    {
        match transport {
            Err(e) => Err(DeepSeekError::Network(e)),
            Ok((status, body)) => self.read_completion(status, body, decode),
        }
    }
}

/// The outcome of a completion, given what its body decoded to.
pub fn completion(decoded: Result<DeepSeekResponse, String>, body: &str) -> (r: Result<
    DeepSeekResponse,
    DeepSeekError,
>)
    ensures
        completion_of(decoded, body@, r),
{
    match decoded {
        Ok(response) => Ok(response),
        Err(e) => Err(DeepSeekError::Parse(quote_body(e.as_str(), body))),
    }
}

/// No error depends on the API key: two clients, whatever their keys, that
/// get the same from the transport and read the same in the body report the
/// same.
pub proof fn law_errors_keep_the_key_out(
    a: DeepSeekClient,
    b: DeepSeekClient,
    transport: Result<(u16, String), String>,
    decoded: Result<DeepSeekResponse, String>,
    ra: Result<DeepSeekResponse, DeepSeekError>,
    rb: Result<DeepSeekResponse, DeepSeekError>,
)
    requires
        a.completes_with(transport, decoded, ra),
        b.completes_with(transport, decoded, rb),
    ensures
        ra is Err <==> rb is Err,
        ra matches Err(x) ==> (rb matches Err(y) && same_error(x, y) && x.text() == y.text()),
        ra is Ok ==> ra == rb,
{
}

/// The API key decides nothing: with whatever decoder, what can come of a call
/// is the same for every client.
pub proof fn law_the_key_decides_nothing<F: Fn(&str) -> Result<DeepSeekResponse, String>>(
    a: DeepSeekClient,
    b: DeepSeekClient,
    transport: Result<(u16, String), String>,
    decode: F,
    r: Result<DeepSeekResponse, DeepSeekError>,
)
    ensures
        a.completes(transport, decode, r) <==> b.completes(transport, decode, r),
{
    assert forall|d: Result<DeepSeekResponse, String>| #[trigger]
        a.completes_with(transport, d, r) == b.completes_with(transport, d, r) by {}
}

} // verus!
