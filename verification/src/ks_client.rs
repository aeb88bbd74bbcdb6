//! The Knowledge Store, a separate service reached over localhost HTTP.
//!
//! Three routes are used: `GET /health`, `POST /transcripts` and `GET /nodes`.
//!
//! A transcript that was sent can fare in three ways, which must not be
//! confused: the service did not answer ([`KsError::Unreachable`]), it answered
//! but its database is down ([`SaveTranscriptOutcome::KsDbUnavailable`], a
//! success status with `ok: false`), or the transcript is stored
//! ([`SaveTranscriptOutcome::Saved`]).

use vstd::prelude::*;

use crate::http;
use crate::ids;
use crate::ids::{id_text, RecordId};
use crate::text;
use crate::text::{cat2, cat3, cat4, decimal_text, quote_body, same_text, snippet_text};

verus! {

/// The port used where none is configured.
pub const DEFAULT_PORT: &'static str = "8080";

/// Role label for the tutor's turns.
pub const ROLE_COACH: &'static str = "coach";

/// Role label for the student's turns.
pub const ROLE_LEARNER: &'static str = "learner";

/// One conversational turn as the Knowledge Store expects it.
#[derive(Debug, Clone, PartialEq, Eq)]
pub struct TranscriptTurn {
    pub role: String,
    pub content: String,
}

impl TranscriptTurn {
    pub open spec fn says(self, role: Seq<char>, content: Seq<char>) -> bool {
        self.role@ == role && self.content@ == content
    }

    pub fn coach(content: &str) -> (r: Self)
        ensures
            r.says(ROLE_COACH@, content@),
    {
        TranscriptTurn { role: ROLE_COACH.to_owned(), content: content.to_owned() }
    }

    pub fn learner(content: &str) -> (r: Self)
        ensures
            r.says(ROLE_LEARNER@, content@),
    {
        TranscriptTurn { role: ROLE_LEARNER.to_owned(), content: content.to_owned() }
    }

    /// Translates a stored role into the label pair of the Knowledge Store. A
    /// role outside `assistant` and `user` has no turn.
    pub fn from_socratic_role(role: &str, content: &str) -> (r: Option<Self>)
        ensures
            role@ == "assistant"@ ==> (r matches Some(turn) && turn.says(ROLE_COACH@, content@)),
            role@ == "user"@ ==> (r matches Some(turn) && turn.says(ROLE_LEARNER@, content@)),
            role@ != "assistant"@ && role@ != "user"@ ==> r is None,
    {
        proof {
            reveal_strlit("assistant");
            reveal_strlit("user");
            assert("assistant"@.len() != "user"@.len());
        }
        if same_text(role, "assistant") {
            Some(Self::coach(content))
        } else if same_text(role, "user") {
            Some(Self::learner(content))
        } else {
            None
        }
    }
}

/// The body of a `POST /transcripts` request.
#[derive(Debug)]
pub struct SaveTranscriptRequest<'a> {
    pub session_ref: &'a str,
    pub content: &'a Vec<TranscriptTurn>,
}

/// The body of a `POST /transcripts` response.
#[derive(Debug)]
pub struct SaveTranscriptBody {
    pub ok: bool,
    pub transcript_id: Option<String>,
    pub error: Option<String>,
}

/// The body of a `GET /health` response.
#[derive(Debug)]
pub struct HealthBody {
    pub status: String,
}

/// How a transcript that was delivered turned out.
#[derive(Debug, Clone, PartialEq, Eq)]
pub enum SaveTranscriptOutcome {
    /// The transcript is stored, now or under the same reference before.
    Saved { transcript_id: String },
    /// The service is alive but its database is not.
    KsDbUnavailable { error: String },
}

/// Why a call of the Knowledge Store failed.
#[derive(Debug, Clone, PartialEq, Eq)]
pub enum KsError {
    /// Timeout, connection refused: the service did not answer.
    Unreachable(String),
    /// A non-success status.
    Http { status: u16, body: String },
    /// The body did not match the documented schema.
    Parse(String),
}

impl KsError {
    /// How the error reads in a log or a reply.
    pub open spec fn text(self) -> Seq<char> {
        match self {
            KsError::Unreachable(m) => "knowledge store unreachable: "@ + m@,
            KsError::Http { status, body } => "knowledge store HTTP "@ + text::decimal(
                status as nat,
            ) + ": "@ + text::snippet(body@),
            KsError::Parse(m) => "knowledge store parse error: "@ + m@,
        }
    }

    pub fn describe(&self) -> (r: String)
        ensures
            r@ == self.text(),
    {
        match self {
            KsError::Unreachable(m) => cat2("knowledge store unreachable: ", m.as_str()),
            KsError::Http { status, body } => cat4(
                "knowledge store HTTP ",
                decimal_text(*status as u64).as_str(),
                ": ",
                snippet_text(body.as_str()).as_str(),
            ),
            KsError::Parse(m) => cat2("knowledge store parse error: ", m.as_str()),
        }
    }

    /// A schema error with this message.
    pub open spec fn is_parse(self, message: Seq<char>) -> bool {
        self matches KsError::Parse(m) && m@ == message
    }

    /// A refusal with this status and body.
    pub open spec fn is_http(self, code: u16, content: Seq<char>) -> bool {
        self matches KsError::Http { status, body } && status == code && body@ == content
    }
}

/// One concept node. Quiz and card generation read `title`, `subject` and
/// `summary`; `id` traces a question back to its node.
#[derive(Debug, Clone, PartialEq, Eq)]
pub struct KsNode {
    pub id: String,
    pub title: String,
    pub subject: String,
    pub summary: String,
}

/// The unreserved characters of a URL, which need no escape.
pub open spec fn is_unreserved(b: u8) -> bool {
    ||| 65 <= b <= 90
    ||| 97 <= b <= 122
    ||| 48 <= b <= 57
    ||| b == 45
    ||| b == 95
    ||| b == 46
    ||| b == 126
}

/// The upper-case hexadecimal digit for `d`.
pub open spec fn upper_hex(d: u8) -> char
    recommends
        d < 16,
{
    if d < 10 {
        (48 + d) as char
    } else {
        (55 + d) as char
    }
}

/// One byte in a query string: itself, or `%` and its two digits.
pub open spec fn encoded_byte(b: u8) -> Seq<char> {
    if is_unreserved(b) {
        seq![b as char]
    } else {
        seq!['%', upper_hex(b / 16), upper_hex(b % 16)]
    }
}

/// Bytes in a query string, one after the other.
pub open spec fn percent_encoded(bytes: Seq<u8>) -> Seq<char>
    decreases bytes.len(),
{
    if bytes.len() == 0 {
        Seq::empty()
    } else {
        encoded_byte(bytes[0]) + percent_encoded(bytes.drop_first())
    }
}

/// The value of an upper-case hexadecimal digit.
pub open spec fn hex_value(c: char) -> int {
    if '0' <= c && c <= '9' {
        c as int - 48
    } else {
        c as int - 55
    }
}

/// What a reader of a query string makes of it.
pub open spec fn percent_decoded(s: Seq<char>) -> Seq<u8>
    decreases s.len(),
{
    if s.len() == 0 {
        Seq::empty()
    } else if s[0] == '%' && s.len() >= 3 {
        seq![(16 * hex_value(s[1]) + hex_value(s[2])) as u8] + percent_decoded(s.skip(3))
    } else {
        seq![s[0] as u8] + percent_decoded(s.skip(1))
    }
}

fn upper_hex_digit(d: u8) -> (c: char)
    requires
        d < 16,
    ensures
        c == upper_hex(d),
{
    if d < 10 {
        (48 + d) as char
    } else {
        (55 + d) as char
    }
}

/// Percent-encodes one query-string value. Only the unreserved characters
/// survive untouched; every other byte of the UTF-8 form is escaped.
pub fn percent_encode_query_value(value: &str) -> (r: String)
    ensures
        r@ == percent_encoded(vstd::utf8::encode_utf8(value@)),
{
    let bytes = value.as_bytes();
    let mut out = String::new();
    let mut i: usize = 0;
    assert(bytes@.skip(0) =~= bytes@);
    while i < bytes.len()
        invariant
            i <= bytes@.len(),
            out@ + percent_encoded(bytes@.skip(i as int)) == percent_encoded(bytes@),
        decreases bytes@.len() - i,
    {
        let b = bytes[i];
        let ghost before = out@;
        if (65 <= b && b <= 90) || (97 <= b && b <= 122) || (48 <= b && b <= 57) || b == 45 || b
            == 95 || b == 46 || b == 126 {
            out.push(b as char);
            assert(out@ =~= before + encoded_byte(b));
        } else {
            out.push('%');
            out.push(upper_hex_digit(b / 16));
            out.push(upper_hex_digit(b % 16));
            assert(out@ =~= before + encoded_byte(b));
        }
        proof {
            let rest = bytes@.skip(i as int);
            assert(rest.drop_first() =~= bytes@.skip(i + 1));
            assert(before + percent_encoded(rest) =~= out@ + percent_encoded(
                bytes@.skip(i + 1),
            ));
        }
        i = i + 1;
    }
    assert(out@ + percent_encoded(bytes@.skip(i as int)) =~= out@);
    out
}

/// The service listens on this machine only.
pub fn base_url_for_port(port: &str) -> (r: String)
    ensures
        r@ == "http://127.0.0.1:"@ + port@,
{
    cat2("http://127.0.0.1:", port)
}

/// Maps a status onto the errors; `Ok` means the body is worth reading.
pub fn check_status(status: u16, body: &str) -> (r: Result<(), KsError>)
    ensures
        http::is_success(status) ==> r is Ok,
        !http::is_success(status) ==> (r matches Err(e) && e.is_http(status, body@)),
{
    if http::success(status) {
        Ok(())
    } else {
        Err(KsError::Http { status, body: body.to_owned() })
    }
}

/// What to report of a server error: the service documents that it never
/// returns one, so it must be seen.
pub fn server_bug_notice(status: u16, body: &str) -> (r: Option<String>)
    ensures
        status < 500 ==> r is None,
        status >= 500 ==> (r matches Some(notice) && notice@ == "[ks] BUG on the KS side: HTTP "@
            + text::decimal(status as nat)
            + " from an endpoint documented never to return 5xx. Body: "@ + text::snippet(body@)),
{
    if status < 500 {
        None
    } else {
        Some(
            cat4(
                "[ks] BUG on the KS side: HTTP ",
                decimal_text(status as u64).as_str(),
                " from an endpoint documented never to return 5xx. Body: ",
                snippet_text(body).as_str(),
            ),
        )
    }
}

/// The outcome of a delivered transcript whose response body decoded to
/// `decoded`.
pub open spec fn saved_of(
    decoded: Result<SaveTranscriptBody, String>,
    body: Seq<char>,
    r: Result<SaveTranscriptOutcome, KsError>,
) -> bool {
    match decoded {
        Err(e) => r matches Err(k) && k.is_parse(text::with_snippet(e@, body)),
        Ok(parsed) => if !parsed.ok {
            r matches Ok(SaveTranscriptOutcome::KsDbUnavailable { error }) && error@ == (
            match parsed.error {
                Some(m) => m@,
                None => "ok:false with no error field"@,
            })
        } else {
            match parsed.transcript_id {
                Some(id) if id@.len() > 0 => r matches Ok(
                    SaveTranscriptOutcome::Saved { transcript_id },
                ) && transcript_id@ == id@,
                _ => r matches Err(k) && k.is_parse("response had ok:true but no transcript_id"@),
            }
        },
    }
}

/// The outcome of a delivered transcript, given what the response body
/// decoded to.
pub fn saved(decoded: Result<SaveTranscriptBody, String>, body: &str) -> (r: Result<
    SaveTranscriptOutcome,
    KsError,
>)
    ensures
        saved_of(decoded, body@, r),
{
    let parsed = match decoded {
        Ok(parsed) => parsed,
        Err(e) => return Err(KsError::Parse(quote_body(e.as_str(), body))),
    };
    if parsed.ok {
        match parsed.transcript_id {
            Some(id) => if !id.as_str().is_empty() {
                Ok(SaveTranscriptOutcome::Saved { transcript_id: id })
            } else {
                Err(KsError::Parse("response had ok:true but no transcript_id".to_owned()))
            },
            None => Err(KsError::Parse("response had ok:true but no transcript_id".to_owned())),
        }
    } else {
        let error = match parsed.error {
            Some(m) => m,
            None => "ok:false with no error field".to_owned(),
        };
        Ok(SaveTranscriptOutcome::KsDbUnavailable { error })
    }
}

/// Reads a success body of `POST /transcripts`.
pub fn parse_save_response<F: Fn(&str) -> Result<SaveTranscriptBody, String>>(
    body: &str,
    decode: F,
) -> (r: Result<SaveTranscriptOutcome, KsError>)
    requires
        forall|s: &str| call_requires(decode, (s,)),
    ensures
        exists|decoded: Result<SaveTranscriptBody, String>| #[trigger]
            text::decodes(decode, body@, decoded) && saved_of(decoded, body@, r),
{
    let decoded = decode(body);
    assert(text::decodes(decode, body@, decoded));
    saved(decoded, body)
}

/// Whether the service is healthy, given that its response body decoded to
/// `decoded`.
pub open spec fn health_of(
    decoded: Result<HealthBody, String>,
    body: Seq<char>,
    r: Result<(), KsError>,
) -> bool {
    match decoded {
        Err(e) => r matches Err(k) && k.is_parse(text::with_snippet(e@, body)),
        Ok(parsed) => if parsed.status@ == "ok"@ {
            r is Ok
        } else {
            r matches Err(k) && k.is_parse("unexpected health status: "@ + parsed.status@)
        },
    }
}

/// Whether the service is healthy, given what its response body decoded to.
pub fn health(decoded: Result<HealthBody, String>, body: &str) -> (r: Result<(), KsError>)
    ensures
        health_of(decoded, body@, r),
{
    match decoded {
        Err(e) => Err(KsError::Parse(quote_body(e.as_str(), body))),
        Ok(parsed) => if same_text(parsed.status.as_str(), "ok") {
            Ok(())
        } else {
            Err(KsError::Parse(cat2("unexpected health status: ", parsed.status.as_str())))
        },
    }
}

/// Reads a success body of `GET /health`.
pub fn parse_health_response<F: Fn(&str) -> Result<HealthBody, String>>(
    body: &str,
    decode: F,
) -> (r: Result<(), KsError>)
    requires
        forall|s: &str| call_requires(decode, (s,)),
    ensures
        exists|decoded: Result<HealthBody, String>| #[trigger]
            text::decodes(decode, body@, decoded) && health_of(decoded, body@, r),
{
    let decoded = decode(body);
    assert(text::decodes(decode, body@, decoded));
    health(decoded, body)
}

/// The node list, given what the body decoded to as a bare array.
pub open spec fn nodes_of(
    array: Result<Vec<KsNode>, String>,
    body: Seq<char>,
    r: Result<Vec<KsNode>, KsError>,
) -> bool {
    match array {
        Ok(nodes) => r == Ok::<Vec<KsNode>, KsError>(nodes),
        Err(e) => r matches Err(k) && k.is_parse(
            e@ + "; expected either {\"nodes\": [...]} or a bare array; body snippet: "@
                + text::snippet(body),
        ),
    }
}

/// The node list, given what the body decoded to as a bare array.
pub fn bare_nodes(array: Result<Vec<KsNode>, String>, body: &str) -> (r: Result<
    Vec<KsNode>,
    KsError,
>)
    ensures
        nodes_of(array, body@, r),
{
    match array {
        Ok(nodes) => Ok(nodes),
        Err(e) => Err(
            KsError::Parse(
                cat3(
                    e.as_str(),
                    "; expected either {\"nodes\": [...]} or a bare array; body snippet: ",
                    snippet_text(body).as_str(),
                ),
            ),
        ),
    }
}

/// Reads a success body of `GET /nodes`. The envelope `{"nodes": [...]}` is
/// tried first, then the bare array; an error names both shapes.
pub fn parse_nodes_response<
    F: Fn(&str) -> Result<Vec<KsNode>, String>,
    G: Fn(&str) -> Result<Vec<KsNode>, String>,
>(body: &str, decode_envelope: F, decode_array: G) -> (r: Result<Vec<KsNode>, KsError>)
    requires
        forall|s: &str| call_requires(decode_envelope, (s,)),
        forall|s: &str| call_requires(decode_array, (s,)),
    ensures
        nodes_outcome(decode_envelope, decode_array, body@, r),
{
    match decode_envelope(body) {
        Ok(nodes) => {
            assert(text::decodes(decode_envelope, body@, Ok::<Vec<KsNode>, String>(nodes)));
            Ok(nodes)
        },
        Err(first) => {
            assert(text::decodes(decode_envelope, body@, Err::<Vec<KsNode>, String>(first)));
            let array = decode_array(body);
            assert(text::decodes(decode_array, body@, array));
            bare_nodes(array, body)
        },
    }
}

/// `r` is what comes of reading `body` as an envelope and, only where that
/// fails, as a bare array.
pub open spec fn nodes_outcome<
    F: Fn(&str) -> Result<Vec<KsNode>, String>,
    G: Fn(&str) -> Result<Vec<KsNode>, String>,
>(decode_envelope: F, decode_array: G, body: Seq<char>, r: Result<Vec<KsNode>, KsError>) -> bool {
    ||| (r matches Ok(nodes) && text::decodes(
        decode_envelope,
        body,
        Ok::<Vec<KsNode>, String>(nodes),
    ))
    ||| exists|first: String, array: Result<Vec<KsNode>, String>| {
        &&& #[trigger] text::decodes(decode_envelope, body, Err::<Vec<KsNode>, String>(first))
        &&& #[trigger] text::decodes(decode_array, body, array)
        &&& nodes_of(array, body, r)
    }
}

/// No node in the list has this id.
pub open spec fn is_unlisted(nodes: Seq<KsNode>, id: Seq<char>) -> bool {
    forall|j: int| 0 <= j < nodes.len() ==> #[trigger] nodes[j].id@ != id
}

/// The first node in the list that `id` names.
pub fn find_node(nodes: Vec<KsNode>, id: RecordId) -> (r: Option<KsNode>)
    ensures
        match r {
            Some(node) => exists|k: int|
                0 <= k < nodes@.len() && #[trigger] nodes@[k].id@ == ids::hyphenated(id)
                    && same_node(nodes@[k], node) && forall|j: int|
                    0 <= j < k ==> #[trigger] nodes@[j].id@ != ids::hyphenated(id),
            None => forall|j: int|
                0 <= j < nodes@.len() ==> #[trigger] nodes@[j].id@ != ids::hyphenated(id),
        },
        r is None ==> is_unlisted(nodes@, ids::hyphenated(id)),
{
    let wanted = id_text(id);
    let mut i: usize = 0;
    while i < nodes.len()
        invariant
            i <= nodes@.len(),
            wanted@ == ids::hyphenated(id),
            forall|j: int| 0 <= j < i ==> #[trigger] nodes@[j].id@ != ids::hyphenated(id),
        decreases nodes@.len() - i,
    {
        if same_text(nodes[i].id.as_str(), wanted.as_str()) {
            let node = &nodes[i];
            return Some(
                KsNode {
                    id: node.id.clone(),
                    title: node.title.clone(),
                    subject: node.subject.clone(),
                    summary: node.summary.clone(),
                },
            );
        }
        i = i + 1;
    }
    None
}

/// Two nodes that read the same.
pub open spec fn same_node(a: KsNode, b: KsNode) -> bool {
    &&& a.id@ == b.id@
    &&& a.title@ == b.title@
    &&& a.subject@ == b.subject@
    &&& a.summary@ == b.summary@
}

/// Where the service is and the token that opens it.
pub struct KsClient {
    pub base_url: String,
    pub token: String,
}

impl KsClient {
    /// Takes the values of `KS_HTTP_TOKEN` and `KS_HTTP_PORT`. Without a token
    /// there is no client: the Knowledge Store is auxiliary, and a study
    /// session runs without it.
    pub fn from_env(token: Option<String>, port: Option<String>) -> (r: Option<Self>)
        ensures
            match token {
                Some(t) if t@.len() > 0 => r matches Some(client) && client.token@ == t@
                    && client.base_url@ == "http://127.0.0.1:"@ + (match port {
                    Some(p) => p@,
                    None => DEFAULT_PORT@,
                }),
                _ => r is None,
            },
    {
        match token {
            Some(token) => {
                if token.as_str().is_empty() {
                    return None;
                }
                let port = match port {
                    Some(p) => p,
                    None => DEFAULT_PORT.to_owned(),
                };
                Some(KsClient { base_url: base_url_for_port(port.as_str()), token })
            },
            None => None,
        }
    }

    pub fn health_url(&self) -> (r: String)
        ensures
            r@ == self.base_url@ + "/health"@,
    {
        cat2(self.base_url.as_str(), "/health")
    }

    pub fn transcripts_url(&self) -> (r: String)
        ensures
            r@ == self.base_url@ + "/transcripts"@,
    {
        cat2(self.base_url.as_str(), "/transcripts")
    }

    /// Where the nodes are listed, all of them or those of one subject.
    pub fn nodes_url(&self, subject: Option<&str>) -> (r: String)
        ensures
            r@ == match subject {
                Some(s) => self.base_url@ + "/nodes?subject="@ + percent_encoded(
                    vstd::utf8::encode_utf8(s@),
                ),
                None => self.base_url@ + "/nodes"@,
            },
    {
        match subject {
            Some(s) => cat3(
                self.base_url.as_str(),
                "/nodes?subject=",
                percent_encode_query_value(s).as_str(),
            ),
            None => cat2(self.base_url.as_str(), "/nodes"),
        }
    }

    /// What a reply to `GET /health` means.
    pub fn read_health<F: Fn(&str) -> Result<HealthBody, String>>(
        &self,
        status: u16,
        body: &str,
        decode: F,
    ) -> (r: Result<(), KsError>)
        requires
            forall|s: &str| call_requires(decode, (s,)),
        ensures
            !http::is_success(status) ==> (r matches Err(e) && e.is_http(status, body@)),
            http::is_success(status) ==> exists|decoded: Result<HealthBody, String>| #[trigger]
                text::decodes(decode, body@, decoded) && health_of(decoded, body@, r),
    {
        match check_status(status, body) {
            Ok(()) => parse_health_response(body, decode),
            Err(e) => Err(e),
        }
    }

    /// The request that ships one finished session under its reference.
    pub fn save_request<'a>(
        &self,
        session_ref: &'a str,
        content: &'a Vec<TranscriptTurn>,
    ) -> (r: SaveTranscriptRequest<'a>)
        ensures
            r.session_ref == session_ref,
            r.content == content,
    {
        SaveTranscriptRequest { session_ref, content }
    }

    /// What a reply to `POST /transcripts` means.
    pub fn read_saved<F: Fn(&str) -> Result<SaveTranscriptBody, String>>(
        &self,
        status: u16,
        body: &str,
        decode: F,
    ) -> (r: Result<SaveTranscriptOutcome, KsError>)
        requires
            forall|s: &str| call_requires(decode, (s,)),
        ensures
            !http::is_success(status) ==> (r matches Err(e) && e.is_http(status, body@)),
            http::is_success(status) ==> exists|decoded: Result<SaveTranscriptBody, String>| #[trigger]
                text::decodes(decode, body@, decoded) && saved_of(decoded, body@, r),
    {
        match check_status(status, body) {
            Ok(()) => parse_save_response(body, decode),
            Err(e) => Err(e),
        }
    }

    /// `r` is what comes of sending a transcript where the transport brought
    /// `transport`: the reason why nothing came, or a status and a body.
    pub open spec fn sends<F: Fn(&str) -> Result<SaveTranscriptBody, String>>(
        self,
        transport: Result<(u16, String), String>,
        decode: F,
        r: Result<SaveTranscriptOutcome, KsError>,
    ) -> bool {
        match transport {
            Err(e) => r == Err::<SaveTranscriptOutcome, KsError>(KsError::Unreachable(e)),
            Ok((status, body)) => if !http::is_success(status) {
                r matches Err(e) && e.is_http(status, body@)
            } else {
                exists|decoded: Result<SaveTranscriptBody, String>| #[trigger]
                    text::decodes(decode, body@, decoded) && saved_of(decoded, body@, r)
            },
        }
    }

    /// What comes of `POST /transcripts`, given what the transport brought.
    /// Only a service that does not answer is unreachable.
    pub fn save_transcript<F: Fn(&str) -> Result<SaveTranscriptBody, String>>(
        &self,
        transport: Result<(u16, String), String>,
        decode: F,
    ) -> (r: Result<SaveTranscriptOutcome, KsError>)
        requires
            forall|s: &str| call_requires(decode, (s,)),
        ensures
            self.sends(transport, decode, r),
            (r matches Err(KsError::Unreachable(_))) <==> transport is Err,
    {
        match transport {
            Err(e) => Err(KsError::Unreachable(e)),
            Ok((status, body)) => self.read_saved(status, body.as_str(), decode),
        }
    }

    /// What comes of `GET /health`, given what the transport brought.
    pub fn health<F: Fn(&str) -> Result<HealthBody, String>>(
        &self,
        transport: Result<(u16, String), String>,
        decode: F,
    ) -> (r: Result<(), KsError>)
        requires
            forall|s: &str| call_requires(decode, (s,)),
        ensures
            match transport {
                Err(e) => r == Err::<(), KsError>(KsError::Unreachable(e)),
                Ok((status, body)) => if !http::is_success(status) {
                    r matches Err(e) && e.is_http(status, body@)
                } else {
                    exists|decoded: Result<HealthBody, String>| #[trigger]
                        text::decodes(decode, body@, decoded) && health_of(decoded, body@, r)
                },
            },
            (r matches Err(KsError::Unreachable(_))) <==> transport is Err,
    {
        match transport {
            Err(e) => Err(KsError::Unreachable(e)),
            Ok((status, body)) => self.read_health(status, body.as_str(), decode),
        }
    }

    /// What comes of `GET /nodes`, given what the transport brought.
    pub fn get_nodes<
        F: Fn(&str) -> Result<Vec<KsNode>, String>,
        G: Fn(&str) -> Result<Vec<KsNode>, String>,
    >(
        &self,
        transport: Result<(u16, String), String>,
        decode_envelope: F,
        decode_array: G,
    ) -> (r: Result<Vec<KsNode>, KsError>)
        requires
            forall|s: &str| call_requires(decode_envelope, (s,)),
            forall|s: &str| call_requires(decode_array, (s,)),
        ensures
            match transport {
                Err(e) => r == Err::<Vec<KsNode>, KsError>(KsError::Unreachable(e)),
                Ok((status, body)) => if !http::is_success(status) {
                    r matches Err(e) && e.is_http(status, body@)
                } else {
                    nodes_outcome(decode_envelope, decode_array, body@, r)
                },
            },
            (r matches Err(KsError::Unreachable(_))) <==> transport is Err,
    {
        match transport {
            Err(e) => Err(KsError::Unreachable(e)),
            Ok((status, body)) => self.read_nodes(
                status,
                body.as_str(),
                decode_envelope,
                decode_array,
            ),
        }
    }

    /// What a reply to `GET /nodes` means.
    pub fn read_nodes<
        F: Fn(&str) -> Result<Vec<KsNode>, String>,
        G: Fn(&str) -> Result<Vec<KsNode>, String>,
    >(&self, status: u16, body: &str, decode_envelope: F, decode_array: G) -> (r: Result<
        Vec<KsNode>,
        KsError,
    >)
        requires
            forall|s: &str| call_requires(decode_envelope, (s,)),
            forall|s: &str| call_requires(decode_array, (s,)),
        ensures
            !http::is_success(status) ==> (r matches Err(e) && e.is_http(status, body@)),
            http::is_success(status) ==> nodes_outcome(decode_envelope, decode_array, body@, r),
    {
        match check_status(status, body) {
            Ok(()) => parse_nodes_response(body, decode_envelope, decode_array),
            Err(e) => Err(e),
        }
    }
}

/// The ways in which a delivered transcript can fare stay apart. A stored
/// transcript always has an id, a database that is down is never an error, and
/// an error is always about the shape of the answer.
pub proof fn law_the_outcomes_stay_apart(
    decoded: Result<SaveTranscriptBody, String>,
    body: Seq<char>,
    r: Result<SaveTranscriptOutcome, KsError>,
)
    requires
        saved_of(decoded, body, r),
    ensures
        r matches Ok(SaveTranscriptOutcome::Saved { transcript_id }) ==> transcript_id@.len() > 0
            && (decoded matches Ok(parsed) && parsed.ok),
        (decoded matches Ok(parsed) && !parsed.ok) <==> (r matches Ok(
            SaveTranscriptOutcome::KsDbUnavailable { error },
        )),
        r matches Err(e) ==> e is Parse,
{
}

/// The outcomes of sending a transcript stay apart. The service is
/// unreachable exactly where it did not answer, a refusal carries the status
/// and the body, and a database that is down is never an error.
pub proof fn law_a_send_fares_in_one_way<F: Fn(&str) -> Result<SaveTranscriptBody, String>>(
    client: KsClient,
    transport: Result<(u16, String), String>,
    decode: F,
    r: Result<SaveTranscriptOutcome, KsError>,
)
    requires
        client.sends(transport, decode, r),
    ensures
        (r matches Err(KsError::Unreachable(_))) <==> transport is Err,
        (r matches Err(KsError::Http { .. })) <==> (transport matches Ok((status, _))
            && !http::is_success(status)),
        r is Ok ==> (transport matches Ok((status, _)) && http::is_success(status)),
        r matches Ok(SaveTranscriptOutcome::KsDbUnavailable { .. }) ==> (transport matches Ok(
            (_, body),
        ) && exists|parsed: SaveTranscriptBody|
            !parsed.ok && #[trigger] text::decodes(
                decode,
                body@,
                Ok::<SaveTranscriptBody, String>(parsed),
            )),
{
    if let Ok((status, body)) = transport {
        if http::is_success(status) {
            let decoded = choose|decoded: Result<SaveTranscriptBody, String>| #[trigger]
                text::decodes(decode, body@, decoded) && saved_of(decoded, body@, r);
            law_the_outcomes_stay_apart(decoded, body@, r);
        }
    }
}

/// Both shapes of a node list are read: the envelope, and the bare array where
/// the body is no envelope.
pub proof fn law_both_shapes_are_read<
    F: Fn(&str) -> Result<Vec<KsNode>, String>,
    G: Fn(&str) -> Result<Vec<KsNode>, String>,
>(
    decode_envelope: F,
    decode_array: G,
    body: Seq<char>,
    nodes: Vec<KsNode>,
    r: Result<Vec<KsNode>, KsError>,
)
    requires
        nodes_outcome(decode_envelope, decode_array, body, r),
        (forall|d: Result<Vec<KsNode>, String>| #[trigger]
            text::decodes(decode_envelope, body, d) ==> d == Ok::<Vec<KsNode>, String>(nodes)) || (
        (forall|d: Result<Vec<KsNode>, String>| #[trigger]
            text::decodes(decode_envelope, body, d) ==> d is Err) && (forall|
            d: Result<Vec<KsNode>, String>,
        | #[trigger]
            text::decodes(decode_array, body, d) ==> d == Ok::<Vec<KsNode>, String>(nodes))),
    ensures
        r == Ok::<Vec<KsNode>, KsError>(nodes),
{
}

/// A list reads the same as a bare array and inside an envelope: with the same
/// nodes where it can be read, and as a schema error, never as a part of the
/// list, where it cannot.
pub proof fn law_both_shapes_read_alike<
    F: Fn(&str) -> Result<Vec<KsNode>, String>,
    G: Fn(&str) -> Result<Vec<KsNode>, String>,
>(
    decode_envelope: F,
    decode_array: G,
    bare: Seq<char>,
    wrapped: Seq<char>,
    read: Option<Vec<KsNode>>,
    of_bare: Result<Vec<KsNode>, KsError>,
    of_wrapped: Result<Vec<KsNode>, KsError>,
)
    requires
        forall|d: Result<Vec<KsNode>, String>| #[trigger]
            text::decodes(decode_envelope, bare, d) ==> d is Err,
        forall|d: Result<Vec<KsNode>, String>| #[trigger]
            text::decodes(decode_array, wrapped, d) ==> d is Err,
        forall|d: Result<Vec<KsNode>, String>| #[trigger]
            text::decodes(decode_array, bare, d) ==> d.ok() == read,
        forall|d: Result<Vec<KsNode>, String>| #[trigger]
            text::decodes(decode_envelope, wrapped, d) ==> d.ok() == read,
        nodes_outcome(decode_envelope, decode_array, bare, of_bare),
        nodes_outcome(decode_envelope, decode_array, wrapped, of_wrapped),
    ensures
        match read {
            Some(nodes) => of_bare == Ok::<Vec<KsNode>, KsError>(nodes) && of_wrapped == Ok::<
                Vec<KsNode>,
                KsError,
            >(nodes),
            None => (of_bare matches Err(KsError::Parse(_))) && (of_wrapped matches Err(
                KsError::Parse(_),
            )),
        },
{
}

/// An encoded value decodes to the bytes it was made of.
pub proof fn law_percent_encoding_is_undone(bytes: Seq<u8>)
    ensures
        percent_decoded(percent_encoded(bytes)) == bytes,
    decreases bytes.len(),
{
    if bytes.len() > 0 {
        let b = bytes[0];
        let rest = bytes.drop_first();
        law_percent_encoding_is_undone(rest);
        let s = percent_encoded(bytes);
        if is_unreserved(b) {
            assert(s.skip(1) =~= percent_encoded(rest));
            assert(s[0] == b as char);
        } else {
            assert(s.skip(3) =~= percent_encoded(rest));
            assert(s[1] == upper_hex(b / 16) && s[2] == upper_hex(b % 16));
        }
        assert(seq![b] + rest =~= bytes);
        assert(percent_decoded(s) =~= bytes);
    } else {
        assert(percent_decoded(percent_encoded(bytes)) =~= bytes);
    }
}

/// Different values never encode to the same query string.
pub proof fn law_percent_encoding_keeps_values_apart(a: Seq<char>, b: Seq<char>)
    requires
        percent_encoded(vstd::utf8::encode_utf8(a)) == percent_encoded(
            vstd::utf8::encode_utf8(b),
        ),
    ensures
        a == b,
{
    law_percent_encoding_is_undone(vstd::utf8::encode_utf8(a));
    law_percent_encoding_is_undone(vstd::utf8::encode_utf8(b));
    vstd::utf8::encode_utf8_decode_utf8(a);
    vstd::utf8::encode_utf8_decode_utf8(b);
}

/// An encoded value holds only unreserved characters and `%`, so nothing in it
/// can end the value or start another parameter.
pub proof fn law_percent_encoding_is_url_safe(bytes: Seq<u8>, i: int)
    requires
        0 <= i < percent_encoded(bytes).len(),
    ensures
        percent_encoded(bytes)[i] == '%' || exists|b: u8|
            is_unreserved(b) && percent_encoded(bytes)[i] == #[trigger] (b as char),
    decreases bytes.len(),
{
    let s = percent_encoded(bytes);
    if bytes.len() > 0 {
        let e = encoded_byte(bytes[0]);
        if i >= e.len() {
            law_percent_encoding_is_url_safe(bytes.drop_first(), i - e.len());
            assert(s[i] == percent_encoded(bytes.drop_first())[i - e.len()]);
        } else if is_unreserved(bytes[0]) {
            assert(s[i] == bytes[0] as char);
        } else if i > 0 {
            let d: u8 = if i == 1 { bytes[0] / 16 } else { bytes[0] % 16 };
            let b: u8 = if d < 10 { (48 + d) as u8 } else { (55 + d) as u8 };
            assert(is_unreserved(b) && s[i] == b as char);
        }
    }
}

} // verus!
