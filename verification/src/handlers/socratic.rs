//! The Socratic dialogue: the tutor asks, the student answers.
//!
//! `POST /socratic/start` takes the turns [`StartRequest::set_found`],
//! [`Start::cards_found`], [`StartInsertion::session_inserted`] and
//! [`StartCall::answered`]. `POST /socratic/{id}/reply` takes
//! [`ReplyRequest::session_found`], [`ReplySession::counted`],
//! [`ReplyMessage::history_found`], [`ReplyHistory::cards_found`] and
//! [`ReplyCall::answered`]. `GET /socratic/{id}` takes [`session_exists`] and
//! [`history_reply`].

use vstd::prelude::*;

use crate::deepseek::{ChatCompletionsRequest, DeepSeekMessage, DEFAULT_MODEL};
use crate::handlers;
use crate::handlers::{
    describe_llm_failure, error_reply, error_response, log_ai_interaction, AiInteraction, DbError,
    Finished,
};
use crate::http::{
    ErrorReply, Reply, BAD_GATEWAY, BAD_REQUEST, CREATED, INTERNAL_SERVER_ERROR, NOT_FOUND, OK,
};
use crate::ids;
use crate::ids::{id_text, RecordId};
use crate::llm_provider::{LLMError, LLMResponse};
use crate::text;
use crate::text::{cat2, cat3, cat5, decimal_text, parse_lenient, same_text};
use crate::time::Timestamp;

verus! {

/// The most that the cards may take of the system prompt, in characters.
pub const MAX_CARD_CONTEXT_CHARS: usize = 6000;

/// A session with this many messages takes no further reply.
pub const TURN_CAP: i64 = 40;

/// The most recent messages that the model is shown.
pub const CONTEXT_WINDOW: usize = 20;

/// How the dialogue's calls are logged.
pub const SOCRATIC_DIALOGUE: &'static str = "socratic_dialogue";

/// The role of the student's messages.
pub const ROLE_USER: &'static str = "user";

/// The role of the tutor's messages.
pub const ROLE_ASSISTANT: &'static str = "assistant";

/// The message that opens a session with the model.
pub const OPENING: &'static str = "Begin the session. Ask ONE opening question.";

/// The system prompt before and behind the material.
pub const PROMPT_HEAD: &'static str =
    "You are a Socratic tutor. Your goal is to help the student understand \
    the material through guided questioning — NOT by giving direct answers.\n\
    \n\
    Rules:\n\
    1. Ask probing, guiding questions that lead the student to discover the \
    answer themselves.\n\
    2. If the student's answer is correct, affirm it briefly and move to a \
    deeper or related question.\n\
    3. If the student's answer contains a misconception, ask a question that \
    will help them see the error — do NOT simply state the correction.\n\
    4. Build on what the student says. Refer to their previous answers.\n\
    5. Do NOT lecture or give long explanations. Your messages should be \
    concise: ideally 1-4 sentences plus a question.\n\
    \n\
    The material this session covers:\n";

pub const PROMPT_TAIL: &'static str = "\n\
    \n\
    Respond with ONLY valid JSON: {\"reply\": string, \
    \"flagged_misconception\": string | null}. The `reply` field is your \
    message to the student. The `flagged_misconception` field is a short \
    description of any misconception you detected in the student's last \
    message, or null if the answer was correct or if this is the opening \
    question. No prose, no markdown fences, no commentary outside the JSON.";

#[derive(Debug)]
pub struct StartRequest {
    pub study_set_id: RecordId,
    pub user_id: RecordId,
}

#[derive(Debug)]
pub struct ReplyRequest {
    pub message: String,
}

#[derive(Debug)]
pub struct StartResponse {
    pub session_id: RecordId,
    pub opening_message: String,
}

#[derive(Debug)]
pub struct ReplyResponse {
    pub reply: String,
    pub flagged_misconception: Option<String>,
}

#[derive(Debug)]
pub struct SessionHistoryResponse {
    pub session_id: RecordId,
    pub messages: Vec<MessageOut>,
}

#[derive(Debug, PartialEq, Eq)]
pub struct MessageOut {
    pub role: String,
    pub content: String,
    pub flagged_misconception: Option<String>,
    pub created_at: Timestamp,
}

#[derive(Debug)]
pub struct SessionRow {
    pub id: RecordId,
    pub user_id: RecordId,
    pub set_id: RecordId,
}

#[derive(Debug)]
pub struct CardContentRow {
    pub question: String,
    pub answer: String,
}

#[derive(Debug)]
pub struct MessageRow {
    pub role: String,
    pub content: String,
}

/// A reply as the model is asked to write it.
#[derive(Debug)]
pub struct SocraticAIResponse {
    pub reply: String,
    pub flagged_misconception: Option<String>,
}

/// A message of the tutor, to be stored in a session.
#[derive(Debug)]
pub struct TutorMessage {
    pub session_id: RecordId,
    pub content: String,
    pub flagged_misconception: Option<String>,
}

impl TutorMessage {
    /// The role that the message is stored with.
    pub fn role(&self) -> (r: &'static str)
        ensures
            r@ == ROLE_ASSISTANT@,
    {
        ROLE_ASSISTANT
    }
}

/// The end of a turn that succeeded: the tutor's message is stored, the call
/// is logged, and the reply is sent.
#[derive(Debug)]
pub struct Answered<T> {
    pub message: TutorMessage,
    pub finished: Finished<T>,
}

/// Reads a reply of the model, with or without fences.
pub fn parse_socratic_response<F: Fn(&str) -> Result<SocraticAIResponse, String>>(
    raw: &str,
    decode: F,
) -> (r: Result<SocraticAIResponse, String>)
    requires
        forall|s: &str| call_requires(decode, (s,)),
    ensures
        text::lenient_outcome(decode, raw@, r),
{
    parse_lenient(raw, decode)
}

/// The system prompt around the material.
pub open spec fn system_prompt(card_context: Seq<char>) -> Seq<char> {
    PROMPT_HEAD@ + card_context + PROMPT_TAIL@
}

/// Builds the tutor's system prompt, the same for every turn of a session.
pub fn build_system_prompt(card_context: &str) -> (r: String)
    ensures
        r@ == system_prompt(card_context@),
{
    cat3(PROMPT_HEAD, card_context, PROMPT_TAIL)
}

/// A card as the tutor reads it.
pub open spec fn entry(card: CardContentRow) -> Seq<char> {
    "Q: "@ + card.question@ + "\nA: "@ + card.answer@ + "\n\n"@
}

/// Cards as the tutor reads them, one after the other.
pub open spec fn entries(cards: Seq<CardContentRow>) -> Seq<char>
    decreases cards.len(),
{
    if cards.len() == 0 {
        Seq::empty()
    } else {
        entries(cards.drop_last()) + entry(cards.last())
    }
}

/// The first `n` cards fit into the prompt, and no more of them do.
pub open spec fn fit(cards: Seq<CardContentRow>, n: int) -> bool {
    &&& 0 <= n <= cards.len()
    &&& entries(cards.take(n)).len() <= MAX_CARD_CONTEXT_CHARS
    &&& n < cards.len() ==> entries(cards.take(n + 1)).len() > MAX_CARD_CONTEXT_CHARS
}

/// `context` is the material made of `cards`: as many whole cards from the
/// start as fit, and nothing of the next one.
pub open spec fn context_of(cards: Seq<CardContentRow>, context: Seq<char>) -> bool {
    exists|n: int| #[trigger] fit(cards, n) && context == entries(cards.take(n))
}

/// The material of a study set, or nothing where the set has no cards. Cards
/// are never cut in the middle.
pub fn card_context(cards: &Vec<CardContentRow>) -> (r: Option<String>)
    ensures
        match r {
            None => cards@.len() == 0,
            Some(context) => cards@.len() > 0 && context_of(cards@, context@),
        },
{
    if cards.len() == 0 {
        return None;
    }
    let mut context = String::new();
    let mut i: usize = 0;
    assert(cards@.take(0) =~= Seq::<CardContentRow>::empty());
    while i < cards.len()
        invariant
            i <= cards@.len(),
            context@ == entries(cards@.take(i as int)),
            context@.len() <= MAX_CARD_CONTEXT_CHARS,
            i == cards@.len() ==> context_of(cards@, context@),
        ensures
            context_of(cards@, context@),
        decreases cards@.len() - i,
    {
        let card = &cards[i];
        let next = cat5("Q: ", card.question.as_str(), "\nA: ", card.answer.as_str(), "\n\n");
        let used: usize = context.as_str().unicode_len();
        let more: usize = next.as_str().unicode_len();
        proof {
            let longer = cards@.take(i + 1);
            assert(longer.drop_last() =~= cards@.take(i as int));
            assert(longer.last() == cards@[i as int]);
            assert(next@ == entry(cards@[i as int]));
        }
        if more > MAX_CARD_CONTEXT_CHARS - used {
            proof {
                assert(fit(cards@, i as int));
            }
            break;
        }
        context.append(next.as_str());
        i = i + 1;
        proof {
            if i == cards@.len() {
                assert(fit(cards@, i as int));
            }
        }
    }
    Some(context)
}

/// The material for a session, or the reply that ends the request. A set
/// without cards is refused with `when_empty`.
pub open spec fn material_of<T>(
    cards: Result<Vec<CardContentRow>, String>,
    when_empty: Seq<char>,
    r: Result<String, Reply<T>>,
) -> bool {
    match cards {
        Err(text) => r matches Err(e) && e.is_error(
            INTERNAL_SERVER_ERROR,
            "database error fetching cards: "@ + text@,
        ),
        Ok(cards) => if cards@.len() == 0 {
            r matches Err(e) && e.is_error(BAD_REQUEST, when_empty)
        } else {
            r matches Ok(context) && context_of(cards@, context@)
        },
    }
}

/// The material for a session, given the cards that the database brought.
fn material<T>(cards: Result<Vec<CardContentRow>, String>, when_empty: &str) -> (r: Result<
    String,
    Reply<T>,
>)
    ensures
        material_of(cards, when_empty@, r),
{
    match cards {
        Err(text) => Err(
            error_reply(
                INTERNAL_SERVER_ERROR,
                cat2("database error fetching cards: ", text.as_str()).as_str(),
            ),
        ),
        Ok(cards) => match card_context(&cards) {
            Some(context) => Ok(context),
            None => Err(error_reply(BAD_REQUEST, when_empty)),
        },
    }
}

/// A call of the dialogue, as the log keeps it.
pub open spec fn logged(
    log: AiInteraction,
    user_id: RecordId,
    prompt_log: Seq<char>,
    output: Seq<char>,
    tokens: u32,
) -> bool {
    log.records(user_id, SOCRATIC_DIALOGUE@, prompt_log, output, tokens)
}

/// A call that brought nothing: it cost nothing and is logged with the reason.
pub open spec fn call_failed<T>(
    f: Finished<T>,
    user_id: RecordId,
    prompt_log: Seq<char>,
    err: LLMError,
) -> bool {
    &&& f.reply.is_error(BAD_GATEWAY, handlers::failure_message(err))
    &&& logged(f.log, user_id, prompt_log, handlers::failure_placeholder(err), 0)
}

/// A reply that could not be read: it is logged as it came.
pub open spec fn unreadable<T>(
    f: Finished<T>,
    user_id: RecordId,
    prompt_log: Seq<char>,
    response: LLMResponse,
    error: Seq<char>,
) -> bool {
    &&& f.reply.is_error(
        BAD_GATEWAY,
        "DeepSeek returned non-JSON output, parse failed: "@ + error,
    )
    &&& logged(f.log, user_id, prompt_log, response.content@, response.total_tokens)
}

/// The end of a call that brought nothing.
fn finish_failed_call<T>(user_id: RecordId, prompt_log: &str, err: &LLMError) -> (r: Finished<T>)
    ensures
        call_failed(r, user_id, prompt_log@, *err),
{
    let (placeholder, message) = describe_llm_failure(err);
    let log = log_ai_interaction(user_id, SOCRATIC_DIALOGUE, prompt_log, placeholder.as_str(), 0);
    Finished { log, reply: error_reply(BAD_GATEWAY, message.as_str()) }
}

/// The end of a call whose reply could not be read.
fn finish_unreadable<T>(log: AiInteraction, error: &str) -> (r: Finished<T>)
    ensures
        r.log == log,
        r.reply.is_error(
            BAD_GATEWAY,
            "DeepSeek returned non-JSON output, parse failed: "@ + error@,
        ),
{
    Finished {
        log,
        reply: error_reply(
            BAD_GATEWAY,
            cat2("DeepSeek returned non-JSON output, parse failed: ", error).as_str(),
        ),
    }
}

/// The tutor's message that stores an answer.
pub open spec fn keeps(
    message: TutorMessage,
    session_id: RecordId,
    answer: SocraticAIResponse,
) -> bool {
    message == (TutorMessage {
        session_id,
        content: answer.reply,
        flagged_misconception: answer.flagged_misconception,
    })
}

fn tutor_message(session_id: RecordId, answer: &SocraticAIResponse) -> (r: TutorMessage)
    ensures
        keeps(r, session_id, *answer),
{
    let flagged_misconception = match &answer.flagged_misconception {
        Some(text) => Some(text.clone()),
        None => None,
    };
    TutorMessage { session_id, content: answer.reply.clone(), flagged_misconception }
}

/// The study set exists; its cards are still to be fetched.
#[derive(Debug)]
pub struct Start {
    pub study_set_id: RecordId,
    pub user_id: RecordId,
}

/// A session is about to be created.
#[derive(Debug)]
pub struct StartInsertion {
    pub study_set_id: RecordId,
    pub user_id: RecordId,
    pub card_context: String,
}

/// The model is about to be asked for the opening question.
#[derive(Debug)]
pub struct StartCall {
    pub session_id: RecordId,
    pub user_id: RecordId,
    pub messages: Vec<DeepSeekMessage>,
    pub prompt_log: String,
}

/// What a set without cards is told at the start of a session.
pub const NOTHING_TO_DISCUSS: &'static str =
    "study set has no cards — nothing to discuss yet, generate some cards first";

/// What a set that lost its cards is told during a session.
pub const NOTHING_LEFT: &'static str = "study set no longer has cards — session cannot continue";

impl StartRequest {
    /// Whether the study set exists came back.
    pub fn set_found(self, found: Result<bool, String>) -> (r: Result<
        Start,
        Reply<StartResponse>,
    >)
        ensures
            match found {
                Ok(true) => r == Ok::<Start, Reply<StartResponse>>(
                    Start { study_set_id: self.study_set_id, user_id: self.user_id },
                ),
                Ok(false) => r matches Err(e) && e.is_error(
                    NOT_FOUND,
                    handlers::set_not_found(self.study_set_id),
                ),
                Err(text) => r matches Err(e) && e.is_error(
                    INTERNAL_SERVER_ERROR,
                    "database error looking up study set: "@ + text@,
                ),
            },
    {
        match found {
            Ok(present) => if present {
                Ok(Start { study_set_id: self.study_set_id, user_id: self.user_id })
            } else {
                Err(
                    error_reply(
                        NOT_FOUND,
                        cat3(
                            "study set ",
                            id_text(self.study_set_id).as_str(),
                            " not found",
                        ).as_str(),
                    ),
                )
            },
            Err(text) => Err(
                error_reply(
                    INTERNAL_SERVER_ERROR,
                    cat2("database error looking up study set: ", text.as_str()).as_str(),
                ),
            ),
        }
    }
}

impl Start {
    /// The cards of the set came back.
    pub fn cards_found(self, cards: Result<Vec<CardContentRow>, String>) -> (r: Result<
        StartInsertion,
        Reply<StartResponse>,
    >)
        ensures
            match r {
                Ok(next) => next.study_set_id == self.study_set_id && next.user_id
                    == self.user_id && material_of(
                    cards,
                    NOTHING_TO_DISCUSS@,
                    Ok::<String, Reply<StartResponse>>(next.card_context),
                ),
                Err(e) => material_of(
                    cards,
                    NOTHING_TO_DISCUSS@,
                    Err::<String, Reply<StartResponse>>(e),
                ),
            },
    {
        match material(cards, NOTHING_TO_DISCUSS) {
            Ok(card_context) => Ok(
                StartInsertion {
                    study_set_id: self.study_set_id,
                    user_id: self.user_id,
                    card_context,
                },
            ),
            Err(reply) => Err(reply),
        }
    }
}

impl StartInsertion {
    /// The new session came back. Only a user that does not exist is the
    /// caller's mistake.
    pub fn session_inserted(self, row: Result<SessionRow, DbError>) -> (r: Result<
        StartCall,
        Reply<StartResponse>,
    >)
        ensures
            match row {
                Ok(row) => r matches Ok(call) && call.session_id == row.id && call.user_id
                    == self.user_id && call.messages@.len() == 2 && call.messages@[0].says(
                    "system"@,
                    system_prompt(self.card_context@),
                ) && call.messages@[1].says("user"@, OPENING@) && call.prompt_log@
                    == "[socratic:start]\n[system] "@ + system_prompt(self.card_context@)
                    + "\n[user] Begin the session."@,
                Err(error) => r matches Err(e) && if error.has_code("23503"@) {
                    e.is_error(BAD_REQUEST, "user_id does not exist (foreign key violation)"@)
                } else {
                    e.is_error(INTERNAL_SERVER_ERROR, "database error: "@ + error.text@)
                },
            },
    {
        let session_id = match row {
            Ok(row) => row.id,
            Err(error) => {
                if error.code_is("23503") {
                    return Err(
                        error_reply(
                            BAD_REQUEST,
                            "user_id does not exist (foreign key violation)",
                        ),
                    );
                }
                return Err(
                    error_reply(
                        INTERNAL_SERVER_ERROR,
                        cat2("database error: ", error.text.as_str()).as_str(),
                    ),
                );
            },
        };
        let system = build_system_prompt(self.card_context.as_str());
        let mut messages: Vec<DeepSeekMessage> = Vec::new();
        messages.push(DeepSeekMessage::system(system.as_str()));
        messages.push(DeepSeekMessage::user(OPENING));
        let prompt_log = cat3(
            "[socratic:start]\n[system] ",
            system.as_str(),
            "\n[user] Begin the session.",
        );
        Ok(StartCall { session_id, user_id: self.user_id, messages, prompt_log })
    }
}

impl StartCall {
    /// What is sent to the model.
    pub fn request<'a>(&'a self) -> (r: ChatCompletionsRequest<'a>)
        ensures
            r.messages == &self.messages,
            r.model@ == DEFAULT_MODEL@,
            !r.stream,
    {
        ChatCompletionsRequest { model: DEFAULT_MODEL, messages: &self.messages, stream: false }
    }

    /// What comes of a reply that was parsed to `parsed`.
    pub open spec fn answered_of(
        self,
        response: LLMResponse,
        parsed: Result<SocraticAIResponse, String>,
        r: Result<Answered<StartResponse>, Finished<StartResponse>>,
    ) -> bool {
        match parsed {
            Ok(answer) => r matches Ok(a) && keeps(a.message, self.session_id, answer)
                && a.finished.reply == (Reply::Body {
                status: CREATED,
                body: (StartResponse {
                    session_id: self.session_id,
                    opening_message: answer.reply,
                }),
            }) && logged(
                a.finished.log,
                self.user_id,
                self.prompt_log@,
                response.content@,
                response.total_tokens,
            ),
            Err(text) => r matches Err(f) && unreadable(
                f,
                self.user_id,
                self.prompt_log@,
                response,
                text@,
            ),
        }
    }

    /// What comes of a reply, given what it was parsed to.
    pub fn parsed(
        self,
        response: &LLMResponse,
        parsed: Result<SocraticAIResponse, String>,
    ) -> (r: Result<Answered<StartResponse>, Finished<StartResponse>>)
        ensures
            self.answered_of(*response, parsed, r),
    {
        let log = log_ai_interaction(
            self.user_id,
            SOCRATIC_DIALOGUE,
            self.prompt_log.as_str(),
            response.content.as_str(),
            response.total_tokens,
        );
        match parsed {
            Ok(answer) => {
                let message = tutor_message(self.session_id, &answer);
                let body = StartResponse {
                    session_id: self.session_id,
                    opening_message: answer.reply,
                };
                Ok(
                    Answered {
                        message,
                        finished: Finished { log, reply: Reply::Body { status: CREATED, body } },
                    },
                )
            },
            Err(text) => Err(finish_unreadable(log, text.as_str())),
        }
    }

    /// The model's opening question came back.
    pub fn answered<F: Fn(&str) -> Result<SocraticAIResponse, String>>(
        self,
        outcome: Result<LLMResponse, LLMError>,
        decode: F,
    ) -> (r: Result<Answered<StartResponse>, Finished<StartResponse>>)
        requires
            forall|s: &str| call_requires(decode, (s,)),
        ensures
            match outcome {
                Err(err) => r matches Err(f) && call_failed(
                    f,
                    self.user_id,
                    self.prompt_log@,
                    err,
                ),
                Ok(response) => exists|parsed: Result<SocraticAIResponse, String>| #[trigger]
                    text::lenient_outcome(decode, response.content@, parsed) && self.answered_of(
                        response,
                        parsed,
                        r,
                    ),
            },
    {
        match outcome {
            Err(err) => Err(finish_failed_call(self.user_id, self.prompt_log.as_str(), &err)),
            Ok(response) => {
                let parsed = parse_socratic_response(response.content.as_str(), decode);
                self.parsed(&response, parsed)
            },
        }
    }
}

/// The message for a session that does not exist.
pub open spec fn session_not_found(session_id: RecordId) -> Seq<char> {
    "socratic session "@ + ids::hyphenated(session_id) + " not found"@
}

fn session_not_found_text(session_id: RecordId) -> (r: String)
    ensures
        r@ == session_not_found(session_id),
{
    cat3("socratic session ", id_text(session_id).as_str(), " not found")
}

/// The session exists; its messages are still to be counted.
#[derive(Debug)]
pub struct ReplySession {
    pub session_id: RecordId,
    pub user_id: RecordId,
    pub set_id: RecordId,
    pub message: String,
}

/// The student's message is stored before the model is asked; then the
/// history is fetched.
#[derive(Debug)]
pub struct ReplyMessage {
    pub session_id: RecordId,
    pub user_id: RecordId,
    pub set_id: RecordId,
    pub message: String,
}

/// The recent messages are known; the cards are fetched anew.
#[derive(Debug)]
pub struct ReplyHistory {
    pub session_id: RecordId,
    pub user_id: RecordId,
    pub set_id: RecordId,
    pub recent: Vec<MessageRow>,
}

/// The model is about to be asked.
#[derive(Debug)]
pub struct ReplyCall {
    pub session_id: RecordId,
    pub user_id: RecordId,
    pub messages: Vec<DeepSeekMessage>,
    pub prompt_log: String,
}

impl ReplyRequest {
    /// The session came back.
    pub fn session_found(
        self,
        session_id: RecordId,
        lookup: Result<Option<SessionRow>, String>,
    ) -> (r: Result<ReplySession, Reply<ReplyResponse>>)
        ensures
            match lookup {
                Ok(Some(session)) => r == Ok::<ReplySession, Reply<ReplyResponse>>(
                    ReplySession {
                        session_id,
                        user_id: session.user_id,
                        set_id: session.set_id,
                        message: self.message,
                    },
                ),
                Ok(None) => r matches Err(e) && e.is_error(
                    NOT_FOUND,
                    session_not_found(session_id),
                ),
                Err(text) => r matches Err(e) && e.is_error(
                    INTERNAL_SERVER_ERROR,
                    "database error: "@ + text@,
                ),
            },
    {
        match lookup {
            Ok(Some(session)) => Ok(
                ReplySession {
                    session_id,
                    user_id: session.user_id,
                    set_id: session.set_id,
                    message: self.message,
                },
            ),
            Ok(None) => Err(
                error_reply(NOT_FOUND, session_not_found_text(session_id).as_str()),
            ),
            Err(text) => Err(
                error_reply(
                    INTERNAL_SERVER_ERROR,
                    cat2("database error: ", text.as_str()).as_str(),
                ),
            ),
        }
    }
}

impl ReplySession {
    /// The number of messages came back. A session at the cap is closed.
    pub fn counted(self, count: Result<i64, String>) -> (r: Result<
        ReplyMessage,
        Reply<ReplyResponse>,
    >)
        ensures
            match count {
                Ok(count) => if count >= TURN_CAP {
                    r matches Err(e) && e.is_error(
                        BAD_REQUEST,
                        "session has reached its turn limit"@,
                    )
                } else {
                    r == Ok::<ReplyMessage, Reply<ReplyResponse>>(
                        ReplyMessage {
                            session_id: self.session_id,
                            user_id: self.user_id,
                            set_id: self.set_id,
                            message: self.message,
                        },
                    )
                },
                Err(text) => r matches Err(e) && e.is_error(
                    INTERNAL_SERVER_ERROR,
                    "database error counting messages: "@ + text@,
                ),
            },
    {
        match count {
            Ok(count) => if count >= TURN_CAP {
                Err(error_reply(BAD_REQUEST, "session has reached its turn limit"))
            } else {
                Ok(
                    ReplyMessage {
                        session_id: self.session_id,
                        user_id: self.user_id,
                        set_id: self.set_id,
                        message: self.message,
                    },
                )
            },
            Err(text) => Err(
                error_reply(
                    INTERNAL_SERVER_ERROR,
                    cat2("database error counting messages: ", text.as_str()).as_str(),
                ),
            ),
        }
    }
}

/// The messages that the model is shown: the last [`CONTEXT_WINDOW`] of them.
pub open spec fn window(messages: Seq<MessageRow>) -> Seq<MessageRow> {
    if messages.len() <= CONTEXT_WINDOW {
        messages
    } else {
        messages.skip(messages.len() - CONTEXT_WINDOW)
    }
}

impl ReplyMessage {
    /// The role that the student's message is stored with.
    pub fn role(&self) -> (r: &'static str)
        ensures
            r@ == ROLE_USER@,
    {
        ROLE_USER
    }

    /// The whole history came back, oldest message first.
    pub fn history_found(self, history: Result<Vec<MessageRow>, String>) -> (r: Result<
        ReplyHistory,
        Reply<ReplyResponse>,
    >)
        ensures
            match history {
                Ok(messages) => r matches Ok(next) && next.session_id == self.session_id
                    && next.user_id == self.user_id && next.set_id == self.set_id
                    && next.recent@ == window(messages@),
                Err(text) => r matches Err(e) && e.is_error(
                    INTERNAL_SERVER_ERROR,
                    "database error fetching history: "@ + text@,
                ),
            },
    {
        let mut messages = match history {
            Ok(messages) => messages,
            Err(text) => {
                return Err(
                    error_reply(
                        INTERNAL_SERVER_ERROR,
                        cat2("database error fetching history: ", text.as_str()).as_str(),
                    ),
                );
            },
        };
        let start: usize = messages.len().saturating_sub(CONTEXT_WINDOW);
        let recent = messages.split_off(start);
        Ok(
            ReplyHistory {
                session_id: self.session_id,
                user_id: self.user_id,
                set_id: self.set_id,
                recent,
            },
        )
    }
}

/// A stored message whose role the model knows.
pub open spec fn is_turn(message: MessageRow) -> bool {
    message.role@ == ROLE_USER@ || message.role@ == ROLE_ASSISTANT@
}

/// The stored messages that go to the model, in order.
pub open spec fn turns(messages: Seq<MessageRow>) -> Seq<MessageRow> {
    messages.filter(|m: MessageRow| is_turn(m))
}

/// The chat that the model is sent: the system prompt, then the turns.
pub open spec fn chat_of(
    messages: Seq<DeepSeekMessage>,
    system: Seq<char>,
    turns: Seq<MessageRow>,
) -> bool {
    &&& messages.len() == turns.len() + 1
    &&& messages[0].says("system"@, system)
    &&& forall|i: int|
        0 <= i < turns.len() ==> #[trigger] messages[i + 1].says(
            turns[i].role@,
            turns[i].content@,
        )
}

/// The prompt of a reply as the interaction log keeps it.
pub open spec fn reply_log(card_context: Seq<char>, recent: nat) -> Seq<char> {
    "[socratic:reply]\n[system] "@ + system_prompt(card_context) + "\n["@ + text::decimal(recent)
        + " messages in context window]"@
}

impl ReplyHistory {
    /// The cards of the set came back.
    pub fn cards_found(self, cards: Result<Vec<CardContentRow>, String>) -> (r: Result<
        ReplyCall,
        Reply<ReplyResponse>,
    >)
        ensures
            match r {
                Ok(call) => call.session_id == self.session_id && call.user_id == self.user_id
                    && exists|context: String| #[trigger]
                    material_of(
                        cards,
                        NOTHING_LEFT@,
                        Ok::<String, Reply<ReplyResponse>>(context),
                    ) && chat_of(
                        call.messages@,
                        system_prompt(context@),
                        turns(self.recent@),
                    ) && call.prompt_log@ == reply_log(context@, self.recent@.len()),
                Err(e) => material_of(
                    cards,
                    NOTHING_LEFT@,
                    Err::<String, Reply<ReplyResponse>>(e),
                ),
            },
    {
        let context = match material(cards, NOTHING_LEFT) {
            Ok(context) => context,
            Err(reply) => return Err(reply),
        };
        let ghost found = Ok::<String, Reply<ReplyResponse>>(context);
        let system = build_system_prompt(context.as_str());
        let mut messages: Vec<DeepSeekMessage> = Vec::new();
        messages.push(DeepSeekMessage::system(system.as_str()));
        let recent = self.recent;
        let mut i: usize = 0;
        assert(turns(recent@.take(0)) =~= Seq::<MessageRow>::empty()) by {
            reveal(Seq::filter);
        }
        while i < recent.len()
            invariant
                i <= recent@.len(),
                chat_of(messages@, system@, turns(recent@.take(i as int))),
            decreases recent@.len() - i,
        {
            let m = &recent[i];
            let ghost before = messages@;
            let ghost shown = turns(recent@.take(i as int));
            proof {
                let longer = recent@.take(i + 1);
                assert(longer.drop_last() =~= recent@.take(i as int));
                assert(longer.last() == recent@[i as int]);
                assert(turns(longer) == if is_turn(recent@[i as int]) {
                    shown.push(recent@[i as int])
                } else {
                    shown
                }) by {
                    reveal(Seq::filter);
                }
            }
            if same_text(m.role.as_str(), ROLE_USER) {
                messages.push(DeepSeekMessage::user(m.content.as_str()));
            } else if same_text(m.role.as_str(), ROLE_ASSISTANT) {
                messages.push(DeepSeekMessage::assistant(m.content.as_str()));
            }
            i = i + 1;
            proof {
                let now = turns(recent@.take(i as int));
                assert forall|k: int| 0 <= k < now.len() implies #[trigger] messages@[k
                    + 1].says(now[k].role@, now[k].content@) by {
                    if k < shown.len() {
                        assert(before[k + 1].says(shown[k].role@, shown[k].content@));
                    }
                }
            }
        }
        assert(recent@.take(recent@.len() as int) =~= recent@);
        let count = decimal_text(recent.len() as u64);
        let prompt_log = cat5(
            "[socratic:reply]\n[system] ",
            system.as_str(),
            "\n[",
            count.as_str(),
            " messages in context window]",
        );
        proof {
            assert(material_of(cards, NOTHING_LEFT@, found));
        }
        Ok(
            ReplyCall {
                session_id: self.session_id,
                user_id: self.user_id,
                messages,
                prompt_log,
            },
        )
    }
}

impl ReplyCall {
    /// What is sent to the model.
    pub fn request<'a>(&'a self) -> (r: ChatCompletionsRequest<'a>)
        ensures
            r.messages == &self.messages,
            r.model@ == DEFAULT_MODEL@,
            !r.stream,
    {
        ChatCompletionsRequest { model: DEFAULT_MODEL, messages: &self.messages, stream: false }
    }

    /// What comes of a reply that was parsed to `parsed`.
    pub open spec fn answered_of(
        self,
        response: LLMResponse,
        parsed: Result<SocraticAIResponse, String>,
        r: Result<Answered<ReplyResponse>, Finished<ReplyResponse>>,
    ) -> bool {
        match parsed {
            Ok(answer) => r matches Ok(a) && keeps(a.message, self.session_id, answer)
                && a.finished.reply == (Reply::Body {
                status: CREATED,
                body: (ReplyResponse {
                    reply: answer.reply,
                    flagged_misconception: answer.flagged_misconception,
                }),
            }) && logged(
                a.finished.log,
                self.user_id,
                self.prompt_log@,
                response.content@,
                response.total_tokens,
            ),
            Err(text) => r matches Err(f) && unreadable(
                f,
                self.user_id,
                self.prompt_log@,
                response,
                text@,
            ),
        }
    }

    /// What comes of a reply, given what it was parsed to.
    pub fn parsed(
        self,
        response: &LLMResponse,
        parsed: Result<SocraticAIResponse, String>,
    ) -> (r: Result<Answered<ReplyResponse>, Finished<ReplyResponse>>)
        ensures
            self.answered_of(*response, parsed, r),
    {
        let log = log_ai_interaction(
            self.user_id,
            SOCRATIC_DIALOGUE,
            self.prompt_log.as_str(),
            response.content.as_str(),
            response.total_tokens,
        );
        match parsed {
            Ok(answer) => {
                let message = tutor_message(self.session_id, &answer);
                let body = ReplyResponse {
                    reply: answer.reply,
                    flagged_misconception: answer.flagged_misconception,
                };
                Ok(
                    Answered {
                        message,
                        finished: Finished { log, reply: Reply::Body { status: CREATED, body } },
                    },
                )
            },
            Err(text) => Err(finish_unreadable(log, text.as_str())),
        }
    }

    /// The tutor's answer came back.
    pub fn answered<F: Fn(&str) -> Result<SocraticAIResponse, String>>(
        self,
        outcome: Result<LLMResponse, LLMError>,
        decode: F,
    ) -> (r: Result<Answered<ReplyResponse>, Finished<ReplyResponse>>)
        requires
            forall|s: &str| call_requires(decode, (s,)),
        ensures
            match outcome {
                Err(err) => r matches Err(f) && call_failed(
                    f,
                    self.user_id,
                    self.prompt_log@,
                    err,
                ),
                Ok(response) => exists|parsed: Result<SocraticAIResponse, String>| #[trigger]
                    text::lenient_outcome(decode, response.content@, parsed) && self.answered_of(
                        response,
                        parsed,
                        r,
                    ),
            },
    {
        match outcome {
            Err(err) => Err(finish_failed_call(self.user_id, self.prompt_log.as_str(), &err)),
            Ok(response) => {
                let parsed = parse_socratic_response(response.content.as_str(), decode);
                self.parsed(&response, parsed)
            },
        }
    }
}

/// Whether a session exists came back; its messages are read next.
pub fn session_exists(session_id: RecordId, found: Result<bool, String>) -> (r: Result<
    (),
    ErrorReply,
>)
    ensures
        match found {
            Ok(true) => r is Ok,
            Ok(false) => r matches Err(e) && e.says(NOT_FOUND, session_not_found(session_id)),
            Err(text) => r matches Err(e) && e.says(
                INTERNAL_SERVER_ERROR,
                "database error: "@ + text@,
            ),
        },
{
    match found {
        Ok(present) => if present {
            Ok(())
        } else {
            Err(error_response(NOT_FOUND, session_not_found_text(session_id).as_str()))
        },
        Err(text) => Err(
            error_response(
                INTERNAL_SERVER_ERROR,
                cat2("database error: ", text.as_str()).as_str(),
            ),
        ),
    }
}

/// The reply with a session's messages, given what the database brought.
pub fn history_reply(session_id: RecordId, messages: Result<Vec<MessageOut>, String>) -> (r: Reply<
    SessionHistoryResponse,
>)
    ensures
        match messages {
            Ok(messages) => r == (Reply::Body {
                status: OK,
                body: (SessionHistoryResponse { session_id, messages }),
            }),
            Err(text) => r.is_error(INTERNAL_SERVER_ERROR, "database error: "@ + text@),
        },
{
    match messages {
        Ok(messages) => Reply::Body {
            status: OK,
            body: SessionHistoryResponse { session_id, messages },
        },
        Err(text) => error_reply(
            INTERNAL_SERVER_ERROR,
            cat2("database error: ", text.as_str()).as_str(),
        ),
    }
}

proof fn lemma_entries_grow(cards: Seq<CardContentRow>, m: int, n: int)
    requires
        0 <= m <= n <= cards.len(),
    ensures
        entries(cards.take(m)).len() <= entries(cards.take(n)).len(),
    decreases n - m,
{
    if m < n {
        lemma_entries_grow(cards, m, n - 1);
        assert(cards.take(n).drop_last() =~= cards.take(n - 1));
    }
}

/// The material never takes more than its share of the prompt.
pub proof fn law_the_material_is_bounded(cards: Seq<CardContentRow>, context: Seq<char>)
    requires
        context_of(cards, context),
    ensures
        context.len() <= MAX_CARD_CONTEXT_CHARS,
{
}

/// The cards alone decide the material.
pub proof fn law_the_material_is_determined(
    cards: Seq<CardContentRow>,
    a: Seq<char>,
    b: Seq<char>,
)
    requires
        context_of(cards, a),
        context_of(cards, b),
    ensures
        a == b,
{
    let m = choose|m: int| #[trigger] fit(cards, m) && a == entries(cards.take(m));
    let n = choose|n: int| #[trigger] fit(cards, n) && b == entries(cards.take(n));
    if m < n {
        lemma_entries_grow(cards, m + 1, n);
    } else if n < m {
        lemma_entries_grow(cards, n + 1, m);
    }
}

/// Cards that fit together are all there.
pub proof fn law_a_small_set_is_shown_whole(cards: Seq<CardContentRow>, context: Seq<char>)
    requires
        context_of(cards, context),
        entries(cards).len() <= MAX_CARD_CONTEXT_CHARS,
    ensures
        context == entries(cards),
{
    assert(cards.take(cards.len() as int) =~= cards);
    assert(fit(cards, cards.len() as int));
    law_the_material_is_determined(cards, context, entries(cards));
}

/// As long as the cards stay the same, the tutor has the same instructions in
/// every turn of a session, from the opening question on.
pub proof fn law_every_turn_has_the_same_instructions(
    cards: Vec<CardContentRow>,
    opening: String,
    later: String,
)
    requires
        material_of(
            Ok::<Vec<CardContentRow>, String>(cards),
            NOTHING_TO_DISCUSS@,
            Ok::<String, Reply<StartResponse>>(opening),
        ),
        material_of(
            Ok::<Vec<CardContentRow>, String>(cards),
            NOTHING_LEFT@,
            Ok::<String, Reply<ReplyResponse>>(later),
        ),
    ensures
        system_prompt(opening@) == system_prompt(later@),
{
    law_the_material_is_determined(cards@, opening@, later@);
}

/// The prompt carries the material.
pub proof fn law_the_prompt_carries_the_material(card_context: Seq<char>)
    ensures
        text::contains(system_prompt(card_context), card_context),
{
    assert(PROMPT_HEAD@ + card_context + PROMPT_TAIL@ == system_prompt(card_context));
}

/// The model is shown at most [`CONTEXT_WINDOW`] messages, and they are the
/// latest.
pub proof fn law_the_window_holds_the_latest(messages: Seq<MessageRow>, i: int)
    requires
        0 <= i < messages.len(),
    ensures
        window(messages).len() <= CONTEXT_WINDOW,
        i >= messages.len() - CONTEXT_WINDOW ==> window(messages)[i - (messages.len() - window(
            messages,
        ).len())] == messages[i],
{
}

/// The turn that the student just sent is the last that the model is shown.
pub proof fn law_the_latest_turn_comes_last(messages: Seq<MessageRow>)
    requires
        messages.len() > 0,
        is_turn(messages.last()),
    ensures
        turns(window(messages)).len() > 0,
        turns(window(messages)).last() == messages.last(),
        turns(window(messages)).len() <= CONTEXT_WINDOW,
{
    let w = window(messages);
    assert(w.last() == messages.last());
    reveal(Seq::filter);
    let p = |m: MessageRow| is_turn(m);
    assert(turns(w) == w.drop_last().filter(p).push(w.last()));
    lemma_turns_len(w);
}

proof fn lemma_turns_len(messages: Seq<MessageRow>)
    ensures
        turns(messages).len() <= messages.len(),
    decreases messages.len(),
{
    reveal(Seq::filter);
    if messages.len() > 0 {
        lemma_turns_len(messages.drop_last());
    }
}

} // verus!
