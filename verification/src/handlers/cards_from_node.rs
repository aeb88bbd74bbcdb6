//! `POST /cards/from_node`: one concept of the Knowledge Store becomes one
//! card.
//!
//! A set has at most one card for a node. The turns of the endpoint, in order:
//! [`FromNodeRequest::owner_found`], [`OwnedRequest::store_found`],
//! [`ConnectedRequest::existing_found`], [`NewCardRequest::node_found`],
//! [`CardCall::answered`], [`CardInsertion::inserted`] and, where another
//! request was faster, [`ConflictLookup::resolved`].

use vstd::prelude::*;

use crate::handlers;
use crate::handlers::{
    classify_db_error, describe_llm_failure, error_reply, log_ai_interaction, resolve_owner,
    AiInteraction, DbError, Finished,
};
use crate::http::{
    Reply, BAD_GATEWAY, CONFLICT, CREATED, INTERNAL_SERVER_ERROR, NOT_FOUND, SERVICE_UNAVAILABLE,
};
use crate::ids;
use crate::ids::{id_text, RecordId};
use crate::ks_client::{KsError, KsNode};
use crate::llm_provider::{LLMError, LLMMessage, LLMRequest, LLMResponse};
use crate::text;
use crate::text::{blank, cat2, cat3, cat4, cat5, parse_lenient};
use crate::time::Timestamp;

verus! {

/// The source that a card of this endpoint is marked with.
pub const SOURCE_KNOWLEDGE_STORE: &'static str = "knowledge_store";

/// How this endpoint's calls are logged.
pub const CARD_FROM_NODE_GENERATION: &'static str = "card_from_node_generation";

/// The instructions to the model. The summary is material to build on: a card
/// that quotes it back tests recognition of a sentence, not understanding.
pub const SYSTEM_PROMPT: &'static str =
    "You are a flashcard author. Write exactly ONE question/answer pair \
    that tests real understanding of the concept the user provides — the \
    kind of question that asks WHY or HOW, or asks the learner to apply \
    the idea, not one that asks them to name a term. The answer should be \
    1-3 sentences, in the learner's own explanatory register.\n\
    \n\
    Write in the same language as the concept you are given.\n\
    \n\
    Do NOT quote the provided summary back as the answer: the learner has \
    already read it, and recognising a sentence is not the same as \
    understanding an idea.\n\
    \n\
    Respond with ONLY valid JSON, shaped \
    {\"question\": string, \"answer\": string}. No prose, no markdown \
    fences, no commentary outside the JSON.";

#[derive(Debug)]
pub struct FromNodeRequest {
    pub study_set_id: RecordId,
    pub node_id: RecordId,
}

/// A card as the database stored it.
#[derive(Debug, PartialEq, Eq)]
pub struct CardOut {
    pub id: RecordId,
    pub set_id: RecordId,
    pub question: String,
    pub answer: String,
    pub source: String,
    pub source_node_id: Option<RecordId>,
    pub created_at: Timestamp,
}

#[derive(Debug)]
pub struct FromNodeResponse {
    pub card: CardOut,
    pub tokens_used: u32,
}

/// The body of a conflict. It names the card that exists, which is what the
/// caller will look at next.
#[derive(Debug)]
pub struct AlreadyExistsResponse {
    pub error: String,
    pub existing_card_id: RecordId,
}

/// What the endpoint sends besides errors.
#[derive(Debug)]
pub enum FromNodeBody {
    Created(FromNodeResponse),
    AlreadyExists(AlreadyExistsResponse),
}

/// The pair as the model is asked to write it.
#[derive(Debug, PartialEq, Eq)]
pub struct GeneratedCard {
    pub question: String,
    pub answer: String,
}

/// Reads the card out of a model reply, with or without fences.
pub fn parse_generated_card<F: Fn(&str) -> Result<GeneratedCard, String>>(
    raw: &str,
    decode: F,
) -> (r: Result<GeneratedCard, String>)
    requires
        forall|s: &str| call_requires(decode, (s,)),
    ensures
        text::lenient_outcome(decode, raw@, r),
{
    parse_lenient(raw, decode)
}

/// A card that a learner can use: neither side is blank.
pub open spec fn usable(card: GeneratedCard) -> bool {
    !text::is_blank(card.question@) && !text::is_blank(card.answer@)
}

/// Why a card cannot be used; the question is looked at first.
pub open spec fn complaint(card: GeneratedCard) -> Seq<char> {
    if text::is_blank(card.question@) {
        "model returned an empty question"@
    } else {
        "model returned an empty answer"@
    }
}

/// Rejects a card with a blank side, which would waste the learner's turn.
pub fn validate_generated(card: &GeneratedCard) -> (r: Result<(), String>)
    ensures
        r is Ok <==> usable(*card),
        r matches Err(m) ==> m@ == complaint(*card),
{
    if blank(card.question.as_str()) {
        return Err("model returned an empty question".to_owned());
    }
    if blank(card.answer.as_str()) {
        return Err("model returned an empty answer".to_owned());
    }
    Ok(())
}

/// What the user message says of a node.
pub open spec fn user_prompt(node: KsNode) -> Seq<char> {
    "Concept: "@ + node.title@ + "\nSubject: "@ + node.subject@
        + "\nWhat the learner worked out about it: "@ + node.summary@
        + "\n\nWrite one question/answer pair."@
}

/// The system and the user message that turn a node into a card.
pub fn build_prompt(node: &KsNode) -> (r: (String, String))
    ensures
        r.0@ == SYSTEM_PROMPT@,
        r.1@ == user_prompt(*node),
{
    let head = cat5(
        "Concept: ",
        node.title.as_str(),
        "\nSubject: ",
        node.subject.as_str(),
        "\nWhat the learner worked out about it: ",
    );
    let user = cat3(
        head.as_str(),
        node.summary.as_str(),
        "\n\nWrite one question/answer pair.",
    );
    (SYSTEM_PROMPT.to_owned(), user)
}

/// The prompt as the interaction log keeps it.
pub open spec fn prompt_log(node: KsNode) -> Seq<char> {
    "[card_from_node: "@ + node.id@ + "]\n[system] "@ + SYSTEM_PROMPT@ + "\n[user] "@
        + user_prompt(node)
}

/// The reply that points to the card that exists already.
pub open spec fn points_to(
    reply: Reply<FromNodeBody>,
    node_id: RecordId,
    card_id: RecordId,
) -> bool {
    reply matches Reply::Body { status, body: FromNodeBody::AlreadyExists(b) } && status
        == CONFLICT && b.existing_card_id == card_id && b.error@
        == "this study set already has a card for concept node "@ + ids::hyphenated(node_id)
}

/// The conflict reply for a node that has its card already.
pub fn already_exists(node_id: RecordId, existing_card_id: RecordId) -> (r: Reply<FromNodeBody>)
    ensures
        points_to(r, node_id, existing_card_id),
{
    let error = cat2(
        "this study set already has a card for concept node ",
        id_text(node_id).as_str(),
    );
    Reply::Body {
        status: CONFLICT,
        body: FromNodeBody::AlreadyExists(AlreadyExistsResponse { error, existing_card_id }),
    }
}

/// The set exists and has an owner.
#[derive(Debug)]
pub struct OwnedRequest {
    pub study_set_id: RecordId,
    pub node_id: RecordId,
    pub user_id: RecordId,
}

/// The Knowledge Store can be asked.
#[derive(Debug)]
pub struct ConnectedRequest {
    pub study_set_id: RecordId,
    pub node_id: RecordId,
    pub user_id: RecordId,
}

/// The set has no card for the node yet.
#[derive(Debug)]
pub struct NewCardRequest {
    pub study_set_id: RecordId,
    pub node_id: RecordId,
    pub user_id: RecordId,
}

/// The model is about to be asked.
#[derive(Debug)]
pub struct CardCall {
    pub study_set_id: RecordId,
    pub node_id: RecordId,
    pub user_id: RecordId,
    pub messages: Vec<LLMMessage>,
    pub prompt_log: String,
}

/// The card is about to be inserted.
#[derive(Debug)]
pub struct CardInsertion {
    pub study_set_id: RecordId,
    pub node_id: RecordId,
    pub card: GeneratedCard,
    pub source: &'static str,
    pub tokens_used: u32,
    pub log: AiInteraction,
}

/// Another request inserted a card for the node first.
#[derive(Debug)]
pub struct ConflictLookup {
    pub study_set_id: RecordId,
    pub node_id: RecordId,
}

/// What to do after the insertion. Either way the call is logged first.
#[derive(Debug)]
pub enum CardInserted {
    Done(Finished<FromNodeBody>),
    LookUp { log: AiInteraction, conflict: ConflictLookup },
}

impl FromNodeRequest {
    /// The set's owner came back.
    pub fn owner_found(self, lookup: Result<Option<RecordId>, String>) -> (r: Result<
        OwnedRequest,
        Reply<FromNodeBody>,
    >)
        ensures
            match r {
                Ok(next) => handlers::owner_of(
                    self.study_set_id,
                    lookup,
                    Ok::<RecordId, Reply<FromNodeBody>>(next.user_id),
                ) && next.study_set_id == self.study_set_id && next.node_id == self.node_id,
                Err(e) => handlers::owner_of(
                    self.study_set_id,
                    lookup,
                    Err::<RecordId, Reply<FromNodeBody>>(e),
                ),
            },
    {
        match resolve_owner(self.study_set_id, lookup) {
            Ok(user_id) => Ok(
                OwnedRequest { study_set_id: self.study_set_id, node_id: self.node_id, user_id },
            ),
            Err(reply) => Err(reply),
        }
    }
}

impl OwnedRequest {
    /// Whether a Knowledge Store is configured. A missing one is a state of
    /// the configuration, not a mistake of the caller.
    pub fn store_found(self, configured: bool) -> (r: Result<
        ConnectedRequest,
        Reply<FromNodeBody>,
    >)
        ensures
            configured ==> r == Ok::<ConnectedRequest, Reply<FromNodeBody>>(
                ConnectedRequest {
                    study_set_id: self.study_set_id,
                    node_id: self.node_id,
                    user_id: self.user_id,
                },
            ),
            !configured ==> (r matches Err(e) && e.is_error(
                SERVICE_UNAVAILABLE,
                "Knowledge Store is not configured (KS_HTTP_TOKEN unset); cannot build a card from a concept node"@,
            )),
    {
        if configured {
            Ok(
                ConnectedRequest {
                    study_set_id: self.study_set_id,
                    node_id: self.node_id,
                    user_id: self.user_id,
                },
            )
        } else {
            Err(
                error_reply(
                    SERVICE_UNAVAILABLE,
                    "Knowledge Store is not configured (KS_HTTP_TOKEN unset); cannot build a card from a concept node",
                ),
            )
        }
    }
}

impl ConnectedRequest {
    /// A card for the node was looked for before the model is called, so that
    /// a repeated request costs no tokens.
    pub fn existing_found(self, lookup: Result<Option<RecordId>, String>) -> (r: Result<
        NewCardRequest,
        Reply<FromNodeBody>,
    >)
        ensures
            match lookup {
                Ok(Some(card_id)) => r matches Err(e) && points_to(e, self.node_id, card_id),
                Ok(None) => r == Ok::<NewCardRequest, Reply<FromNodeBody>>(
                    NewCardRequest {
                        study_set_id: self.study_set_id,
                        node_id: self.node_id,
                        user_id: self.user_id,
                    },
                ),
                Err(text) => r matches Err(e) && e.is_error(
                    INTERNAL_SERVER_ERROR,
                    "database error checking for an existing card: "@ + text@,
                ),
            },
    {
        match lookup {
            Ok(Some(card_id)) => Err(already_exists(self.node_id, card_id)),
            Ok(None) => Ok(
                NewCardRequest {
                    study_set_id: self.study_set_id,
                    node_id: self.node_id,
                    user_id: self.user_id,
                },
            ),
            Err(text) => Err(
                error_reply(
                    INTERNAL_SERVER_ERROR,
                    cat2(
                        "database error checking for an existing card: ",
                        text.as_str(),
                    ).as_str(),
                ),
            ),
        }
    }
}

impl NewCardRequest {
    /// The node came back; its prompt is what the model is asked.
    pub fn node_found(self, node: Result<Option<KsNode>, KsError>) -> (r: Result<
        CardCall,
        Reply<FromNodeBody>,
    >)
        ensures
            match node {
                Ok(Some(n)) => r matches Ok(call) && call.study_set_id == self.study_set_id
                    && call.node_id == self.node_id && call.user_id == self.user_id
                    && call.messages@.len() == 2 && call.messages@[0].says(
                    "system"@,
                    SYSTEM_PROMPT@,
                ) && call.messages@[1].says("user"@, user_prompt(n)) && call.prompt_log@
                    == prompt_log(n),
                Ok(None) => r matches Err(e) && e.is_error(
                    NOT_FOUND,
                    "the Knowledge Store has no concept node "@ + ids::hyphenated(self.node_id)
                        + " — only accepted concepts are available; one still pending review is not"@,
                ),
                Err(error) => r matches Err(e) && e.is_error(
                    BAD_GATEWAY,
                    "could not read the concept from the Knowledge Store: "@ + error.text(),
                ),
            },
    {
        let node = match node {
            Ok(Some(node)) => node,
            Ok(None) => {
                return Err(
                    error_reply(
                        NOT_FOUND,
                        cat3(
                            "the Knowledge Store has no concept node ",
                            id_text(self.node_id).as_str(),
                            " — only accepted concepts are available; one still pending review is not",
                        ).as_str(),
                    ),
                );
            },
            Err(error) => {
                return Err(
                    error_reply(
                        BAD_GATEWAY,
                        cat2(
                            "could not read the concept from the Knowledge Store: ",
                            error.describe().as_str(),
                        ).as_str(),
                    ),
                );
            },
        };
        let (system, user) = build_prompt(&node);
        let head = cat4("[card_from_node: ", node.id.as_str(), "]\n[system] ", system.as_str());
        let prompt_log = cat3(head.as_str(), "\n[user] ", user.as_str());
        let mut messages: Vec<LLMMessage> = Vec::new();
        messages.push(LLMMessage::system(system.as_str()));
        messages.push(LLMMessage::user(user.as_str()));
        Ok(
            CardCall {
                study_set_id: self.study_set_id,
                node_id: self.node_id,
                user_id: self.user_id,
                messages,
                prompt_log,
            },
        )
    }
}

impl CardCall {
    /// What the provider is asked, with the model that it asks by default.
    pub fn request<'a>(&'a self) -> (r: LLMRequest<'a>)
        ensures
            r.messages == &self.messages,
            r.model is None,
    {
        LLMRequest { messages: &self.messages, model: None }
    }

    /// The log row of this call.
    pub open spec fn logged(self, log: AiInteraction, output: Seq<char>, tokens: u32) -> bool {
        log.records(
            self.user_id,
            CARD_FROM_NODE_GENERATION@,
            self.prompt_log@,
            output,
            tokens,
        )
    }

    /// What comes of a reply that was parsed to `parsed`: a usable card is
    /// inserted, anything else ends the request. Either way the call is logged
    /// with what it cost.
    pub open spec fn answered_of(
        self,
        response: LLMResponse,
        parsed: Result<GeneratedCard, String>,
        r: Result<CardInsertion, Finished<FromNodeBody>>,
    ) -> bool {
        match parsed {
            Ok(card) if usable(card) => r matches Ok(next) && next.study_set_id
                == self.study_set_id && next.node_id == self.node_id && next.card == card
                && next.source@ == SOURCE_KNOWLEDGE_STORE@ && next.tokens_used
                == response.total_tokens && self.logged(
                next.log,
                response.content@,
                response.total_tokens,
            ),
            Ok(card) => r matches Err(f) && f.reply.is_error(
                BAD_GATEWAY,
                "DeepSeek returned an unusable card; nothing inserted: "@ + complaint(card),
            ) && self.logged(f.log, response.content@, response.total_tokens),
            Err(text) => r matches Err(f) && f.reply.is_error(
                BAD_GATEWAY,
                "DeepSeek returned non-JSON output, parse failed: "@ + text@,
            ) && self.logged(f.log, response.content@, response.total_tokens),
        }
    }

    /// What comes of a reply, given what it was parsed to.
    pub fn parsed(self, response: &LLMResponse, parsed: Result<GeneratedCard, String>) -> (r:
        Result<CardInsertion, Finished<FromNodeBody>>)
        ensures
            self.answered_of(*response, parsed, r),
    {
        let log = log_ai_interaction(
            self.user_id,
            CARD_FROM_NODE_GENERATION,
            self.prompt_log.as_str(),
            response.content.as_str(),
            response.total_tokens,
        );
        let card = match parsed {
            Ok(card) => card,
            Err(text) => {
                let message = cat2(
                    "DeepSeek returned non-JSON output, parse failed: ",
                    text.as_str(),
                );
                return Err(Finished { log, reply: error_reply(BAD_GATEWAY, message.as_str()) });
            },
        };
        match validate_generated(&card) {
            Ok(()) => Ok(
                CardInsertion {
                    study_set_id: self.study_set_id,
                    node_id: self.node_id,
                    card,
                    source: SOURCE_KNOWLEDGE_STORE,
                    tokens_used: response.total_tokens,
                    log,
                },
            ),
            Err(text) => {
                let message = cat2(
                    "DeepSeek returned an unusable card; nothing inserted: ",
                    text.as_str(),
                );
                Err(Finished { log, reply: error_reply(BAD_GATEWAY, message.as_str()) })
            },
        }
    }

    /// The model's answer came back. A call that failed cost nothing and is
    /// logged with the reason; a reply is parsed by `decode`.
    pub fn answered<F: Fn(&str) -> Result<GeneratedCard, String>>(
        self,
        outcome: Result<LLMResponse, LLMError>,
        decode: F,
    ) -> (r: Result<CardInsertion, Finished<FromNodeBody>>)
        requires
            forall|s: &str| call_requires(decode, (s,)),
        ensures
            match outcome {
                Err(err) => r matches Err(f) && f.reply.is_error(
                    BAD_GATEWAY,
                    handlers::failure_message(err),
                ) && self.logged(f.log, handlers::failure_placeholder(err), 0),
                Ok(response) => exists|parsed: Result<GeneratedCard, String>| #[trigger]
                    text::lenient_outcome(decode, response.content@, parsed) && self.answered_of(
                        response,
                        parsed,
                        r,
                    ),
            },
    {
        match outcome {
            Err(err) => {
                let (placeholder, message) = describe_llm_failure(&err);
                let log = log_ai_interaction(
                    self.user_id,
                    CARD_FROM_NODE_GENERATION,
                    self.prompt_log.as_str(),
                    placeholder.as_str(),
                    0,
                );
                Err(Finished { log, reply: error_reply(BAD_GATEWAY, message.as_str()) })
            },
            Ok(response) => {
                let parsed = parse_generated_card(response.content.as_str(), decode);
                self.parsed(&response, parsed)
            },
        }
    }
}

impl CardInsertion {
    /// The insertion came back: with the card, with nothing where the set had
    /// a card for the node by then, or with an error. The tokens were spent
    /// in each case, so each is logged.
    pub fn inserted(self, row: Result<Option<CardOut>, DbError>) -> (r: CardInserted)
        ensures
            match row {
                Ok(Some(card)) => r matches CardInserted::Done(f) && f.log == self.log && f.reply
                    == (Reply::Body {
                    status: CREATED,
                    body: FromNodeBody::Created(
                        (FromNodeResponse { card, tokens_used: self.tokens_used }),
                    ),
                }),
                Ok(None) => r == (CardInserted::LookUp {
                    log: self.log,
                    conflict: (ConflictLookup {
                        study_set_id: self.study_set_id,
                        node_id: self.node_id,
                    }),
                }),
                Err(error) => r matches CardInserted::Done(f) && f.log == self.log
                    && f.reply.is_error(
                    handlers::db_error_status(error),
                    handlers::db_error_message(error),
                ),
            },
    {
        match row {
            Ok(Some(card)) => {
                let body = FromNodeBody::Created(
                    FromNodeResponse { card, tokens_used: self.tokens_used },
                );
                CardInserted::Done(
                    Finished { log: self.log, reply: Reply::Body { status: CREATED, body } },
                )
            },
            Ok(None) => CardInserted::LookUp {
                log: self.log,
                conflict: ConflictLookup {
                    study_set_id: self.study_set_id,
                    node_id: self.node_id,
                },
            },
            Err(error) => {
                let (status, message) = classify_db_error(&error);
                CardInserted::Done(
                    Finished { log: self.log, reply: error_reply(status, message.as_str()) },
                )
            },
        }
    }
}

impl ConflictLookup {
    /// The card that won the race came back; the reply names it.
    pub fn resolved(self, lookup: Result<Option<RecordId>, String>) -> (r: Reply<FromNodeBody>)
        ensures
            match lookup {
                Ok(Some(card_id)) => points_to(r, self.node_id, card_id),
                Ok(None) => r.is_error(
                    INTERNAL_SERVER_ERROR,
                    "insert reported a conflict but no existing card could be found"@,
                ),
                Err(text) => r.is_error(
                    INTERNAL_SERVER_ERROR,
                    "database error resolving the conflicting card: "@ + text@,
                ),
            },
    {
        match lookup {
            Ok(Some(card_id)) => already_exists(self.node_id, card_id),
            Ok(None) => error_reply(
                INTERNAL_SERVER_ERROR,
                "insert reported a conflict but no existing card could be found",
            ),
            Err(text) => error_reply(
                INTERNAL_SERVER_ERROR,
                cat2("database error resolving the conflicting card: ", text.as_str()).as_str(),
            ),
        }
    }
}

/// The prompt carries all that is known of the node.
pub proof fn law_the_prompt_carries_the_node(node: KsNode)
    ensures
        text::contains(user_prompt(node), node.title@),
        text::contains(user_prompt(node), node.subject@),
        text::contains(user_prompt(node), node.summary@),
{
    let t0 = "Concept: "@;
    let t1 = t0 + node.title@ + "\nSubject: "@;
    let t2 = t1 + node.subject@ + "\nWhat the learner worked out about it: "@;
    let e2 = "\n\nWrite one question/answer pair."@;
    let e1 = "\nWhat the learner worked out about it: "@ + node.summary@ + e2;
    let e0 = "\nSubject: "@ + node.subject@ + e1;
    assert(t0 + node.title@ + e0 =~= user_prompt(node));
    assert(t1 + node.subject@ + e1 =~= user_prompt(node));
    assert(t2 + node.summary@ + e2 =~= user_prompt(node));
}

} // verus!
