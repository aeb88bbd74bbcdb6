//! Laws of turning a concept node into a card.

use vstd::prelude::*;

use crate::handlers::cards_from_node::{
    already_exists, build_prompt, parse_generated_card, validate_generated, CardCall,
    CardInserted, CardInsertion, CardOut, ConflictLookup, ConnectedRequest, FromNodeBody,
    FromNodeRequest, GeneratedCard, NewCardRequest, OwnedRequest,
};
use crate::handlers::{DbError, Finished};
use crate::http::Reply;
use crate::ids;
use crate::ids::RecordId;
use crate::ks_client::{KsError, KsNode};
use crate::laws;
use crate::laws::texts;
use crate::llm_provider::{LLMError, LLMRequest, LLMResponse};
use crate::text;

verus! {

/// The reply points the caller to the card that the set has for the node.
pub open spec fn conflict(reply: Reply<FromNodeBody>, node_id: RecordId, card_id: RecordId) -> bool {
    reply matches Reply::Body { status, body: FromNodeBody::AlreadyExists(b) } && status == 409
        && b.existing_card_id == card_id && b.error@
        == "this study set already has a card for concept node "@ + ids::hyphenated(node_id)
}

/// What the model is told to do with a node.
pub open spec fn instructions() -> Seq<char> {
    "You are a flashcard author. Write exactly ONE question/answer pair that tests real understanding of the concept the user provides — the kind of question that asks WHY or HOW, or asks the learner to apply the idea, not one that asks them to name a term. The answer should be 1-3 sentences, in the learner's own explanatory register.\n\nWrite in the same language as the concept you are given.\n\nDo NOT quote the provided summary back as the answer: the learner has already read it, and recognising a sentence is not the same as understanding an idea.\n\nRespond with ONLY valid JSON, shaped {\"question\": string, \"answer\": string}. No prose, no markdown fences, no commentary outside the JSON."@
}

/// What the model is told of a node: its title as the concept, its subject as
/// the subject and its summary as what the learner worked out.
pub open spec fn description(node: KsNode) -> Seq<char> {
    "Concept: "@ + node.title@ + "\nSubject: "@ + node.subject@
        + "\nWhat the learner worked out about it: "@ + node.summary@
        + "\n\nWrite one question/answer pair."@
}

/// The prompt gives the instructions and describes the node.
pub proof fn law_the_prompt_describes_the_node(node: &KsNode, r: (String, String))
    requires
        call_ensures(build_prompt, (node,), r),
    ensures
        r.0@ == instructions(),
        r.1@ == description(*node),
{
}

/// A card is read leniently.
pub proof fn law_a_card_is_read_leniently<F: Fn(&str) -> Result<GeneratedCard, String>>(
    raw: &str,
    decode: F,
    first: Result<GeneratedCard, String>,
    second: Result<GeneratedCard, String>,
    r: Result<GeneratedCard, String>,
)
    requires
        call_ensures(parse_generated_card::<F>, (raw, decode), r),
        laws::always(decode, raw@, first),
        laws::always(decode, text::unfenced(raw@), second),
    ensures
        texts::read_leniently(first, second, r),
{
    texts::lemma_lenient(decode, raw@, first, second, r);
}

/// A card is good exactly where neither side is blank; else the first blank
/// side is named.
pub proof fn law_a_card_needs_both_sides(card: &GeneratedCard, r: Result<(), String>)
    requires
        call_ensures(validate_generated, (card,), r),
    ensures
        r is Ok <==> !text::is_blank(card.question@) && !text::is_blank(card.answer@),
        text::is_blank(card.question@) ==> (r matches Err(m) && m@
            == "model returned an empty question"@),
        !text::is_blank(card.question@) && text::is_blank(card.answer@) ==> (r matches Err(m) && m@
            == "model returned an empty answer"@),
{
}

/// The conflict names the node and the card that exists.
pub proof fn law_a_conflict_names_its_card(
    node_id: RecordId,
    card_id: RecordId,
    r: Reply<FromNodeBody>,
)
    requires
        call_ensures(already_exists, (node_id, card_id), r),
    ensures
        conflict(r, node_id, card_id),
{
}

/// A request goes on, for its own set and node and in the name of the set's
/// owner, exactly where the set exists.
pub proof fn law_a_node_request_needs_its_set(
    request: FromNodeRequest,
    lookup: Result<Option<RecordId>, String>,
    r: Result<OwnedRequest, Reply<FromNodeBody>>,
)
    requires
        call_ensures(FromNodeRequest::owner_found, (request, lookup), r),
    ensures
        r is Ok <==> (lookup matches Ok(Some(_))),
        lookup matches Ok(Some(owner)) ==> (r matches Ok(next) && next.user_id == owner
            && next.study_set_id == request.study_set_id && next.node_id == request.node_id),
        lookup matches Ok(None) ==> (r matches Err(e) && laws::refused(
            e,
            404,
            "study set "@ + ids::hyphenated(request.study_set_id) + " not found"@,
        )),
        lookup matches Err(text) ==> (r matches Err(e) && laws::refused(
            e,
            500,
            "database error looking up study set: "@ + text@,
        )),
{
}

/// A request goes on as it is exactly where a Knowledge Store is configured.
pub proof fn law_a_node_request_needs_a_store(
    request: OwnedRequest,
    configured: bool,
    r: Result<ConnectedRequest, Reply<FromNodeBody>>,
)
    requires
        call_ensures(OwnedRequest::store_found, (request, configured), r),
    ensures
        r is Ok <==> configured,
        r matches Ok(next) ==> next.study_set_id == request.study_set_id && next.node_id
            == request.node_id && next.user_id == request.user_id,
        r matches Err(e) ==> laws::refused(
            e,
            503,
            "Knowledge Store is not configured (KS_HTTP_TOKEN unset); cannot build a card from a concept node"@,
        ),
{
}

/// One node, one card: a request for a node that has its card goes no further,
/// and is pointed to that card.
pub proof fn law_a_node_has_one_card(
    request: ConnectedRequest,
    lookup: Result<Option<RecordId>, String>,
    r: Result<NewCardRequest, Reply<FromNodeBody>>,
)
    requires
        call_ensures(ConnectedRequest::existing_found, (request, lookup), r),
    ensures
        r is Ok <==> (lookup matches Ok(None)),
        r matches Ok(next) ==> next.study_set_id == request.study_set_id && next.node_id
            == request.node_id && next.user_id == request.user_id,
        lookup matches Ok(Some(card_id)) ==> (r matches Err(e) && conflict(
            e,
            request.node_id,
            card_id,
        )),
        lookup matches Err(text) ==> (r matches Err(e) && laws::refused(
            e,
            500,
            "database error checking for an existing card: "@ + text@,
        )),
{
}

/// The model is asked about the node that was found; without one it is not
/// asked, and a missing node is told apart from a store that failed.
pub proof fn law_the_model_is_asked_about_the_node(
    request: NewCardRequest,
    node: Result<Option<KsNode>, KsError>,
    r: Result<CardCall, Reply<FromNodeBody>>,
)
    requires
        call_ensures(NewCardRequest::node_found, (request, node), r),
    ensures
        r is Ok <==> (node matches Ok(Some(_))),
        node matches Ok(Some(n)) ==> (r matches Ok(call) && call.study_set_id
            == request.study_set_id && call.node_id == request.node_id && call.user_id
            == request.user_id && call.messages@.len() == 2 && laws::neutral(
            call.messages@[0],
            "system"@,
            instructions(),
        ) && laws::neutral(call.messages@[1], "user"@, description(n)) && call.prompt_log@
            == "[card_from_node: "@ + n.id@ + "]\n[system] "@ + instructions() + "\n[user] "@
            + description(n)),
        node matches Ok(None) ==> (r matches Err(e) && laws::refused(
            e,
            404,
            "the Knowledge Store has no concept node "@ + ids::hyphenated(request.node_id)
                + " — only accepted concepts are available; one still pending review is not"@,
        )),
{
}

/// A store that failed is told with its failure.
pub proof fn law_a_failing_store_is_told(
    request: NewCardRequest,
    error: KsError,
    reads: String,
    r: Result<CardCall, Reply<FromNodeBody>>,
)
    requires
        call_ensures(
            NewCardRequest::node_found,
            (request, Err::<Option<KsNode>, KsError>(error)),
            r,
        ),
        call_ensures(KsError::describe, (&error,), reads),
    ensures
        r matches Err(e) && laws::refused(
            e,
            502,
            "could not read the concept from the Knowledge Store: "@ + reads@,
        ),
{
}

/// What is asked is the call's messages, of the provider's default model.
pub proof fn law_a_node_is_asked_about_whole<'a>(call: &'a CardCall, r: LLMRequest<'a>)
    requires
        call_ensures(CardCall::request, (call,), r),
    ensures
        r.messages@ == call.messages@,
        r.model is None,
{
}

/// The log row of a call that came to this output at this cost.
pub open spec fn recorded(
    log: crate::handlers::AiInteraction,
    call: CardCall,
    output: Seq<char>,
    tokens: u32,
) -> bool {
    laws::logs(
        log,
        call.user_id,
        "card_from_node_generation"@,
        call.prompt_log@,
        output,
        tokens,
    )
}

/// What comes of a reply that was read: a card with both sides is inserted as
/// it is, for the call's set and node and marked with its source; any other
/// ends the request. Either way the call is logged.
pub open spec fn comes_of(
    call: CardCall,
    response: LLMResponse,
    parsed: Result<GeneratedCard, String>,
    r: Result<CardInsertion, Finished<FromNodeBody>>,
) -> bool {
    &&& r is Ok <==> (parsed matches Ok(card) && !text::is_blank(card.question@) && !text::is_blank(
        card.answer@,
    ))
    &&& r matches Ok(next) ==> {
        &&& parsed matches Ok(card) && next.card.question@ == card.question@ && next.card.answer@
            == card.answer@
        &&& next.study_set_id == call.study_set_id
        &&& next.node_id == call.node_id
        &&& next.source@ == "knowledge_store"@
        &&& next.tokens_used == response.total_tokens
        &&& recorded(next.log, call, response.content@, response.total_tokens)
    }
    &&& r matches Err(end) ==> {
        &&& recorded(end.log, call, response.content@, response.total_tokens)
        &&& parsed matches Err(text) ==> laws::refused(
            end.reply,
            502,
            "DeepSeek returned non-JSON output, parse failed: "@ + text@,
        )
        &&& parsed matches Ok(card) ==> laws::refused(
            end.reply,
            502,
            "DeepSeek returned an unusable card; nothing inserted: "@ + (if text::is_blank(
                card.question@,
            ) {
                "model returned an empty question"@
            } else {
                "model returned an empty answer"@
            }),
        )
    }
}

/// A good card is inserted as the model wrote it, and no other is.
pub proof fn law_a_good_card_is_inserted_as_written(
    call: CardCall,
    response: &LLMResponse,
    parsed: Result<GeneratedCard, String>,
    r: Result<CardInsertion, Finished<FromNodeBody>>,
)
    requires
        call_ensures(CardCall::parsed, (call, response, parsed), r),
    ensures
        comes_of(call, *response, parsed, r),
{
}

/// The same holds of a reply that is still to be read, with or without its
/// fences.
pub proof fn law_a_node_reply_is_read<F: Fn(&str) -> Result<GeneratedCard, String>>(
    call: CardCall,
    response: LLMResponse,
    decode: F,
    first: Result<GeneratedCard, String>,
    second: Result<GeneratedCard, String>,
    r: Result<CardInsertion, Finished<FromNodeBody>>,
)
    requires
        call_ensures(
            CardCall::answered::<F>,
            (call, Ok::<LLMResponse, LLMError>(response), decode),
            r,
        ),
        laws::always(decode, response.content@, first),
        laws::always(decode, text::unfenced(response.content@), second),
    ensures
        exists|parsed: Result<GeneratedCard, String>| #[trigger]
            texts::read_leniently(first, second, parsed) && comes_of(call, response, parsed, r),
{
    let parsed = choose|parsed: Result<GeneratedCard, String>| #[trigger]
        text::lenient_outcome(decode, response.content@, parsed) && call.answered_of(
            response,
            parsed,
            r,
        );
    texts::lemma_lenient(decode, response.content@, first, second, parsed);
    assert(comes_of(call, response, parsed, r));
}

/// A call that failed ends the request with the failure told, and is logged at
/// no cost with the failure as its output.
pub proof fn law_a_failed_node_call_is_told_and_logged<
    F: Fn(&str) -> Result<GeneratedCard, String>,
>(
    call: CardCall,
    err: LLMError,
    decode: F,
    told: (String, String),
    r: Result<CardInsertion, Finished<FromNodeBody>>,
)
    requires
        call_ensures(
            CardCall::answered::<F>,
            (call, Err::<LLMResponse, LLMError>(err), decode),
            r,
        ),
        call_ensures(crate::handlers::describe_llm_failure, (&err,), told),
    ensures
        r matches Err(end) && laws::refused(end.reply, 502, told.1@) && recorded(
            end.log,
            call,
            told.0@,
            0,
        ),
{
}

/// A stored card is sent as it was stored, with what it cost. An insertion that
/// found a card there already looks that card up, in the same set and for the
/// same node. Either way the call's log row is written.
pub proof fn law_a_stored_card_is_sent_as_stored(
    insertion: CardInsertion,
    row: Result<Option<CardOut>, DbError>,
    r: CardInserted,
)
    requires
        call_ensures(CardInsertion::inserted, (insertion, row), r),
    ensures
        row matches Ok(Some(card)) ==> (r matches CardInserted::Done(end) && end.log
            == insertion.log && (end.reply matches Reply::Body {
            status,
            body: FromNodeBody::Created(sent),
        } && status == 201 && sent.card == card && sent.tokens_used == insertion.tokens_used)),
        row matches Ok(None) ==> (r matches CardInserted::LookUp { log, conflict } && log
            == insertion.log && conflict.study_set_id == insertion.study_set_id
            && conflict.node_id == insertion.node_id),
        row is Err ==> (r matches CardInserted::Done(end) && end.log == insertion.log
            && end.reply is Error),
{
}

/// A refused insertion is told as any database error is.
pub proof fn law_a_refused_card_is_classified(
    insertion: CardInsertion,
    error: DbError,
    told: (u16, String),
    r: CardInserted,
)
    requires
        call_ensures(
            CardInsertion::inserted,
            (insertion, Err::<Option<CardOut>, DbError>(error)),
            r,
        ),
        call_ensures(crate::handlers::classify_db_error, (&error,), told),
    ensures
        r matches CardInserted::Done(end) && laws::refused(end.reply, told.0, told.1@),
{
}

/// A request that lost a race is pointed to the card that won it.
pub proof fn law_a_lost_race_names_the_winner(
    lookup: ConflictLookup,
    found: Result<Option<RecordId>, String>,
    r: Reply<FromNodeBody>,
)
    requires
        call_ensures(ConflictLookup::resolved, (lookup, found), r),
    ensures
        found matches Ok(Some(card_id)) ==> conflict(r, lookup.node_id, card_id),
        found matches Ok(None) ==> laws::refused(
            r,
            500,
            "insert reported a conflict but no existing card could be found"@,
        ),
        found matches Err(text) ==> laws::refused(
            r,
            500,
            "database error resolving the conflicting card: "@ + text@,
        ),
{
}

/// The card that exists is reported alike, whether it was found before the
/// model was asked or after a lost race.
pub proof fn law_the_existing_card_is_reported_alike(
    request: ConnectedRequest,
    lookup: ConflictLookup,
    card_id: RecordId,
    before: Result<NewCardRequest, Reply<FromNodeBody>>,
    after: Reply<FromNodeBody>,
)
    requires
        request.node_id == lookup.node_id,
        call_ensures(
            ConnectedRequest::existing_found,
            (request, Ok::<Option<RecordId>, String>(Some(card_id))),
            before,
        ),
        call_ensures(
            ConflictLookup::resolved,
            (lookup, Ok::<Option<RecordId>, String>(Some(card_id))),
            after,
        ),
    ensures
        before matches Err(reply) && conflict(reply, request.node_id, card_id) && conflict(
            after,
            request.node_id,
            card_id,
        ),
{
}

} // verus!
