//! Laws of card generation.

use vstd::prelude::*;

use crate::deepseek::ChatCompletionsRequest;
use crate::handlers::generate::{
    accept_batch, parse_qa_pairs, validate_request, CreatedCard, GenerateCardsRequest,
    GenerateCardsResponse, GeneratedQAPair, Generation, GenerationCall, Insertion, InsertionStep,
};
use crate::handlers::generate;
use crate::handlers::Finished;
use crate::http::{ErrorReply, Reply};
use crate::ids;
use crate::ids::RecordId;
use crate::laws;
use crate::laws::texts;
use crate::llm_provider::{LLMError, LLMResponse};
use crate::text;

verus! {

/// A request with a usable source text that names from 1 to 10 questions is
/// planned with exactly as many; one that names more is planned with 10, and
/// one that names no number with 5. The plan is for the set that was asked for,
/// and its source text is the given one without the white space around it.
pub proof fn law_a_request_gets_what_it_asks_for(
    set_id: RecordId,
    request: &GenerateCardsRequest,
    r: Result<Generation, Reply<GenerateCardsResponse>>,
)
    requires
        call_ensures(validate_request, (set_id, request), r),
    ensures
        request.num_questions matches Some(n) ==> (r matches Ok(plan) ==> n >= 1 && (n <= 10
            ==> plan.num_questions == n) && (n > 10 ==> plan.num_questions == 10)),
        request.num_questions is None ==> (r matches Ok(plan) ==> plan.num_questions == 5),
        r matches Ok(plan) ==> plan.set_id == set_id && plan.source_text@ == text::trimmed(
            request.source_text@,
        ),
        request.num_questions != Some(0u32) && !text::is_blank(request.source_text@)
            && request.source_text@.len() <= 8000 ==> r is Ok,
{
}

/// A request is refused for the first of these that holds: it asks for no
/// question, its source text is blank, or its source text has more than 8000
/// characters.
pub proof fn law_a_request_is_refused_for_a_reason(
    set_id: RecordId,
    request: &GenerateCardsRequest,
    r: Result<Generation, Reply<GenerateCardsResponse>>,
)
    requires
        call_ensures(validate_request, (set_id, request), r),
    ensures
        request.num_questions == Some(0u32) ==> (r matches Err(e) && laws::refused(
            e,
            400,
            "num_questions must be >= 1"@,
        )),
        request.num_questions != Some(0u32) && text::is_blank(request.source_text@) ==> (
        r matches Err(e) && laws::refused(e, 400, "source_text must not be empty"@)),
        request.num_questions != Some(0u32) && !text::is_blank(request.source_text@)
            && request.source_text@.len() > 8000 ==> (r matches Err(e) && laws::refused(
            e,
            400,
            "source_text exceeds "@ + text::decimal(8000) + " character limit"@,
        )),
{
}

/// Asking for more, within the limit, never gets fewer.
pub proof fn law_asking_for_more_gets_no_fewer(
    set_id: RecordId,
    fewer: &GenerateCardsRequest,
    more: &GenerateCardsRequest,
    r: Result<Generation, Reply<GenerateCardsResponse>>,
    s: Result<Generation, Reply<GenerateCardsResponse>>,
)
    requires
        call_ensures(validate_request, (set_id, fewer), r),
        call_ensures(validate_request, (set_id, more), s),
        fewer.num_questions matches Some(m) && (more.num_questions matches Some(n) && m <= n),
    ensures
        r matches Ok(a) ==> (s matches Ok(b) ==> a.num_questions <= b.num_questions),
        r matches Ok(a) ==> (s matches Ok(b) ==> (fewer.num_questions matches Some(m) && (
        more.num_questions matches Some(n) && (n <= 10 ==> b.num_questions - a.num_questions == n
            - m)))),
{
}

/// The model is asked, in the name of the set's owner, for the planned number
/// of pairs with short answers, in JSON alone, about the planned source text.
pub proof fn law_the_model_is_asked_for_the_plan(
    plan: Generation,
    lookup: Result<Option<RecordId>, String>,
    r: Result<GenerationCall, Reply<GenerateCardsResponse>>,
)
    requires
        call_ensures(Generation::owner_found, (plan, lookup), r),
    ensures
        lookup matches Ok(Some(owner)) ==> {
            let n = text::decimal(plan.num_questions as nat);
            let system = "You are a flashcard author. Generate exactly "@ + n
                + " question/answer pairs testing UNDERSTANDING of the source text (active recall: questions that require retrieving or applying information, not copy-pasting sentences back). "@
                + "Keep every answer short: 1 to 5 words each. "@
                + "Respond with ONLY valid JSON: an array of objects, each shaped exactly like {\"question\": string, \"answer\": string}. No prose, no markdown, no code fences, no commentary outside the JSON. The JSON must parse with `serde_json::from_str::<Vec<QAPair>>` directly."@;
            let user = "Source text:\n\n"@ + plan.source_text@ + "\n\nGenerate "@ + n
                + " pairs."@;
            r matches Ok(call) && call.set_id == plan.set_id && call.user_id == owner
                && call.messages@.len() == 2 && laws::wire(call.messages@[0], "system"@, system)
                && laws::wire(call.messages@[1], "user"@, user) && call.prompt_log@
                == "[system] "@ + system + "\n[user] "@ + user
        },
{
}

/// Without the set, or without the database, nothing is asked.
pub proof fn law_no_set_no_generation(
    plan: Generation,
    lookup: Result<Option<RecordId>, String>,
    r: Result<GenerationCall, Reply<GenerateCardsResponse>>,
)
    requires
        call_ensures(Generation::owner_found, (plan, lookup), r),
    ensures
        r is Ok <==> (lookup matches Ok(Some(_))),
        lookup matches Ok(None) ==> (r matches Err(e) && laws::refused(
            e,
            404,
            "study set "@ + ids::hyphenated(plan.set_id) + " not found"@,
        )),
        lookup matches Err(text) ==> (r matches Err(e) && laws::refused(
            e,
            500,
            "database error looking up study set: "@ + text@,
        )),
{
}

/// What is sent is the call's messages, to the default model, in one piece.
pub proof fn law_a_generation_is_sent_whole<'a>(
    call: &'a GenerationCall,
    r: ChatCompletionsRequest<'a>,
)
    requires
        call_ensures(GenerationCall::request, (call,), r),
    ensures
        r.messages@ == call.messages@,
        r.model@ == "deepseek-v4-flash"@,
        !r.stream,
{
}

/// The pairs are read leniently.
pub proof fn law_pairs_are_read_leniently<F: Fn(&str) -> Result<Vec<GeneratedQAPair>, String>>(
    raw: &str,
    decode: F,
    first: Result<Vec<GeneratedQAPair>, String>,
    second: Result<Vec<GeneratedQAPair>, String>,
    r: Result<Vec<GeneratedQAPair>, String>,
)
    requires
        call_ensures(parse_qa_pairs::<F>, (raw, decode), r),
        laws::always(decode, raw@, first),
        laws::always(decode, text::unfenced(raw@), second),
    ensures
        texts::read_leniently(first, second, r),
{
    texts::lemma_lenient(decode, raw@, first, second, r);
}

/// A pair that has something on both sides.
pub open spec fn two_sided(pair: GeneratedQAPair) -> bool {
    !text::is_blank(pair.question@) && !text::is_blank(pair.answer@)
}

/// What is wrong with a batch that is not taken: it could not be read, it is
/// empty, or a pair, the first such, has a blank side.
pub open spec fn complains(parsed: Result<Vec<GeneratedQAPair>, String>, e: ErrorReply) -> bool {
    &&& e.status == 502
    &&& parsed matches Err(text) ==> e.message@
        == "DeepSeek returned non-JSON output, parse failed: "@ + text@
    &&& parsed matches Ok(pairs) ==> {
        &&& pairs@.len() == 0 ==> e.message@
            == "DeepSeek returned an empty array; nothing to insert"@
        &&& forall|k: int| #[trigger]
            first_blank(pairs@, k) ==> e.message@
                == "DeepSeek returned a malformed pair at index "@ + text::decimal(k as nat)
                + " (empty question or answer). Batch rejected; no cards inserted."@
    }
}

/// Pair `k` is the first that has nothing on one of its sides.
pub open spec fn first_blank(pairs: Seq<GeneratedQAPair>, k: int) -> bool {
    &&& 0 <= k < pairs.len()
    &&& !two_sided(pairs[k])
    &&& forall|j: int| 0 <= j < k ==> two_sided(#[trigger] pairs[j])
}

/// Every pair has something on both sides, and there is one.
pub open spec fn good_batch(pairs: Seq<GeneratedQAPair>) -> bool {
    pairs.len() > 0 && forall|i: int| 0 <= i < pairs.len() ==> two_sided(#[trigger] pairs[i])
}

proof fn lemma_batch(
    parsed: Result<Vec<GeneratedQAPair>, String>,
    r: Result<Vec<GeneratedQAPair>, ErrorReply>,
)
    requires
        generate::batch_of(parsed, r),
    ensures
        r is Ok <==> (parsed matches Ok(pairs) && good_batch(pairs@)),
        r matches Ok(kept) ==> (parsed matches Ok(pairs) && kept@ == pairs@),
        r matches Err(e) ==> complains(parsed, e),
{
    if let Ok(pairs) = parsed {
        assert forall|k: int| #[trigger] first_blank(pairs@, k) implies generate::first_unusable(
            pairs@,
            k,
        ) by {
            assert forall|j: int| 0 <= j < k implies generate::usable(#[trigger] pairs@[j]) by {
                assert(two_sided(pairs@[j]));
            }
        }
        if good_batch(pairs@) {
            assert forall|i: int| 0 <= i < pairs@.len() implies generate::usable(
                #[trigger] pairs@[i],
            ) by {
                assert(two_sided(pairs@[i]));
            }
        }
        if r is Ok {
            assert forall|i: int| 0 <= i < pairs@.len() implies two_sided(#[trigger] pairs@[i]) by {
                assert(generate::usable(pairs@[i]));
            }
        }
        if r is Err && pairs@.len() > 0 {
            let i = choose|i: int|
                0 <= i < pairs@.len() && !generate::usable(#[trigger] pairs@[i]);
            generate::law_a_blank_side_rejects_the_batch(pairs, r, i);
        }
    }
}

/// A batch is taken whole, every pair as it is and in order, exactly where it
/// has pairs and each has something on both sides; any other is refused for
/// what is wrong with it.
pub proof fn law_a_batch_is_taken_whole_or_not(
    parsed: Result<Vec<GeneratedQAPair>, String>,
    r: Result<Vec<GeneratedQAPair>, ErrorReply>,
)
    requires
        call_ensures(accept_batch, (parsed,), r),
    ensures
        r is Ok <==> (parsed matches Ok(pairs) && good_batch(pairs@)),
        r matches Ok(kept) ==> (parsed matches Ok(pairs) && kept@ == pairs@),
        r matches Err(e) ==> complains(parsed, e),
{
    lemma_batch(parsed, r);
}

/// What comes of a reply of the model: its pairs, where they are taken, are what
/// will be inserted, into the set of the call; where they are not, the request
/// ends. Either way the call is logged for its owner, with its prompt, the reply
/// as it came and its cost.
pub open spec fn comes_of(
    call: GenerationCall,
    raw: Seq<char>,
    tokens: u32,
    parsed: Result<Vec<GeneratedQAPair>, String>,
    r: Result<Insertion, Finished<GenerateCardsResponse>>,
) -> bool {
    &&& r is Ok <==> (parsed matches Ok(pairs) && good_batch(pairs@))
    &&& r matches Ok(next) ==> {
        &&& parsed matches Ok(pairs) && next.batch() == pairs@
        &&& next.set() == call.set_id
        &&& next.tokens() == tokens
        &&& next.done().len() == 0
        &&& laws::logs(
            next.logs(),
            call.user_id,
            "question_generation"@,
            call.prompt_log@,
            raw,
            tokens,
        )
    }
    &&& r matches Err(end) ==> {
        &&& end.reply matches Reply::Error(e) && complains(parsed, e)
        &&& laws::logs(
            end.log,
            call.user_id,
            "question_generation"@,
            call.prompt_log@,
            raw,
            tokens,
        )
    }
}

proof fn lemma_comes_of(
    call: GenerationCall,
    raw: Seq<char>,
    tokens: u32,
    parsed: Result<Vec<GeneratedQAPair>, String>,
    r: Result<Insertion, Finished<GenerateCardsResponse>>,
)
    requires
        call.answered_of(raw, tokens, parsed, r),
    ensures
        comes_of(call, raw, tokens, parsed, r),
{
    match r {
        Ok(next) => {
            if let Ok(pairs) = parsed {
                lemma_batch(parsed, Ok::<Vec<GeneratedQAPair>, ErrorReply>(pairs));
            }
        },
        Err(end) => {
            if let Reply::Error(e) = end.reply {
                lemma_batch(parsed, Err::<Vec<GeneratedQAPair>, ErrorReply>(e));
            }
        },
    }
}

/// A good batch is inserted as the model wrote it, no other is, and the call is
/// logged either way.
pub proof fn law_a_generated_batch_is_inserted_and_logged(
    call: GenerationCall,
    raw: &str,
    tokens: u32,
    parsed: Result<Vec<GeneratedQAPair>, String>,
    r: Result<Insertion, Finished<GenerateCardsResponse>>,
)
    requires
        call_ensures(GenerationCall::parsed, (call, raw, tokens, parsed), r),
    ensures
        comes_of(call, raw@, tokens, parsed, r),
{
    lemma_comes_of(call, raw@, tokens, parsed, r);
}

/// A generation whose model call failed ends with the failure told, and is
/// logged at no cost with the failure as its output.
pub proof fn law_a_failed_generation_is_told_and_logged<
    F: Fn(&str) -> Result<Vec<GeneratedQAPair>, String>,
>(
    call: GenerationCall,
    err: LLMError,
    decode: F,
    told: (String, String),
    r: Result<Insertion, Finished<GenerateCardsResponse>>,
)
    requires
        call_ensures(
            GenerationCall::answered::<F>,
            (call, Err::<LLMResponse, LLMError>(err), decode),
            r,
        ),
        call_ensures(crate::handlers::describe_llm_failure, (&err,), told),
    ensures
        r matches Err(end) && laws::refused(end.reply, 502, told.1@) && laws::logs(
            end.log,
            call.user_id,
            "question_generation"@,
            call.prompt_log@,
            told.0@,
            0,
        ),
{
}

/// A generation that was answered fares as what its reply reads as, with or
/// without its fences.
pub proof fn law_a_generation_fares_as_its_reply<
    F: Fn(&str) -> Result<Vec<GeneratedQAPair>, String>,
>(
    call: GenerationCall,
    response: LLMResponse,
    decode: F,
    first: Result<Vec<GeneratedQAPair>, String>,
    second: Result<Vec<GeneratedQAPair>, String>,
    r: Result<Insertion, Finished<GenerateCardsResponse>>,
)
    requires
        call_ensures(
            GenerationCall::answered::<F>,
            (call, Ok::<LLMResponse, LLMError>(response), decode),
            r,
        ),
        laws::always(decode, response.content@, first),
        laws::always(decode, text::unfenced(response.content@), second),
    ensures
        exists|parsed: Result<Vec<GeneratedQAPair>, String>| #[trigger]
            texts::read_leniently(first, second, parsed) && comes_of(
                call,
                response.content@,
                response.total_tokens,
                parsed,
                r,
            ),
{
    let raw = response.content@;
    let parsed = choose|parsed: Result<Vec<GeneratedQAPair>, String>| #[trigger]
        text::lenient_outcome(decode, raw, parsed) && call.answered_of(
            raw,
            response.total_tokens,
            parsed,
            r,
        );
    texts::lemma_lenient(decode, raw, first, second, parsed);
    lemma_comes_of(call, raw, response.total_tokens, parsed, r);
}

/// The cards are inserted into the set in the order of the batch, each pair as
/// it is.
pub proof fn law_the_next_card_is_the_next_pair<'a>(
    insertion: &'a Insertion,
    r: (RecordId, &'a GeneratedQAPair),
)
    requires
        call_ensures(Insertion::next_card, (insertion,), r),
    ensures
        r.0 == insertion.set(),
        insertion.done().len() < insertion.batch().len(),
        r.1.question@ == insertion.batch()[insertion.done().len() as int].question@,
        r.1.answer@ == insertion.batch()[insertion.done().len() as int].answer@,
        two_sided(*r.1),
{
}

/// A stored card joins those stored before it, and nothing else changes; the
/// last one ends the request with all of them. A failure ends it too and says
/// how many of how many were stored. The log row stays the one of the call.
pub proof fn law_a_stored_card_joins_the_others(
    insertion: Insertion,
    row: Result<CreatedCard, String>,
    r: InsertionStep,
)
    requires
        call_ensures(Insertion::inserted, (insertion, row), r),
    ensures
        insertion.done().len() < insertion.batch().len(),
        r matches InsertionStep::Insert(next) ==> {
            &&& row matches Ok(card) && next.done() == insertion.done().push(card)
            &&& next.done().len() < insertion.batch().len()
            &&& next.batch() == insertion.batch()
            &&& next.set() == insertion.set()
            &&& next.tokens() == insertion.tokens()
            &&& next.logs() == insertion.logs()
        },
        r matches InsertionStep::Done(end) ==> {
            &&& end.log == insertion.logs()
            &&& row matches Ok(card) ==> (end.reply matches Reply::Body { status, body } && status
                == 201 && body.cards@ == insertion.done().push(card) && body.cards@.len()
                == insertion.batch().len() && body.tokens_used == insertion.tokens())
            &&& row matches Err(text) ==> laws::refused(
                end.reply,
                500,
                "card insertion failed after "@ + text::decimal(insertion.done().len()) + " of "@
                    + text::decimal(insertion.batch().len()) + " cards inserted: "@ + text@,
            )
        },
        row is Err ==> r is Done,
        r is Insert <==> row is Ok && insertion.done().len() + 1 < insertion.batch().len(),
{
}

} // verus!
