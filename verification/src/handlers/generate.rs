//! `POST /study_sets/{set_id}/generate_cards`: cards out of a source text.
//!
//! The turns of the endpoint, in order: [`validate_request`], then
//! [`Generation::owner_found`] with the owner of the set, then
//! [`GenerationCall::answered`] with what the model said, then
//! [`Insertion::inserted`] once for each card.

use vstd::prelude::*;

use crate::deepseek::{ChatCompletionsRequest, DeepSeekMessage, DEFAULT_MODEL};
use crate::handlers;
use crate::handlers::{
    describe_llm_failure, error_reply, error_response, log_ai_interaction, resolve_owner,
    AiInteraction, Finished,
};
use crate::http::{
    ErrorReply, Reply, BAD_GATEWAY, BAD_REQUEST, CREATED, INTERNAL_SERVER_ERROR,
};
use crate::ids::RecordId;
use crate::llm_provider::{LLMError, LLMResponse};
use crate::text;
use crate::text::{blank, cat2, cat3, cat4, cat5, decimal_text, parse_lenient, trim};
use crate::time::Timestamp;

verus! {

/// The longest source text, in characters.
pub const MAX_SOURCE_TEXT_CHARS: usize = 8000;

/// Cards asked for where the request names no number.
pub const DEFAULT_NUM_QUESTIONS: u32 = 5;

/// Cards asked for at most.
pub const MAX_NUM_QUESTIONS: u32 = 10;

/// How this endpoint's calls are logged.
pub const QUESTION_GENERATION: &'static str = "question_generation";

/// The system prompt before the number of pairs.
pub const SYSTEM_HEAD: &'static str = "You are a flashcard author. Generate exactly ";

/// What the questions test.
pub const SYSTEM_TASK: &'static str = " question/answer pairs \
    testing UNDERSTANDING of the source text (active recall: questions that \
    require retrieving or applying information, not copy-pasting sentences \
    back). ";

/// How long the answers are: short enough to be recalled at a glance.
pub const SHORT_ANSWERS: &'static str = "Keep every answer short: 1 to 5 words each. ";

/// How the pairs are written.
pub const SYSTEM_TAIL: &'static str = "Respond with ONLY valid JSON: an array of objects, each \
    shaped exactly like {\"question\": string, \"answer\": string}. No prose, no \
    markdown, no code fences, no commentary outside the JSON. The JSON must \
    parse with `serde_json::from_str::<Vec<QAPair>>` directly.";

#[derive(Debug)]
pub struct GenerateCardsRequest {
    pub source_text: String,
    pub num_questions: Option<u32>,
}

/// A pair as the model is asked to write it.
#[derive(Debug)]
pub struct GeneratedQAPair {
    pub question: String,
    pub answer: String,
}

/// A card as the database stored it.
#[derive(Debug, PartialEq, Eq)]
pub struct CreatedCard {
    pub id: RecordId,
    pub set_id: RecordId,
    pub question: String,
    pub answer: String,
    pub created_at: Timestamp,
}

#[derive(Debug)]
pub struct GenerateCardsResponse {
    pub cards: Vec<CreatedCard>,
    pub tokens_used: u32,
}

/// The number of questions that a request asks for.
pub open spec fn asked_for(num_questions: Option<u32>) -> u32 {
    match num_questions {
        Some(n) => n,
        None => DEFAULT_NUM_QUESTIONS,
    }
}

/// The number of questions that the model is asked for.
pub open spec fn clamped(num_questions: u32) -> u32 {
    if num_questions > MAX_NUM_QUESTIONS {
        MAX_NUM_QUESTIONS
    } else {
        num_questions
    }
}

pub open spec fn system_prompt(num_questions: u32) -> Seq<char> {
    SYSTEM_HEAD@ + text::decimal(num_questions as nat) + SYSTEM_TASK@ + SHORT_ANSWERS@
        + SYSTEM_TAIL@
}

pub open spec fn user_prompt(source: Seq<char>, num_questions: u32) -> Seq<char> {
    "Source text:\n\n"@ + source + "\n\nGenerate "@ + text::decimal(num_questions as nat)
        + " pairs."@
}

/// The prompt as the interaction log keeps it.
pub open spec fn prompt_log(source: Seq<char>, num_questions: u32) -> Seq<char> {
    "[system] "@ + system_prompt(num_questions) + "\n[user] "@ + user_prompt(
        source,
        num_questions,
    )
}

/// A request that passed validation; its study set is still to be looked up.
#[derive(Debug)]
pub struct Generation {
    pub set_id: RecordId,
    pub num_questions: u32,
    pub source_text: String,
}

/// Validates a request. A number of questions over the limit is lowered to
/// it; zero questions, a blank source text and one that is too long are
/// refused, in this order.
pub fn validate_request(set_id: RecordId, request: &GenerateCardsRequest) -> (r: Result<
    Generation,
    Reply<GenerateCardsResponse>,
>)
    ensures
        ({
            let n = asked_for(request.num_questions);
            let source = request.source_text@;
            if n == 0 {
                r matches Err(e) && e.is_error(BAD_REQUEST, "num_questions must be >= 1"@)
            } else if text::is_blank(source) {
                r matches Err(e) && e.is_error(BAD_REQUEST, "source_text must not be empty"@)
            } else if source.len() > MAX_SOURCE_TEXT_CHARS {
                r matches Err(e) && e.is_error(
                    BAD_REQUEST,
                    "source_text exceeds "@ + text::decimal(MAX_SOURCE_TEXT_CHARS as nat)
                        + " character limit"@,
                )
            } else {
                r matches Ok(g) && g.set_id == set_id && g.num_questions == clamped(n)
                    && g.source_text@ == text::trimmed(source)
            }
        }),
{
    let mut num_questions: u32 = match request.num_questions {
        Some(n) => n,
        None => DEFAULT_NUM_QUESTIONS,
    };
    if num_questions == 0 {
        return Err(error_reply(BAD_REQUEST, "num_questions must be >= 1"));
    }
    if num_questions > MAX_NUM_QUESTIONS {
        num_questions = MAX_NUM_QUESTIONS;
    }
    let source = request.source_text.as_str();
    if blank(source) {
        return Err(error_reply(BAD_REQUEST, "source_text must not be empty"));
    }
    if source.unicode_len() > MAX_SOURCE_TEXT_CHARS {
        return Err(
            error_reply(
                BAD_REQUEST,
                cat3(
                    "source_text exceeds ",
                    decimal_text(MAX_SOURCE_TEXT_CHARS as u64).as_str(),
                    " character limit",
                ).as_str(),
            ),
        );
    }
    Ok(Generation { set_id, num_questions, source_text: trim(source).to_owned() })
}

/// The model is about to be asked.
#[derive(Debug)]
pub struct GenerationCall {
    pub set_id: RecordId,
    pub user_id: RecordId,
    pub messages: Vec<DeepSeekMessage>,
    pub prompt_log: String,
}

impl Generation {
    /// The set's owner came back; the log needs one, and without the set there
    /// is nothing to add cards to.
    pub fn owner_found(self, lookup: Result<Option<RecordId>, String>) -> (r: Result<
        GenerationCall,
        Reply<GenerateCardsResponse>,
    >)
        ensures
            match r {
                Ok(call) => {
                    &&& handlers::owner_of(
                        self.set_id,
                        lookup,
                        Ok::<RecordId, Reply<GenerateCardsResponse>>(call.user_id),
                    )
                    &&& call.set_id == self.set_id
                    &&& call.messages@.len() == 2
                    &&& call.messages@[0].says("system"@, system_prompt(self.num_questions))
                    &&& call.messages@[1].says(
                        "user"@,
                        user_prompt(self.source_text@, self.num_questions),
                    )
                    &&& call.prompt_log@ == prompt_log(self.source_text@, self.num_questions)
                },
                Err(e) => handlers::owner_of(
                    self.set_id,
                    lookup,
                    Err::<RecordId, Reply<GenerateCardsResponse>>(e),
                ),
            },
    {
        let user_id = match resolve_owner(self.set_id, lookup) {
            Ok(owner) => owner,
            Err(reply) => return Err(reply),
        };
        let n = decimal_text(self.num_questions as u64);
        let system = cat5(SYSTEM_HEAD, n.as_str(), SYSTEM_TASK, SHORT_ANSWERS, SYSTEM_TAIL);
        let user = cat5(
            "Source text:\n\n",
            self.source_text.as_str(),
            "\n\nGenerate ",
            n.as_str(),
            " pairs.",
        );
        let prompt_log = cat4("[system] ", system.as_str(), "\n[user] ", user.as_str());
        let mut messages: Vec<DeepSeekMessage> = Vec::new();
        messages.push(DeepSeekMessage::system(system.as_str()));
        messages.push(DeepSeekMessage::user(user.as_str()));
        Ok(GenerationCall { set_id: self.set_id, user_id, messages, prompt_log })
    }
}

/// Reads the pairs out of a model reply, with or without fences.
pub fn parse_qa_pairs<F: Fn(&str) -> Result<Vec<GeneratedQAPair>, String>>(
    raw: &str,
    decode: F,
) -> (r: Result<Vec<GeneratedQAPair>, String>)
    requires
        forall|s: &str| call_requires(decode, (s,)),
    ensures
        text::lenient_outcome(decode, raw@, r),
{
    parse_lenient(raw, decode)
}

/// A pair that a learner can use.
pub open spec fn usable(pair: GeneratedQAPair) -> bool {
    !text::is_blank(pair.question@) && !text::is_blank(pair.answer@)
}

/// `i` is the first pair with a blank side.
pub open spec fn first_unusable(pairs: Seq<GeneratedQAPair>, i: int) -> bool {
    &&& 0 <= i < pairs.len()
    &&& !usable(pairs[i])
    &&& forall|j: int| 0 <= j < i ==> usable(#[trigger] pairs[j])
}

/// A batch is taken whole or not at all: one pair with a blank side rejects
/// it, and so does having no pair.
pub open spec fn batch_of(
    parsed: Result<Vec<GeneratedQAPair>, String>,
    r: Result<Vec<GeneratedQAPair>, ErrorReply>,
) -> bool {
    match parsed {
        Err(text) => r matches Err(e) && e.says(
            BAD_GATEWAY,
            "DeepSeek returned non-JSON output, parse failed: "@ + text@,
        ),
        Ok(pairs) => {
            &&& forall|i: int| #[trigger]
                first_unusable(pairs@, i) ==> (r matches Err(e) && e.says(
                    BAD_GATEWAY,
                    "DeepSeek returned a malformed pair at index "@ + text::decimal(i as nat)
                        + " (empty question or answer). Batch rejected; no cards inserted."@,
                ))
            &&& pairs@.len() == 0 ==> (r matches Err(e) && e.says(
                BAD_GATEWAY,
                "DeepSeek returned an empty array; nothing to insert"@,
            ))
            &&& (r is Ok <==> pairs@.len() > 0 && forall|j: int|
                0 <= j < pairs@.len() ==> usable(#[trigger] pairs@[j]))
            &&& r matches Ok(kept) ==> kept == pairs
        },
    }
}

/// Takes or rejects a batch, given what the model's reply was parsed to.
pub fn accept_batch(parsed: Result<Vec<GeneratedQAPair>, String>) -> (r: Result<
    Vec<GeneratedQAPair>,
    ErrorReply,
>)
    ensures
        batch_of(parsed, r),
{
    let pairs = match parsed {
        Ok(pairs) => pairs,
        Err(text) => {
            return Err(
                error_response(
                    BAD_GATEWAY,
                    cat2(
                        "DeepSeek returned non-JSON output, parse failed: ",
                        text.as_str(),
                    ).as_str(),
                ),
            );
        },
    };
    let mut i: usize = 0;
    while i < pairs.len()
        invariant
            i <= pairs@.len(),
            parsed == Ok::<Vec<GeneratedQAPair>, String>(pairs),
            forall|j: int| 0 <= j < i ==> usable(#[trigger] pairs@[j]),
        decreases pairs@.len() - i,
    {
        if blank(pairs[i].question.as_str()) || blank(pairs[i].answer.as_str()) {
            let r = Err(
                error_response(
                    BAD_GATEWAY,
                    cat3(
                        "DeepSeek returned a malformed pair at index ",
                        decimal_text(i as u64).as_str(),
                        " (empty question or answer). Batch rejected; no cards inserted.",
                    ).as_str(),
                ),
            );
            assert(!usable(pairs@[i as int]));
            assert forall|k: int| #[trigger] first_unusable(pairs@, k) implies k == i by {
                if k < i {
                    assert(usable(pairs@[k]));
                } else if k > i {
                    assert(usable(pairs@[i as int]));
                }
            }
            return r;
        }
        i = i + 1;
    }
    if pairs.len() == 0 {
        return Err(
            error_response(BAD_GATEWAY, "DeepSeek returned an empty array; nothing to insert"),
        );
    }
    Ok(pairs)
}

/// Cards are being inserted, one after the other.
#[derive(Debug)]
pub struct Insertion {
    set_id: RecordId,
    tokens_used: u32,
    log: AiInteraction,
    pairs: Vec<GeneratedQAPair>,
    created: Vec<CreatedCard>,
}

/// What to do after an insertion: the next one, or the reply.
#[derive(Debug)]
pub enum InsertionStep {
    Insert(Insertion),
    Done(Finished<GenerateCardsResponse>),
}

impl Insertion {
    #[verifier::type_invariant]
    spec fn wf(self) -> bool {
        &&& self.created@.len() < self.pairs@.len()
        &&& forall|j: int| 0 <= j < self.pairs@.len() ==> usable(#[trigger] self.pairs@[j])
    }

    /// The set that gets the cards.
    pub closed spec fn set(self) -> RecordId {
        self.set_id
    }

    /// What the model call cost.
    pub closed spec fn tokens(self) -> u32 {
        self.tokens_used
    }

    /// The row that will be logged.
    pub closed spec fn logs(self) -> AiInteraction {
        self.log
    }

    /// The pairs to insert, all of them usable.
    pub closed spec fn batch(self) -> Seq<GeneratedQAPair> {
        self.pairs@
    }

    /// The cards inserted so far.
    pub closed spec fn done(self) -> Seq<CreatedCard> {
        self.created@
    }

    /// The set and the pair to insert next; no blank side ever gets here.
    pub fn next_card(&self) -> (r: (RecordId, &GeneratedQAPair))
        ensures
            r.0 == self.set(),
            self.done().len() < self.batch().len(),
            *r.1 == self.batch()[self.done().len() as int],
            usable(*r.1),
    {
        proof {
            use_type_invariant(self);
        }
        (self.set_id, &self.pairs[self.created.len()])
    }

    /// What comes of an insertion that brought `row`. The log row, the batch
    /// and the cost stay what they are.
    pub open spec fn inserted_of(self, row: Result<CreatedCard, String>, r: InsertionStep) -> bool {
        match row {
            Err(text) => r matches InsertionStep::Done(f) && f.log == self.logs()
                && f.reply.is_error(
                INTERNAL_SERVER_ERROR,
                "card insertion failed after "@ + text::decimal(self.done().len()) + " of "@
                    + text::decimal(self.batch().len()) + " cards inserted: "@ + text@,
            ),
            Ok(card) => if self.done().len() + 1 < self.batch().len() {
                r matches InsertionStep::Insert(next) && next.done() == self.done().push(card)
                    && next.batch() == self.batch() && next.set() == self.set() && next.tokens()
                    == self.tokens() && next.logs() == self.logs()
            } else {
                r matches InsertionStep::Done(f) && f.log == self.logs()
                    && (f.reply matches Reply::Body { status, body } && status == CREATED
                    && body.cards@ == self.done().push(card) && body.cards@.len()
                    == self.batch().len() && body.tokens_used == self.tokens())
            },
        }
    }

    /// An insertion came back. The first failure ends the request and says how
    /// far it got; the last success ends it with all cards.
    pub fn inserted(self, row: Result<CreatedCard, String>) -> (r: InsertionStep)
        ensures
            self.done().len() < self.batch().len(),
            self.inserted_of(row, r),
    {
        proof {
            use_type_invariant(&self);
        }
        let Insertion { set_id, tokens_used, log, pairs, created } = self;
        let mut created = created;
        match row {
            Err(text) => {
                let message = cat5(
                    "card insertion failed after ",
                    decimal_text(created.len() as u64).as_str(),
                    " of ",
                    decimal_text(pairs.len() as u64).as_str(),
                    cat2(" cards inserted: ", text.as_str()).as_str(),
                );
                assert(message@ =~= "card insertion failed after "@ + text::decimal(
                    self.done().len(),
                ) + " of "@ + text::decimal(self.batch().len()) + " cards inserted: "@ + text@);
                InsertionStep::Done(
                    Finished { log, reply: error_reply(INTERNAL_SERVER_ERROR, message.as_str()) },
                )
            },
            Ok(card) => {
                created.push(card);
                if created.len() < pairs.len() {
                    InsertionStep::Insert(Insertion { set_id, tokens_used, log, pairs, created })
                } else {
                    let body = GenerateCardsResponse { cards: created, tokens_used };
                    InsertionStep::Done(
                        Finished { log, reply: Reply::Body { status: CREATED, body } },
                    )
                }
            },
        }
    }
}

impl GenerationCall {
    /// What is sent to the model.
    pub fn request<'a>(&'a self) -> (r: ChatCompletionsRequest<'a>)
        ensures
            r.messages == &self.messages,
            r.model@ == DEFAULT_MODEL@,
            !r.stream,
    {
        ChatCompletionsRequest { model: DEFAULT_MODEL, messages: &self.messages, stream: false }
    }

    /// What comes of a reply that was parsed to `parsed`: the batch is taken,
    /// or the request ends. Either way the call is logged with what it cost.
    pub open spec fn answered_of(
        self,
        raw: Seq<char>,
        tokens: u32,
        parsed: Result<Vec<GeneratedQAPair>, String>,
        r: Result<Insertion, Finished<GenerateCardsResponse>>,
    ) -> bool {
        match r {
            Ok(next) => {
                &&& parsed matches Ok(pairs) && next.batch() == pairs@ && batch_of(
                    parsed,
                    Ok::<Vec<GeneratedQAPair>, ErrorReply>(pairs),
                )
                &&& next.set() == self.set_id
                &&& next.tokens() == tokens
                &&& next.done() == Seq::<CreatedCard>::empty()
                &&& next.logs().records(
                    self.user_id,
                    QUESTION_GENERATION@,
                    self.prompt_log@,
                    raw,
                    tokens,
                )
            },
            Err(f) => {
                &&& f.reply matches Reply::Error(e) && batch_of(
                    parsed,
                    Err::<Vec<GeneratedQAPair>, ErrorReply>(e),
                )
                &&& f.log.records(
                    self.user_id,
                    QUESTION_GENERATION@,
                    self.prompt_log@,
                    raw,
                    tokens,
                )
            },
        }
    }

    /// What comes of a reply, given what it was parsed to.
    pub fn parsed(
        self,
        raw: &str,
        tokens: u32,
        parsed: Result<Vec<GeneratedQAPair>, String>,
    ) -> (r: Result<Insertion, Finished<GenerateCardsResponse>>)
        ensures
            self.answered_of(raw@, tokens, parsed, r),
    {
        let log = log_ai_interaction(
            self.user_id,
            QUESTION_GENERATION,
            self.prompt_log.as_str(),
            raw,
            tokens,
        );
        match accept_batch(parsed) {
            Err(e) => Err(Finished { log, reply: Reply::Error(e) }),
            Ok(pairs) => {
                proof {
                    assert(batch_of(parsed, Ok::<Vec<GeneratedQAPair>, ErrorReply>(pairs)));
                }
                Ok(
                    Insertion {
                        set_id: self.set_id,
                        tokens_used: tokens,
                        log,
                        pairs,
                        created: Vec::new(),
                    },
                )
            },
        }
    }

    /// The model's answer came back. A call that failed cost nothing and is
    /// logged with the reason; a reply is parsed by `decode` and its batch is
    /// taken or rejected.
    pub fn answered<F: Fn(&str) -> Result<Vec<GeneratedQAPair>, String>>(
        self,
        outcome: Result<LLMResponse, LLMError>,
        decode: F,
    ) -> (r: Result<Insertion, Finished<GenerateCardsResponse>>)
        requires
            forall|s: &str| call_requires(decode, (s,)),
        ensures
            match outcome {
                Err(err) => r matches Err(f) && f.reply.is_error(
                    BAD_GATEWAY,
                    handlers::failure_message(err),
                ) && f.log.records(
                    self.user_id,
                    QUESTION_GENERATION@,
                    self.prompt_log@,
                    handlers::failure_placeholder(err),
                    0,
                ),
                Ok(response) => exists|parsed: Result<Vec<GeneratedQAPair>, String>| #[trigger]
                    text::lenient_outcome(decode, response.content@, parsed) && self.answered_of(
                        response.content@,
                        response.total_tokens,
                        parsed,
                        r,
                    ),
            },
    {
        match outcome {
            Err(err) => {
                let (placeholder, message) = describe_llm_failure(&err);
                let log = log_ai_interaction(
                    self.user_id,
                    QUESTION_GENERATION,
                    self.prompt_log.as_str(),
                    placeholder.as_str(),
                    0,
                );
                Err(Finished { log, reply: error_reply(BAD_GATEWAY, message.as_str()) })
            },
            Ok(response) => {
                let parsed = parse_qa_pairs(response.content.as_str(), decode);
                self.parsed(response.content.as_str(), response.total_tokens, parsed)
            },
        }
    }
}

/// One blank side anywhere rejects the whole batch, and the message names a
/// pair no later than that one.
pub proof fn law_a_blank_side_rejects_the_batch(
    pairs: Vec<GeneratedQAPair>,
    r: Result<Vec<GeneratedQAPair>, ErrorReply>,
    i: int,
)
    requires
        batch_of(Ok::<Vec<GeneratedQAPair>, String>(pairs), r),
        0 <= i < pairs@.len(),
        !usable(pairs@[i]),
    ensures
        exists|k: int|
            k <= i && #[trigger] first_unusable(pairs@, k) && (r matches Err(e) && e.says(
                BAD_GATEWAY,
                "DeepSeek returned a malformed pair at index "@ + text::decimal(k as nat)
                    + " (empty question or answer). Batch rejected; no cards inserted."@,
            )),
    decreases i,
{
    if forall|j: int| 0 <= j < i ==> usable(#[trigger] pairs@[j]) {
        assert(first_unusable(pairs@, i));
    } else {
        let j = choose|j: int| 0 <= j < i && !usable(#[trigger] pairs@[j]);
        law_a_blank_side_rejects_the_batch(pairs, r, j);
    }
}

/// The model is asked for at least one and at most [`MAX_NUM_QUESTIONS`]
/// pairs, and a number within the limit is taken as it is.
pub proof fn law_the_number_of_questions_is_bounded(n: u32)
    requires
        n > 0,
    ensures
        1 <= clamped(n) <= MAX_NUM_QUESTIONS,
        n <= MAX_NUM_QUESTIONS ==> clamped(n) == n,
{
}

/// The model is asked for short answers, and it is shown the source text.
pub proof fn law_the_prompt_asks_for_short_answers(source: Seq<char>, num_questions: u32)
    ensures
        text::contains(system_prompt(num_questions), SHORT_ANSWERS@),
        text::contains(user_prompt(source, num_questions), source),
{
    let n = text::decimal(num_questions as nat);
    assert((SYSTEM_HEAD@ + n + SYSTEM_TASK@) + SHORT_ANSWERS@ + SYSTEM_TAIL@ == system_prompt(
        num_questions,
    ));
    let rest = "\n\nGenerate "@ + n + " pairs."@;
    assert("Source text:\n\n"@ + source + rest =~= user_prompt(source, num_questions));
}

/// `steps` is a run of insertions: `rows` are what the database brought, one
/// for each step, and `end` is how the run ended.
pub open spec fn is_run(
    steps: Seq<Insertion>,
    rows: Seq<Result<CreatedCard, String>>,
    end: Finished<GenerateCardsResponse>,
) -> bool {
    &&& steps.len() > 0
    &&& rows.len() == steps.len()
    &&& forall|i: int|
        0 <= i < steps.len() - 1 ==> #[trigger] steps[i].inserted_of(
            rows[i],
            InsertionStep::Insert(steps[i + 1]),
        )
    &&& steps.last().inserted_of(rows.last(), InsertionStep::Done(end))
}

/// Step `k` of a run: everything that the run started with is kept, and the
/// cards so far are the rows so far.
proof fn lemma_step_of_a_run(
    steps: Seq<Insertion>,
    rows: Seq<Result<CreatedCard, String>>,
    end: Finished<GenerateCardsResponse>,
    k: int,
)
    requires
        is_run(steps, rows, end),
        steps[0].done().len() == 0,
        0 <= k < steps.len(),
    ensures
        steps[k].logs() == steps[0].logs(),
        steps[k].batch() == steps[0].batch(),
        steps[k].tokens() == steps[0].tokens(),
        steps[k].set() == steps[0].set(),
        steps[k].done().len() == k,
        forall|i: int|
            0 <= i < k ==> (#[trigger] rows[i]) == Ok::<CreatedCard, String>(steps[k].done()[i]),
    decreases k,
{
    if k > 0 {
        let j = k - 1;
        lemma_step_of_a_run(steps, rows, end, j);
        assert(steps[j].inserted_of(rows[j], InsertionStep::Insert(steps[j + 1])));
    }
}

/// However the insertions go, the request ends with the one log row of its
/// model call: the owner, the prompt that was sent, the reply as it came and
/// what it cost. Step `i` inserts pair `i` into the set. A run without a
/// failure ends with the stored cards, one for each pair and in order; the
/// first failure ends the run and says how far it got.
pub proof fn law_every_run_logs_its_call(
    call: GenerationCall,
    raw: Seq<char>,
    tokens: u32,
    parsed: Result<Vec<GeneratedQAPair>, String>,
    steps: Seq<Insertion>,
    rows: Seq<Result<CreatedCard, String>>,
    end: Finished<GenerateCardsResponse>,
)
    requires
        is_run(steps, rows, end),
        call.answered_of(
            raw,
            tokens,
            parsed,
            Ok::<Insertion, Finished<GenerateCardsResponse>>(steps[0]),
        ),
    ensures
        end.log.records(call.user_id, QUESTION_GENERATION@, call.prompt_log@, raw, tokens),
        parsed matches Ok(pairs) && {
            &&& forall|i: int|
                0 <= i < steps.len() ==> (#[trigger] steps[i]).set() == call.set_id
                    && steps[i].done().len() == i && steps[i].batch()[i] == pairs@[i]
            &&& forall|i: int| 0 <= i < rows.len() - 1 ==> (#[trigger] rows[i]) is Ok
            &&& match rows.last() {
                Ok(_) => end.reply matches Reply::Body { status, body } && status == CREATED
                    && body.tokens_used == tokens && rows.len() == pairs@.len()
                    && body.cards@.len() == pairs@.len() && forall|i: int|
                    0 <= i < rows.len() ==> (#[trigger] rows[i]) == Ok::<CreatedCard, String>(
                        body.cards@[i],
                    ),
                Err(text) => end.reply.is_error(
                    INTERNAL_SERVER_ERROR,
                    "card insertion failed after "@ + text::decimal((rows.len() - 1) as nat)
                        + " of "@ + text::decimal(pairs@.len()) + " cards inserted: "@ + text@,
                ),
            }
        },
{
    assert forall|i: int| 0 <= i < steps.len() implies (#[trigger] steps[i]).set() == call.set_id
        && steps[i].done().len() == i && steps[i].batch() == steps[0].batch() by {
        lemma_step_of_a_run(steps, rows, end, i);
    }
    lemma_step_of_a_run(steps, rows, end, steps.len() - 1);
}

} // verus!
