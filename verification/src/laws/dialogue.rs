//! Laws of the Socratic dialogue.

use vstd::prelude::*;

use crate::deepseek::{ChatCompletionsRequest, DeepSeekMessage};
use crate::handlers::socratic;
use crate::handlers::socratic::{
    build_system_prompt, card_context, history_reply, parse_socratic_response, session_exists,
    Answered, CardContentRow, MessageOut, MessageRow, ReplyCall, ReplyHistory, ReplyMessage,
    ReplyRequest, ReplyResponse, ReplySession, SessionHistoryResponse, SessionRow,
    SocraticAIResponse, Start, StartCall, StartInsertion, StartRequest, StartResponse,
    TutorMessage,
};
use crate::handlers::{AiInteraction, DbError, Finished};
use crate::http::{ErrorReply, Reply};
use crate::ids;
use crate::ids::RecordId;
use crate::laws;
use crate::laws::texts;
use crate::llm_provider::{LLMError, LLMResponse};
use crate::text;

verus! {

/// The first `n` cards, question before answer, one after the other.
pub open spec fn told(cards: Seq<CardContentRow>, n: nat) -> Seq<char>
    decreases n,
{
    if n == 0 {
        Seq::empty()
    } else {
        told(cards, (n - 1) as nat) + "Q: "@ + cards[n - 1].question@ + "\nA: "@ + cards[n
            - 1].answer@ + "\n\n"@
    }
}

/// `material` is as many whole cards, from the first on, as fit into 6000
/// characters.
pub open spec fn is_material(cards: Seq<CardContentRow>, material: Seq<char>) -> bool {
    exists|n: nat|
        {
            &&& n <= cards.len()
            &&& material == #[trigger] told(cards, n)
            &&& material.len() <= 6000
            &&& n < cards.len() ==> told(cards, n + 1).len() > 6000
        }
}

proof fn lemma_told(cards: Seq<CardContentRow>, n: nat)
    requires
        n <= cards.len(),
    ensures
        told(cards, n) == socratic::entries(cards.take(n as int)),
    decreases n,
{
    let taken = cards.take(n as int);
    if n > 0 {
        lemma_told(cards, (n - 1) as nat);
        assert(taken.drop_last() =~= cards.take(n - 1));
        assert(taken.last() == cards[n - 1]);
        assert(told(cards, n) =~= socratic::entries(taken.drop_last()) + socratic::entry(
            taken.last(),
        ));
    } else {
        assert(taken =~= Seq::<CardContentRow>::empty());
    }
}

proof fn lemma_material(cards: Seq<CardContentRow>, context: Seq<char>)
    requires
        socratic::context_of(cards, context),
    ensures
        is_material(cards, context),
{
    let n = choose|n: int|
        #[trigger] socratic::fit(cards, n) && context == socratic::entries(cards.take(n));
    lemma_told(cards, n as nat);
    if n < cards.len() {
        lemma_told(cards, (n + 1) as nat);
    }
    assert(context == told(cards, n as nat));
}

/// The material of a set is made of its cards, whole and from the first on, and
/// a set without cards has none.
pub proof fn law_the_material_is_made_of_the_cards(
    cards: &Vec<CardContentRow>,
    r: Option<String>,
)
    requires
        call_ensures(card_context, (cards,), r),
    ensures
        r is None <==> cards@.len() == 0,
        r matches Some(material) ==> is_material(cards@, material@),
{
    if let Some(material) = r {
        lemma_material(cards@, material@);
    }
}

/// What the tutor is told to do with the material.
pub open spec fn instructions(material: Seq<char>) -> Seq<char> {
    "You are a Socratic tutor. Your goal is to help the student understand the material through guided questioning — NOT by giving direct answers.\n\nRules:\n1. Ask probing, guiding questions that lead the student to discover the answer themselves.\n2. If the student's answer is correct, affirm it briefly and move to a deeper or related question.\n3. If the student's answer contains a misconception, ask a question that will help them see the error — do NOT simply state the correction.\n4. Build on what the student says. Refer to their previous answers.\n5. Do NOT lecture or give long explanations. Your messages should be concise: ideally 1-4 sentences plus a question.\n\nThe material this session covers:\n"@
        + material
        + "\n\nRespond with ONLY valid JSON: {\"reply\": string, \"flagged_misconception\": string | null}. The `reply` field is your message to the student. The `flagged_misconception` field is a short description of any misconception you detected in the student's last message, or null if the answer was correct or if this is the opening question. No prose, no markdown fences, no commentary outside the JSON."@
}

/// The prompt gives the tutor its instructions and the material.
pub proof fn law_the_tutor_is_given_the_material(material: &str, r: String)
    requires
        call_ensures(build_system_prompt, (material,), r),
    ensures
        r@ == instructions(material@),
{
}

/// A reply of the tutor is read leniently.
pub proof fn law_a_tutor_reply_is_read_leniently<
    F: Fn(&str) -> Result<SocraticAIResponse, String>,
>(
    raw: &str,
    decode: F,
    first: Result<SocraticAIResponse, String>,
    second: Result<SocraticAIResponse, String>,
    r: Result<SocraticAIResponse, String>,
)
    requires
        call_ensures(parse_socratic_response::<F>, (raw, decode), r),
        laws::always(decode, raw@, first),
        laws::always(decode, text::unfenced(raw@), second),
    ensures
        texts::read_leniently(first, second, r),
{
    texts::lemma_lenient(decode, raw@, first, second, r);
}

/// A session starts, for its own set and user, exactly where the set exists.
pub proof fn law_a_session_needs_its_set(
    request: StartRequest,
    found: Result<bool, String>,
    r: Result<Start, Reply<StartResponse>>,
)
    requires
        call_ensures(StartRequest::set_found, (request, found), r),
    ensures
        r is Ok <==> found == Ok::<bool, String>(true),
        r matches Ok(next) ==> next.study_set_id == request.study_set_id && next.user_id
            == request.user_id,
        found matches Ok(present) ==> (!present ==> (r matches Err(e) && laws::refused(
            e,
            404,
            "study set "@ + ids::hyphenated(request.study_set_id) + " not found"@,
        ))),
        found matches Err(text) ==> (r matches Err(e) && laws::refused(
            e,
            500,
            "database error looking up study set: "@ + text@,
        )),
{
}

/// A session goes on, for its own set and user, exactly where there is
/// something to discuss, and it discusses the material of the set.
pub proof fn law_a_session_discusses_its_cards(
    start: Start,
    cards: Result<Vec<CardContentRow>, String>,
    r: Result<StartInsertion, Reply<StartResponse>>,
)
    requires
        call_ensures(Start::cards_found, (start, cards), r),
    ensures
        r is Ok <==> (cards matches Ok(cards) && cards@.len() > 0),
        r matches Ok(next) ==> next.study_set_id == start.study_set_id && next.user_id
            == start.user_id && (cards matches Ok(cards) && is_material(
            cards@,
            next.card_context@,
        )),
        cards matches Ok(cards) ==> (cards@.len() == 0 ==> (r matches Err(e) && laws::refused(
            e,
            400,
            "study set has no cards — nothing to discuss yet, generate some cards first"@,
        ))),
        cards matches Err(text) ==> (r matches Err(e) && laws::refused(
            e,
            500,
            "database error fetching cards: "@ + text@,
        )),
{
    if let Ok(next) = r {
        if let Ok(cards) = cards {
            lemma_material(cards@, next.card_context@);
        }
    }
}

/// A stored session opens with one question about its material, in the name of
/// its user. A user that does not exist is the caller's mistake, and any other
/// error is the server's.
pub proof fn law_a_session_opens_with_a_question(
    insertion: StartInsertion,
    row: Result<SessionRow, DbError>,
    r: Result<StartCall, Reply<StartResponse>>,
)
    requires
        call_ensures(StartInsertion::session_inserted, (insertion, row), r),
    ensures
        r is Ok <==> row is Ok,
        row matches Ok(session) ==> (r matches Ok(call) && call.session_id == session.id
            && call.user_id == insertion.user_id && call.messages@.len() == 2 && laws::wire(
            call.messages@[0],
            "system"@,
            instructions(insertion.card_context@),
        ) && laws::wire(
            call.messages@[1],
            "user"@,
            "Begin the session. Ask ONE opening question."@,
        ) && call.prompt_log@ == "[socratic:start]\n[system] "@ + instructions(
            insertion.card_context@,
        ) + "\n[user] Begin the session."@),
        row matches Err(error) ==> (r matches Err(e) && if error.sqlstate matches Some(code)
            && code@ == "23503"@ {
            laws::refused(e, 400, "user_id does not exist (foreign key violation)"@)
        } else {
            laws::refused(e, 500, "database error: "@ + error.text@)
        }),
{
}

/// What is sent is the call's messages, to the default model, in one piece.
pub proof fn law_a_dialogue_is_sent_whole<'a>(
    start: &'a StartCall,
    reply: &'a ReplyCall,
    r: ChatCompletionsRequest<'a>,
    s: ChatCompletionsRequest<'a>,
)
    requires
        call_ensures(StartCall::request, (start,), r),
        call_ensures(ReplyCall::request, (reply,), s),
    ensures
        r.messages@ == start.messages@ && r.model@ == "deepseek-v4-flash"@ && !r.stream,
        s.messages@ == reply.messages@ && s.model@ == "deepseek-v4-flash"@ && !s.stream,
{
}

/// The log row of a dialogue call.
pub open spec fn recorded(
    log: AiInteraction,
    user_id: RecordId,
    prompt: Seq<char>,
    output: Seq<char>,
    tokens: u32,
) -> bool {
    laws::logs(log, user_id, "socratic_dialogue"@, prompt, output, tokens)
}

/// The message stores what the tutor said in this session: its words, and the
/// misconception that was flagged, which is there exactly where one was.
pub open spec fn stores(
    message: TutorMessage,
    session_id: RecordId,
    answer: SocraticAIResponse,
) -> bool {
    &&& message.session_id == session_id
    &&& message.content@ == answer.reply@
    &&& laws::same_option(message.flagged_misconception, answer.flagged_misconception)
}

/// A call whose reply could not be read: the caller is told so.
pub open spec fn unread<T>(reply: Reply<T>, error: Seq<char>) -> bool {
    laws::refused(reply, 502, "DeepSeek returned non-JSON output, parse failed: "@ + error)
}

/// What comes of the opening question.
pub open spec fn opens(
    call: StartCall,
    response: LLMResponse,
    parsed: Result<SocraticAIResponse, String>,
    r: Result<Answered<StartResponse>, Finished<StartResponse>>,
) -> bool {
    match parsed {
        Ok(answer) => r matches Ok(a) && stores(a.message, call.session_id, answer) && recorded(
            a.finished.log,
            call.user_id,
            call.prompt_log@,
            response.content@,
            response.total_tokens,
        ) && (a.finished.reply matches Reply::Body { status, body } && status == 201
            && body.session_id == call.session_id && body.opening_message@ == answer.reply@),
        Err(error) => r matches Err(end) && unread(end.reply, error@) && recorded(
            end.log,
            call.user_id,
            call.prompt_log@,
            response.content@,
            response.total_tokens,
        ),
    }
}

/// The tutor's opening question is stored and sent as the model gave it.
pub proof fn law_the_opening_question_is_the_tutors(
    call: StartCall,
    response: &LLMResponse,
    parsed: Result<SocraticAIResponse, String>,
    r: Result<Answered<StartResponse>, Finished<StartResponse>>,
)
    requires
        call_ensures(StartCall::parsed, (call, response, parsed), r),
    ensures
        opens(call, *response, parsed, r),
{
}

/// The same holds of a reply that is still to be read, with or without its
/// fences.
pub proof fn law_an_opening_reply_is_read<F: Fn(&str) -> Result<SocraticAIResponse, String>>(
    call: StartCall,
    response: LLMResponse,
    decode: F,
    first: Result<SocraticAIResponse, String>,
    second: Result<SocraticAIResponse, String>,
    r: Result<Answered<StartResponse>, Finished<StartResponse>>,
)
    requires
        call_ensures(
            StartCall::answered::<F>,
            (call, Ok::<LLMResponse, LLMError>(response), decode),
            r,
        ),
        laws::always(decode, response.content@, first),
        laws::always(decode, text::unfenced(response.content@), second),
    ensures
        exists|parsed: Result<SocraticAIResponse, String>| #[trigger]
            texts::read_leniently(first, second, parsed) && opens(call, response, parsed, r),
{
    let parsed = choose|parsed: Result<SocraticAIResponse, String>| #[trigger]
        text::lenient_outcome(decode, response.content@, parsed) && call.answered_of(
            response,
            parsed,
            r,
        );
    texts::lemma_lenient(decode, response.content@, first, second, parsed);
    assert(opens(call, response, parsed, r));
}

/// What comes of the tutor's answer: the student gets the tutor's words and the
/// misconception, which is flagged exactly where the model flagged one and then
/// in the model's words; the same is stored.
pub open spec fn answers(
    call: ReplyCall,
    response: LLMResponse,
    parsed: Result<SocraticAIResponse, String>,
    r: Result<Answered<ReplyResponse>, Finished<ReplyResponse>>,
) -> bool {
    match parsed {
        Ok(answer) => r matches Ok(a) && stores(a.message, call.session_id, answer) && recorded(
            a.finished.log,
            call.user_id,
            call.prompt_log@,
            response.content@,
            response.total_tokens,
        ) && (a.finished.reply matches Reply::Body { status, body } && status == 201
            && body.reply@ == answer.reply@ && laws::same_option(
            body.flagged_misconception,
            answer.flagged_misconception,
        )),
        Err(error) => r matches Err(end) && unread(end.reply, error@) && recorded(
            end.log,
            call.user_id,
            call.prompt_log@,
            response.content@,
            response.total_tokens,
        ),
    }
}

/// A misconception is flagged exactly where the model flagged one, to the
/// student and in the session alike.
pub proof fn law_a_misconception_is_the_models(
    call: ReplyCall,
    response: &LLMResponse,
    parsed: Result<SocraticAIResponse, String>,
    r: Result<Answered<ReplyResponse>, Finished<ReplyResponse>>,
)
    requires
        call_ensures(ReplyCall::parsed, (call, response, parsed), r),
    ensures
        answers(call, *response, parsed, r),
{
}

/// The same holds of a reply that is still to be read, with or without its
/// fences.
pub proof fn law_a_tutor_reply_is_read<F: Fn(&str) -> Result<SocraticAIResponse, String>>(
    call: ReplyCall,
    response: LLMResponse,
    decode: F,
    first: Result<SocraticAIResponse, String>,
    second: Result<SocraticAIResponse, String>,
    r: Result<Answered<ReplyResponse>, Finished<ReplyResponse>>,
)
    requires
        call_ensures(
            ReplyCall::answered::<F>,
            (call, Ok::<LLMResponse, LLMError>(response), decode),
            r,
        ),
        laws::always(decode, response.content@, first),
        laws::always(decode, text::unfenced(response.content@), second),
    ensures
        exists|parsed: Result<SocraticAIResponse, String>| #[trigger]
            texts::read_leniently(first, second, parsed) && answers(call, response, parsed, r),
{
    let parsed = choose|parsed: Result<SocraticAIResponse, String>| #[trigger]
        text::lenient_outcome(decode, response.content@, parsed) && call.answered_of(
            response,
            parsed,
            r,
        );
    texts::lemma_lenient(decode, response.content@, first, second, parsed);
    assert(answers(call, response, parsed, r));
}

/// A call that failed ends the request with the failure told, and is logged at
/// no cost with the failure as its output. Nothing is stored for the tutor.
pub proof fn law_a_failed_turn_is_told_and_logged<
    F: Fn(&str) -> Result<SocraticAIResponse, String>,
>(
    start: StartCall,
    reply: ReplyCall,
    err: LLMError,
    decode: F,
    told: (String, String),
    r: Result<Answered<StartResponse>, Finished<StartResponse>>,
    s: Result<Answered<ReplyResponse>, Finished<ReplyResponse>>,
)
    requires
        call_ensures(
            StartCall::answered::<F>,
            (start, Err::<LLMResponse, LLMError>(err), decode),
            r,
        ),
        call_ensures(
            ReplyCall::answered::<F>,
            (reply, Err::<LLMResponse, LLMError>(err), decode),
            s,
        ),
        call_ensures(crate::handlers::describe_llm_failure, (&err,), told),
    ensures
        r matches Err(end) && laws::refused(end.reply, 502, told.1@) && recorded(
            end.log,
            start.user_id,
            start.prompt_log@,
            told.0@,
            0,
        ),
        s matches Err(end) && laws::refused(end.reply, 502, told.1@) && recorded(
            end.log,
            reply.user_id,
            reply.prompt_log@,
            told.0@,
            0,
        ),
{
}

/// A stored message carries its speaker's role.
pub proof fn law_a_stored_message_carries_its_role(
    tutor: &TutorMessage,
    student: &ReplyMessage,
    r: &'static str,
    s: &'static str,
)
    requires
        call_ensures(TutorMessage::role, (tutor,), r),
        call_ensures(ReplyMessage::role, (student,), s),
    ensures
        r@ == "assistant"@,
        s@ == "user"@,
{
}

/// A reply goes on, with the student's words and for the session's own user and
/// set, exactly where the session exists.
pub proof fn law_a_reply_needs_its_session(
    request: ReplyRequest,
    session_id: RecordId,
    lookup: Result<Option<SessionRow>, String>,
    r: Result<ReplySession, Reply<ReplyResponse>>,
)
    requires
        call_ensures(ReplyRequest::session_found, (request, session_id, lookup), r),
    ensures
        r is Ok <==> (lookup matches Ok(Some(_))),
        lookup matches Ok(Some(session)) ==> (r matches Ok(next) && next.session_id == session_id
            && next.user_id == session.user_id && next.set_id == session.set_id
            && next.message@ == request.message@),
        lookup matches Ok(None) ==> (r matches Err(e) && laws::refused(
            e,
            404,
            "socratic session "@ + ids::hyphenated(session_id) + " not found"@,
        )),
        lookup matches Err(text) ==> (r matches Err(e) && laws::refused(
            e,
            500,
            "database error: "@ + text@,
        )),
{
}

/// A reply goes on as it is exactly where the session has fewer than 40
/// messages.
pub proof fn law_a_full_session_takes_no_reply(
    session: ReplySession,
    count: Result<i64, String>,
    r: Result<ReplyMessage, Reply<ReplyResponse>>,
)
    requires
        call_ensures(ReplySession::counted, (session, count), r),
    ensures
        r is Ok <==> (count matches Ok(n) && n < 40),
        r matches Ok(next) ==> next.session_id == session.session_id && next.user_id
            == session.user_id && next.set_id == session.set_id && next.message@
            == session.message@,
        count matches Ok(n) ==> (n >= 40 ==> (r matches Err(e) && laws::refused(
            e,
            400,
            "session has reached its turn limit"@,
        ))),
        count matches Err(text) ==> (r matches Err(e) && laws::refused(
            e,
            500,
            "database error counting messages: "@ + text@,
        )),
{
}

/// Of a history the latest 20 messages are kept, all of them where there are
/// fewer, in order and as they are.
pub proof fn law_the_latest_messages_are_kept(
    message: ReplyMessage,
    history: Result<Vec<MessageRow>, String>,
    i: int,
    r: Result<ReplyHistory, Reply<ReplyResponse>>,
)
    requires
        call_ensures(ReplyMessage::history_found, (message, history), r),
    ensures
        r is Ok <==> history is Ok,
        history matches Err(text) ==> (r matches Err(e) && laws::refused(
            e,
            500,
            "database error fetching history: "@ + text@,
        )),
        r matches Ok(next) ==> next.session_id == message.session_id && next.user_id
            == message.user_id && next.set_id == message.set_id,
        r matches Ok(next) ==> (history matches Ok(all) && {
            &&& all@.len() <= 20 ==> next.recent@.len() == all@.len()
            &&& all@.len() > 20 ==> next.recent@.len() == 20
            &&& 0 <= i < next.recent@.len() ==> next.recent@[i] == all@[all@.len()
                - next.recent@.len() + i]
        }),
{
}

/// The messages of the student and of the tutor, in order.
pub open spec fn spoken(messages: Seq<MessageRow>) -> Seq<MessageRow>
    decreases messages.len(),
{
    if messages.len() == 0 {
        Seq::empty()
    } else if messages.last().role@ == "user"@ || messages.last().role@ == "assistant"@ {
        spoken(messages.drop_last()).push(messages.last())
    } else {
        spoken(messages.drop_last())
    }
}

proof fn lemma_spoken(messages: Seq<MessageRow>)
    ensures
        spoken(messages) == socratic::turns(messages),
    decreases messages.len(),
{
    reveal(Seq::filter);
    if messages.len() > 0 {
        lemma_spoken(messages.drop_last());
    }
}

/// Where only the student and the tutor spoke, every message was spoken.
pub proof fn law_a_dialogue_is_spoken_whole(messages: Seq<MessageRow>)
    requires
        forall|i: int|
            0 <= i < messages.len() ==> (#[trigger] messages[i]).role@ == "user"@
                || messages[i].role@ == "assistant"@,
    ensures
        spoken(messages) == messages,
    decreases messages.len(),
{
    if messages.len() > 0 {
        let before = messages.drop_last();
        assert forall|i: int| 0 <= i < before.len() implies (#[trigger] before[i]).role@
            == "user"@ || before[i].role@ == "assistant"@ by {
            assert(before[i] == messages[i]);
        }
        law_a_dialogue_is_spoken_whole(before);
        assert(messages[messages.len() - 1] == messages.last());
        assert(before.push(messages.last()) =~= messages);
    }
}

/// The tutor is shown its instructions with the material, and then what was
/// spoken, in order, each message with its own role and words.
pub open spec fn shown(
    messages: Seq<DeepSeekMessage>,
    material: Seq<char>,
    recent: Seq<MessageRow>,
) -> bool {
    &&& messages.len() == spoken(recent).len() + 1
    &&& laws::wire(messages[0], "system"@, instructions(material))
    &&& forall|i: int|
        0 <= i < spoken(recent).len() ==> laws::wire(
            #[trigger] messages[i + 1],
            spoken(recent)[i].role@,
            spoken(recent)[i].content@,
        )
}

/// The tutor is shown the material of the set and what was spoken lately; a
/// session whose cards are gone cannot go on.
pub proof fn law_the_tutor_is_shown_what_was_spoken(
    history: ReplyHistory,
    cards: Result<Vec<CardContentRow>, String>,
    r: Result<ReplyCall, Reply<ReplyResponse>>,
)
    requires
        call_ensures(ReplyHistory::cards_found, (history, cards), r),
    ensures
        r is Ok <==> (cards matches Ok(cards) && cards@.len() > 0),
        r matches Ok(call) ==> call.session_id == history.session_id && call.user_id
            == history.user_id && (cards matches Ok(cards) && exists|material: Seq<char>|
            {
                &&& #[trigger] is_material(cards@, material)
                &&& shown(call.messages@, material, history.recent@)
                &&& call.prompt_log@ == "[socratic:reply]\n[system] "@ + instructions(material)
                    + "\n["@ + text::decimal(history.recent@.len())
                    + " messages in context window]"@
            }),
        cards matches Ok(cards) ==> (cards@.len() == 0 ==> (r matches Err(e) && laws::refused(
            e,
            400,
            "study set no longer has cards — session cannot continue"@,
        ))),
        cards matches Err(text) ==> (r matches Err(e) && laws::refused(
            e,
            500,
            "database error fetching cards: "@ + text@,
        )),
{
    lemma_spoken(history.recent@);
    if let Ok(call) = r {
        let context = choose|context: String| #[trigger]
            socratic::material_of(
                cards,
                socratic::NOTHING_LEFT@,
                Ok::<String, Reply<ReplyResponse>>(context),
            ) && socratic::chat_of(
                call.messages@,
                socratic::system_prompt(context@),
                socratic::turns(history.recent@),
            ) && call.prompt_log@ == socratic::reply_log(context@, history.recent@.len());
        if let Ok(cards) = cards {
            lemma_material(cards@, context@);
            assert(is_material(cards@, context@));
            let spoke = spoken(history.recent@);
            assert forall|i: int| 0 <= i < spoke.len() implies laws::wire(
                #[trigger] call.messages@[i + 1],
                spoke[i].role@,
                spoke[i].content@,
            ) by {
                assert(call.messages@[i + 1].says(spoke[i].role@, spoke[i].content@));
            }
        }
    }
}

/// A session is read back exactly where it exists.
pub proof fn law_a_session_is_read_where_it_exists(
    session_id: RecordId,
    found: Result<bool, String>,
    r: Result<(), ErrorReply>,
)
    requires
        call_ensures(session_exists, (session_id, found), r),
    ensures
        r is Ok <==> found == Ok::<bool, String>(true),
        found matches Ok(present) ==> (!present ==> (r matches Err(e) && e.status == 404
            && e.message@ == "socratic session "@ + ids::hyphenated(session_id) + " not found"@)),
        found matches Err(text) ==> (r matches Err(e) && e.status == 500 && e.message@
            == "database error: "@ + text@),
{
}

/// A session is read back whole: its own id, and every message in order.
pub proof fn law_a_session_is_read_back_whole(
    session_id: RecordId,
    messages: Result<Vec<MessageOut>, String>,
    r: Reply<SessionHistoryResponse>,
)
    requires
        call_ensures(history_reply, (session_id, messages), r),
    ensures
        messages matches Ok(messages) ==> (r matches Reply::Body { status, body } && status == 200
            && body.session_id == session_id && body.messages@ == messages@),
        messages matches Err(text) ==> laws::refused(r, 500, "database error: "@ + text@),
{
}

} // verus!
