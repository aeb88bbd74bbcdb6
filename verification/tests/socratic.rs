//! The Socratic dialogue, on the server and on the screen.

use mnemosyne::frontend::api::{api_url, check_get, check_post, ApiFailure};
use mnemosyne::frontend::chat::{ChatMessage, ChatPhase};
use mnemosyne::frontend::setup::{SetupPhase, StudySet, User};
use mnemosyne::frontend::{setup, App, Phase};
use mnemosyne::handlers::socratic::{
    build_system_prompt, card_context, history_reply, parse_socratic_response, session_exists,
    CardContentRow, MessageOut, MessageRow, ReplyCall, ReplyMessage, ReplyRequest, ReplyResponse,
    SessionRow, SocraticAIResponse, StartCall, StartRequest,
};
use mnemosyne::handlers::DbError;
use mnemosyne::http::Reply;
use mnemosyne::llm_provider::{LLMError, LLMResponse};
use mnemosyne::time::Timestamp;
use serde_json::Value;

fn tutor(text: &str) -> Result<SocraticAIResponse, String> {
    let value: Value = serde_json::from_str(text).map_err(|e| e.to_string())?;
    let reply = value
        .get("reply")
        .and_then(|v| v.as_str())
        .ok_or_else(|| "missing field `reply`".to_string())?;
    let flagged = value.get("flagged_misconception").and_then(|v| v.as_str());
    Ok(SocraticAIResponse {
        reply: reply.to_string(),
        flagged_misconception: flagged.map(|s| s.to_string()),
    })
}

fn says<T>(reply: &Reply<T>) -> (u16, &str) {
    match reply {
        Reply::Error(e) => (e.status, e.message.as_str()),
        Reply::Body { .. } => panic!("expected an error"),
    }
}

fn card(question: &str, answer: &str) -> CardContentRow {
    CardContentRow { question: question.to_string(), answer: answer.to_string() }
}

fn message(role: &str, content: &str) -> MessageRow {
    MessageRow { role: role.to_string(), content: content.to_string() }
}

fn answer(content: &str) -> Result<LLMResponse, LLMError> {
    Ok(LLMResponse { content: content.to_string(), total_tokens: 50 })
}

fn start_call() -> StartCall {
    StartRequest { study_set_id: 1, user_id: 2 }
        .set_found(Ok(true))
        .unwrap()
        .cards_found(Ok(vec![card("q", "a")]))
        .unwrap()
        .session_inserted(Ok(SessionRow { id: 3, user_id: 2, set_id: 1 }))
        .unwrap()
}

fn reply_message() -> ReplyMessage {
    ReplyRequest { message: "because".to_string() }
        .session_found(3, Ok(Some(SessionRow { id: 3, user_id: 2, set_id: 1 })))
        .unwrap()
        .counted(Ok(39))
        .unwrap()
}

fn reply_call(history: Vec<MessageRow>) -> ReplyCall {
    reply_message()
        .history_found(Ok(history))
        .unwrap()
        .cards_found(Ok(vec![card("q", "a")]))
        .unwrap()
}

#[test]
fn the_material_is_made_of_whole_cards() {
    assert!(card_context(&vec![]).is_none());
    assert_eq!(
        card_context(&vec![card("q1", "a1"), card("q2", "a2")]).unwrap(),
        "Q: q1\nA: a1\n\nQ: q2\nA: a2\n\n"
    );
}

#[test]
fn the_material_stops_at_the_cap() {
    // An entry has nine characters besides its question and its answer.
    let long = |n: usize| card(&"x".repeat(n), "");
    assert_eq!(card_context(&vec![long(5991)]).unwrap().len(), 6000);
    assert_eq!(card_context(&vec![long(5992)]).unwrap(), "");
    assert_eq!(card_context(&vec![long(2991), long(2991)]).unwrap().len(), 6000);
    let stopped = card_context(&vec![long(2991), long(2992), card("q", "a")]).unwrap();
    assert_eq!(stopped.len(), 3000);
}

#[test]
fn the_cap_is_measured_in_characters() {
    let question = "é".repeat(3000);
    assert_eq!(
        card_context(&vec![card(&question, "a")]).unwrap(),
        format!("Q: {question}\nA: a\n\n")
    );
    let long = |n: usize| card(&"é".repeat(n), "");
    assert_eq!(card_context(&vec![long(5991)]).unwrap().chars().count(), 6000);
    assert_eq!(card_context(&vec![long(5992)]).unwrap(), "");
}

#[test]
fn the_tutor_reads_its_rules_and_the_material() {
    let prompt = build_system_prompt("Q: q\nA: a\n\n");
    assert!(prompt.starts_with(
        "You are a Socratic tutor. Your goal is to help the student understand the material \
         through guided questioning — NOT by giving direct answers.\n\nRules:\n1. Ask probing"
    ));
    assert!(prompt.contains(
        "\n\nThe material this session covers:\nQ: q\nA: a\n\n\n\nRespond with ONLY valid JSON: \
         {\"reply\": string, \"flagged_misconception\": string | null}. The `reply` field"
    ));
    assert!(prompt.ends_with("No prose, no markdown fences, no commentary outside the JSON."));
    assert_eq!(prompt.matches("\n1. ").count(), 1);
    assert_eq!(prompt.matches("\n5. Do NOT lecture").count(), 1);
}

#[test]
fn a_tutor_reply_is_read_with_and_without_fences() {
    let raw = r#"{"reply":"Why?","flagged_misconception":null}"#;
    assert_eq!(parse_socratic_response(raw, tutor).unwrap().reply, "Why?");
    let fenced = "```\n{\"reply\":\"Why?\",\"flagged_misconception\":\"mass\"}\n```";
    let read = parse_socratic_response(fenced, tutor).unwrap();
    assert_eq!(read.flagged_misconception.as_deref(), Some("mass"));
    assert!(parse_socratic_response("Why?", tutor).is_err());
}

#[test]
fn a_session_starts_with_a_question() {
    let call = start_call();
    assert_eq!(call.session_id, 3);
    assert_eq!(call.messages[0].content, build_system_prompt("Q: q\nA: a\n\n"));
    assert_eq!(call.messages[1].content, "Begin the session. Ask ONE opening question.");
    assert_eq!(
        call.prompt_log,
        format!(
            "[socratic:start]\n[system] {}\n[user] Begin the session.",
            call.messages[0].content
        )
    );
    let request = call.request();
    assert_eq!((request.model, request.stream), ("deepseek-v4-flash", false));
    assert_eq!(request.messages.len(), 2);
    let raw = r#"{"reply":"What is mass?"}"#;
    let answered = call.answered(answer(raw), tutor).unwrap();
    assert_eq!((answered.message.session_id, answered.message.content.as_str()), (3, "What is mass?"));
    assert_eq!(answered.message.flagged_misconception, None);
    assert_eq!(answered.message.role(), "assistant");
    assert_eq!(reply_message().role(), "user");
    assert_eq!(answered.finished.log.interaction_type, "socratic_dialogue");
    assert_eq!(answered.finished.log.output_text, raw);
    assert_eq!(answered.finished.log.tokens_used, 50);
    assert!(matches!(
        answered.finished.reply,
        Reply::Body { status: 201, body }
            if body.session_id == 3 && body.opening_message == "What is mass?"
    ));
}

#[test]
fn a_start_can_be_refused() {
    let request = || StartRequest { study_set_id: 1, user_id: 2 };
    assert_eq!(
        says(&request().set_found(Ok(false)).unwrap_err()),
        (404, "study set 00000000-0000-0000-0000-000000000001 not found")
    );
    assert_eq!(
        says(&request().set_found(Err("down".to_string())).unwrap_err()),
        (500, "database error looking up study set: down")
    );
    let found = || request().set_found(Ok(true)).unwrap();
    assert_eq!(
        says(&found().cards_found(Ok(vec![])).unwrap_err()),
        (400, "study set has no cards — nothing to discuss yet, generate some cards first")
    );
    assert_eq!(
        says(&found().cards_found(Err("down".to_string())).unwrap_err()),
        (500, "database error fetching cards: down")
    );
    let insertion = || found().cards_found(Ok(vec![card("q", "a")])).unwrap();
    let error = |code: &str| DbError { sqlstate: Some(code.to_string()), text: "t".to_string() };
    assert_eq!(
        says(&insertion().session_inserted(Err(error("23503"))).unwrap_err()),
        (400, "user_id does not exist (foreign key violation)")
    );
    assert_eq!(
        says(&insertion().session_inserted(Err(error("23505"))).unwrap_err()),
        (500, "database error: t")
    );
}

#[test]
fn a_failed_dialogue_call_is_logged_all_the_same() {
    let dead = start_call()
        .answered(Err(LLMError::Http { status: 401, body: "no".to_string() }), tutor)
        .unwrap_err();
    assert_eq!(says(&dead.reply), (502, "DeepSeek API call failed: upstream HTTP 401: no"));
    assert_eq!(
        dead.log.output_text,
        "[no response received from DeepSeek — call failed: upstream HTTP 401: no]"
    );
    assert_eq!(dead.log.tokens_used, 0);
    let truncated = || Err(LLMError::Truncated { finish_reason: "length".to_string() });
    let cut = start_call().answered(truncated(), tutor).unwrap_err();
    assert!(says(&cut.reply).1.contains("token limit"));
    assert!(cut.log.output_text.starts_with("[truncated by the token budget"));
    let cut = reply_call(vec![]).answered(truncated(), tutor).unwrap_err();
    assert!(says(&cut.reply).1.contains("token limit"));
    let prose = reply_call(vec![]).answered(answer("Well."), tutor).unwrap_err();
    assert!(says(&prose.reply).1.starts_with("DeepSeek returned non-JSON output, parse failed: "));
    assert_eq!((prose.log.output_text.as_str(), prose.log.tokens_used), ("Well.", 50));
}

#[test]
fn a_full_session_takes_no_reply() {
    let session = || {
        ReplyRequest { message: "m".to_string() }
            .session_found(3, Ok(Some(SessionRow { id: 3, user_id: 2, set_id: 1 })))
            .unwrap()
    };
    assert_eq!(
        says(&session().counted(Ok(40)).unwrap_err()),
        (400, "session has reached its turn limit")
    );
    assert_eq!(session().counted(Ok(39)).unwrap().message, "m");
    assert_eq!(
        says(&session().counted(Err("down".to_string())).unwrap_err()),
        (500, "database error counting messages: down")
    );
}

#[test]
fn a_missing_session_takes_no_reply() {
    let request = || ReplyRequest { message: "m".to_string() };
    assert_eq!(
        says(&request().session_found(5, Ok(None)).unwrap_err()),
        (404, "socratic session 00000000-0000-0000-0000-000000000005 not found")
    );
    assert_eq!(
        says(&request().session_found(5, Err("down".to_string())).unwrap_err()),
        (500, "database error: down")
    );
}

#[test]
fn the_model_sees_the_latest_turns() {
    let mut history: Vec<MessageRow> = Vec::new();
    for i in 0..30 {
        let role = if i % 2 == 0 { "assistant" } else { "user" };
        history.push(message(role, &format!("turn {i}")));
    }
    let call = reply_call(history);
    assert_eq!(call.messages.len(), 21);
    assert_eq!(call.request().model, "deepseek-v4-flash");
    assert_eq!(call.request().messages.len(), 21);
    assert_eq!(call.messages[0].role, "system");
    assert_eq!((call.messages[1].role, call.messages[1].content.as_str()), ("assistant", "turn 10"));
    assert_eq!((call.messages[20].role, call.messages[20].content.as_str()), ("user", "turn 29"));
    assert_eq!(
        call.prompt_log,
        format!(
            "[socratic:reply]\n[system] {}\n[20 messages in context window]",
            call.messages[0].content
        )
    );
}

#[test]
fn other_roles_are_not_sent() {
    let call = reply_call(vec![message("system", "x"), message("user", "hi")]);
    assert_eq!(call.messages.len(), 2);
    assert_eq!(call.messages[1].content, "hi");
    assert!(call.prompt_log.ends_with("\n[2 messages in context window]"));
}

#[test]
fn a_reply_carries_the_misconception() {
    let raw = r#"{"reply":"Is it?","flagged_misconception":"force is speed"}"#;
    let answered = reply_call(vec![message("user", "hi")]).answered(answer(raw), tutor).unwrap();
    assert_eq!(answered.message.flagged_misconception.as_deref(), Some("force is speed"));
    assert!(matches!(
        answered.finished.reply,
        Reply::Body { status: 201, body }
            if body.reply == "Is it?"
                && body.flagged_misconception.as_deref() == Some("force is speed")
    ));
}

#[test]
fn a_reply_can_fail_on_the_way() {
    assert_eq!(
        says(&reply_message().history_found(Err("down".to_string())).unwrap_err()),
        (500, "database error fetching history: down")
    );
    let history = || reply_message().history_found(Ok(vec![])).unwrap();
    assert_eq!(
        says(&history().cards_found(Ok(vec![])).unwrap_err()),
        (400, "study set no longer has cards — session cannot continue")
    );
    assert_eq!(
        says(&history().cards_found(Err("down".to_string())).unwrap_err()),
        (500, "database error fetching cards: down")
    );
}

#[test]
fn a_session_is_read_back_whole() {
    assert!(session_exists(5, Ok(true)).is_ok());
    let missing = session_exists(5, Ok(false)).unwrap_err();
    assert_eq!(missing.status, 404);
    assert_eq!(missing.message, "socratic session 00000000-0000-0000-0000-000000000005 not found");
    assert_eq!(session_exists(5, Err("down".to_string())).unwrap_err().message, "database error: down");
    let messages = vec![MessageOut {
        role: "user".to_string(),
        content: "hi".to_string(),
        flagged_misconception: None,
        created_at: Timestamp::new(1, 0).unwrap(),
    }];
    assert!(matches!(
        history_reply(5, Ok(messages)),
        Reply::Body { status: 200, body }
            if body.session_id == 5 && body.messages.len() == 1 && body.messages[0].content == "hi"
    ));
    assert_eq!(says(&history_reply(5, Err("down".to_string()))), (500, "database error: down"));
}

fn chat() -> ChatPhase {
    ChatPhase::new("sid".to_string(), vec![])
}

#[test]
fn a_round_shows_both_sides() {
    let mut chat = chat();
    chat.typed("  because \n".to_string());
    let sent = chat.send().unwrap();
    assert_eq!(sent.path, "/socratic/sid/reply");
    assert_eq!(sent.request.message, "because");
    assert_eq!((chat.input_text.as_str(), chat.sending, chat.send_label()), ("", true, "Sending..."));
    chat.typed("more".to_string());
    assert!(chat.send().is_none());
    assert!(chat.key_pressed("Enter").is_none());
    chat.answered(Ok(ReplyResponse {
        reply: "Why?".to_string(),
        flagged_misconception: Some("mass".to_string()),
    }));
    assert_eq!((chat.sending, chat.send_label(), chat.input_text.as_str()), (false, "Send", "more"));
    let shown: Vec<(&str, &str)> =
        chat.messages.iter().map(|m| (m.role.as_str(), m.content.as_str())).collect();
    assert_eq!(shown, vec![("user", "because"), ("assistant", "Why?")]);
    assert_eq!(chat.messages[1].badge().unwrap(), "⚠ misconception noted: mass");
    assert_eq!(chat.messages[0].badge(), None);
    assert_eq!(chat.messages[0].class(), "msg msg-user");
}

#[test]
fn a_failed_round_keeps_what_was_said() {
    let mut chat = chat();
    chat.typed("because".to_string());
    assert!(chat.key_pressed("a").is_none());
    assert!(chat.key_pressed("Enter").is_some());
    chat.answered(Err("HTTP 502: no".to_string()));
    assert_eq!((chat.error.as_str(), chat.sending, chat.messages.len()), ("HTTP 502: no", false, 1));
    chat.typed("again".to_string());
    assert!(chat.send().is_some());
    assert_eq!(chat.error, "");
}

#[test]
fn a_blank_reply_is_not_sent() {
    let mut chat = chat();
    chat.typed(" \u{a0}\t".to_string());
    assert!(chat.send().is_none());
    assert_eq!((chat.messages.len(), chat.sending, chat.input_text.as_str()), (0, false, " \u{a0}\t"));
}

#[test]
fn a_session_needs_a_user_and_a_set() {
    let mut screen = SetupPhase::new();
    assert!(!screen.can_start());
    assert!(screen.start().is_none());
    screen.users_loaded(Ok(vec![User { id: "u1".to_string(), email: "e".to_string() }]));
    assert_eq!(screen.user_changed("u1").unwrap(), "/study_sets?user_id=u1");
    screen.study_sets_loaded(Ok(vec![StudySet { id: "s1".to_string(), name: "n".to_string() }]));
    assert!(!screen.can_start());
    screen.set_changed("s1".to_string());
    assert!(screen.can_start());
    assert_eq!(screen.start_label(), "Start Socratic Session");
    let request = screen.start().unwrap();
    assert_eq!((request.study_set_id.as_str(), request.user_id.as_str()), ("s1", "u1"));
    assert_eq!((screen.start_label(), screen.can_start()), ("Starting...", false));
    assert!(screen.started(Err("HTTP 502: no".to_string())).is_none());
    assert_eq!((screen.error.as_str(), screen.can_start()), ("HTTP 502: no", true));
    screen.start().unwrap();
    assert_eq!(screen.error, "");
    let (session, messages) = screen
        .started(Ok(setup::StartResponse {
            session_id: "sid".to_string(),
            opening_message: "Why?".to_string(),
        }))
        .unwrap();
    assert_eq!(session, "sid");
    assert_eq!((messages[0].role.as_str(), messages[0].content.as_str()), ("assistant", "Why?"));
    assert_eq!(messages.len(), 1);
}

#[test]
fn another_user_takes_the_set_back() {
    let mut screen = SetupPhase::new();
    screen.user_changed("u1");
    screen.set_changed("s1".to_string());
    assert!(screen.can_start());
    assert!(screen.user_changed("u2").is_some());
    assert!(!screen.can_start());
    assert!(screen.study_sets.is_empty());
    assert!(screen.user_changed("").is_none());
}

#[test]
fn failed_lists_are_reported() {
    let mut screen = SetupPhase::new();
    screen.users_loaded(Err("HTTP 500".to_string()));
    assert_eq!(screen.error, "Failed to load users: HTTP 500");
    screen.study_sets_loaded(Err("HTTP 500".to_string()));
    assert_eq!(screen.error, "Failed to load study sets: HTTP 500");
}

#[test]
fn the_client_switches_between_its_screens() {
    let mut app = App::new();
    assert_eq!(app.phase, Phase::Setup);
    app.start(
        "sid".to_string(),
        vec![ChatMessage {
            role: "assistant".to_string(),
            content: "Why?".to_string(),
            flagged_misconception: None,
        }],
    );
    assert_eq!((app.phase, app.session_id.as_str()), (Phase::Chat, "sid"));
    assert_eq!(app.initial_messages.len(), 1);
    app.end();
    assert_eq!((app.phase, app.session_id.as_str()), (Phase::Setup, "sid"));
}

#[test]
fn requests_fail_in_words() {
    assert_eq!(api_url("/users"), "http://localhost:8081/users");
    assert!(check_get(200).is_ok());
    assert_eq!(check_get(404).unwrap_err().describe(), "HTTP 404");
    assert!(check_post(201, String::new()).is_ok());
    assert_eq!(check_post(502, "no".to_string()).unwrap_err().describe(), "HTTP 502: no");
    assert_eq!(ApiFailure::Serialize("e".to_string()).describe(), "serialize: e");
    assert_eq!(ApiFailure::Body("e".to_string()).describe(), "body error: e");
    assert_eq!(ApiFailure::Network("e".to_string()).describe(), "network error: e");
    assert_eq!(ApiFailure::Parse("e".to_string()).describe(), "parse error: e");
}
