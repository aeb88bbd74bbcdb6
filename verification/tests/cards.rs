//! Cards out of source texts and out of concept nodes.

use mnemosyne::handlers::cards_from_node::{
    already_exists, build_prompt, parse_generated_card, validate_generated, CardCall,
    CardInserted, CardInsertion, CardOut, FromNodeBody, FromNodeRequest, GeneratedCard,
    SOURCE_KNOWLEDGE_STORE,
};
use mnemosyne::handlers::generate::{
    accept_batch, parse_qa_pairs, validate_request, CreatedCard, GenerateCardsRequest,
    GeneratedQAPair, GenerationCall, InsertionStep,
};
use mnemosyne::handlers::{DbError, Finished};
use mnemosyne::http::Reply;
use mnemosyne::ks_client::{KsError, KsNode};
use mnemosyne::llm_provider::{LLMError, LLMResponse};
use mnemosyne::time::Timestamp;
use serde_json::Value;
use uuid::Uuid;

fn field(value: &Value, name: &str) -> Result<String, String> {
    value
        .get(name)
        .and_then(|v| v.as_str())
        .map(|s| s.to_string())
        .ok_or_else(|| format!("missing field `{name}`"))
}

fn card(text: &str) -> Result<GeneratedCard, String> {
    let value: Value = serde_json::from_str(text).map_err(|e| e.to_string())?;
    Ok(GeneratedCard { question: field(&value, "question")?, answer: field(&value, "answer")? })
}

fn pairs(text: &str) -> Result<Vec<GeneratedQAPair>, String> {
    let value: Value = serde_json::from_str(text).map_err(|e| e.to_string())?;
    value
        .as_array()
        .ok_or_else(|| "expected a sequence".to_string())?
        .iter()
        .map(|v| {
            Ok(GeneratedQAPair { question: field(v, "question")?, answer: field(v, "answer")? })
        })
        .collect()
}

fn pair(question: &str, answer: &str) -> GeneratedQAPair {
    GeneratedQAPair { question: question.to_string(), answer: answer.to_string() }
}

fn node() -> KsNode {
    KsNode {
        id: "5248a55b-ca35-4a33-8479-09d0ec0a6784".to_string(),
        title: "Định luật II Newton".to_string(),
        subject: "Vật lý".to_string(),
        summary: "Học sinh đã sửa công thức từ F = m*v thành F = m*a.".to_string(),
    }
}

fn epoch() -> Timestamp {
    Timestamp::new(0, 0).unwrap()
}

fn says<T>(reply: &Reply<T>) -> (u16, &str) {
    match reply {
        Reply::Error(e) => (e.status, e.message.as_str()),
        Reply::Body { .. } => panic!("expected an error"),
    }
}

fn request(source_text: &str, num_questions: Option<u32>) -> GenerateCardsRequest {
    GenerateCardsRequest { source_text: source_text.to_string(), num_questions }
}

fn generation_call() -> GenerationCall {
    validate_request(1, &request(" Water boils. ", Some(2))).unwrap().owner_found(Ok(Some(9))).unwrap()
}

fn answer(content: &str) -> Result<LLMResponse, LLMError> {
    Ok(LLMResponse { content: content.to_string(), total_tokens: 321 })
}

fn created(id: u128) -> CreatedCard {
    CreatedCard {
        id,
        set_id: 1,
        question: "q".to_string(),
        answer: "a".to_string(),
        created_at: epoch(),
    }
}

#[test]
fn a_request_is_validated_in_order() {
    let refusal = |r: &GenerateCardsRequest| {
        let reply = validate_request(1, r).unwrap_err();
        let (status, message) = says(&reply);
        (status, message.to_string())
    };
    assert_eq!(refusal(&request("", Some(0))), (400, "num_questions must be >= 1".to_string()));
    assert_eq!(
        refusal(&request("\u{2003}\n", None)),
        (400, "source_text must not be empty".to_string())
    );
    assert_eq!(
        refusal(&request(&"ý".repeat(8001), None)),
        (400, "source_text exceeds 8000 character limit".to_string())
    );
    let taken = validate_request(1, &request(&"ý".repeat(8000), None)).unwrap();
    assert_eq!(taken.num_questions, 5);
}

#[test]
fn the_number_of_questions_is_clamped() {
    assert_eq!(validate_request(1, &request("t", Some(1))).unwrap().num_questions, 1);
    assert_eq!(validate_request(1, &request("t", Some(10))).unwrap().num_questions, 10);
    assert_eq!(validate_request(1, &request("t", Some(11))).unwrap().num_questions, 10);
    assert_eq!(validate_request(1, &request("t", Some(u32::MAX))).unwrap().num_questions, 10);
}

#[test]
fn the_source_text_is_trimmed_into_the_prompt() {
    let call = generation_call();
    assert_eq!((call.set_id, call.user_id), (1, 9));
    assert_eq!(call.messages[0].role, "system");
    assert!(call.messages[0].content.starts_with(
        "You are a flashcard author. Generate exactly 2 question/answer pairs testing \
         UNDERSTANDING of the source text (active recall: questions that require"
    ));
    assert!(call.messages[0].content.ends_with(
        "questions that require retrieving or applying information, not copy-pasting sentences \
         back). Keep every answer short: 1 to 5 words each. Respond with ONLY valid JSON: an \
         array of objects, each shaped exactly like {\"question\": string, \"answer\": string}. No prose, no \
         markdown, no code fences, no commentary outside the JSON. The JSON must parse with \
         `serde_json::from_str::<Vec<QAPair>>` directly."
    ));
    assert!(call.messages[0].content.contains("1 to 5 words each"));
    assert_eq!(call.messages[1].role, "user");
    assert_eq!(call.messages[1].content, "Source text:\n\nWater boils.\n\nGenerate 2 pairs.");
    assert_eq!(
        call.prompt_log,
        format!("[system] {}\n[user] {}", call.messages[0].content, call.messages[1].content)
    );
    let request = call.request();
    assert_eq!((request.model, request.stream), ("deepseek-v4-flash", false));
    assert_eq!(request.messages[1].content, call.messages[1].content);
}

#[test]
fn a_missing_set_ends_the_request() {
    let plan = || validate_request(0xab, &request("t", None)).unwrap();
    let reply = plan().owner_found(Ok(None)).unwrap_err();
    assert_eq!(
        says(&reply),
        (404, "study set 00000000-0000-0000-0000-0000000000ab not found")
    );
    let reply = plan().owner_found(Err("down".to_string())).unwrap_err();
    assert_eq!(says(&reply), (500, "database error looking up study set: down"));
}

#[test]
fn ids_are_written_as_uuids() {
    let id = Uuid::parse_str("090aaecf-d8a8-4ca9-9191-19075245ab84").unwrap();
    let plan = validate_request(id.as_u128(), &request("t", None)).unwrap();
    let reply = plan.owner_found(Ok(None)).unwrap_err();
    assert_eq!(
        says(&reply),
        (404, "study set 090aaecf-d8a8-4ca9-9191-19075245ab84 not found")
    );
}

#[test]
fn pairs_are_read_with_and_without_fences() {
    let plain = r#"[{"question":"q","answer":"a"}]"#;
    assert_eq!(parse_qa_pairs(plain, pairs).unwrap()[0].question, "q");
    let fenced = format!("```json\n{plain}\n```");
    assert_eq!(parse_qa_pairs(&fenced, pairs).unwrap()[0].answer, "a");
    for raw in [
        format!("```\n{plain}\n```"),
        format!("```json\n{plain}"),
        format!(" ```\n{plain}\n"),
    ] {
        let read = parse_qa_pairs(&raw, pairs).unwrap();
        assert_eq!((read.len(), read[0].question.as_str()), (1, "q"), "{raw}");
    }
    let broken = r#"[{"question":"q"}]"#;
    for raw in [
        broken.to_string(),
        format!("```json\n{broken}\n```"),
        format!("```\n{broken}\n```"),
        format!("```json\n{broken}"),
    ] {
        assert!(parse_qa_pairs(&raw, pairs).is_err(), "{raw}");
    }
    assert!(parse_qa_pairs("[]", pairs).unwrap().is_empty());
    assert!(parse_qa_pairs("no", pairs).unwrap_err().ends_with(" (after stripping fences)"));
}

#[test]
fn one_blank_side_rejects_the_batch() {
    let refused = accept_batch(Ok(vec![pair("q", "a"), pair("q", " \t"), pair("", "a")]));
    let refused = refused.unwrap_err();
    assert_eq!(refused.status, 502);
    assert_eq!(
        refused.message,
        "DeepSeek returned a malformed pair at index 1 (empty question or answer). Batch \
         rejected; no cards inserted."
    );
    assert_eq!(
        accept_batch(Ok(vec![])).unwrap_err().message,
        "DeepSeek returned an empty array; nothing to insert"
    );
    assert_eq!(
        accept_batch(Err("bad".to_string())).unwrap_err().message,
        "DeepSeek returned non-JSON output, parse failed: bad"
    );
    assert_eq!(accept_batch(Ok(vec![pair("q", "a")])).unwrap().len(), 1);
}

#[test]
fn cards_are_inserted_one_after_the_other() {
    let raw = r#"[{"question":"q1","answer":"a1"},{"question":"q2","answer":"a2"}]"#;
    let insertion = generation_call().answered(answer(raw), pairs).unwrap();
    let (set, next) = insertion.next_card();
    assert_eq!((set, next.question.as_str(), next.answer.as_str()), (1, "q1", "a1"));
    let InsertionStep::Insert(insertion) = insertion.inserted(Ok(created(100))) else {
        panic!("one card is left");
    };
    assert_eq!(insertion.next_card().1.question, "q2");
    let InsertionStep::Done(done) = insertion.inserted(Ok(created(101))) else {
        panic!("no card is left");
    };
    assert_eq!(done.log.interaction_type, "question_generation");
    assert_eq!(done.log.output_text, raw);
    assert_eq!((done.log.user_id, done.log.tokens_used), (9, 321));
    let Reply::Body { status, body } = done.reply else {
        panic!("the cards were inserted");
    };
    assert_eq!(status, 201);
    assert_eq!(body.tokens_used, 321);
    assert_eq!(body.cards, vec![created(100), created(101)]);
}

#[test]
fn a_failed_insertion_says_how_far_it_got() {
    let raw = r#"[{"question":"q1","answer":"a1"},{"question":"q2","answer":"a2"}]"#;
    let insertion = generation_call().answered(answer(raw), pairs).unwrap();
    let InsertionStep::Insert(insertion) = insertion.inserted(Ok(created(100))) else {
        panic!("one card is left");
    };
    let InsertionStep::Done(done) = insertion.inserted(Err("full".to_string())) else {
        panic!("the request goes on");
    };
    assert_eq!(
        says(&done.reply),
        (500, "card insertion failed after 1 of 2 cards inserted: full")
    );
    assert_eq!(done.log.tokens_used, 321);
}

#[test]
fn a_failed_generation_is_logged_all_the_same() {
    let dead = generation_call()
        .answered(Err(LLMError::Network("dns".to_string())), pairs)
        .unwrap_err();
    assert_eq!(says(&dead.reply), (502, "DeepSeek API call failed: network error: dns"));
    assert_eq!(
        dead.log.output_text,
        "[no response received from DeepSeek — call failed: network error: dns]"
    );
    assert_eq!(dead.log.tokens_used, 0);
    let cut = generation_call()
        .answered(Err(LLMError::Truncated { finish_reason: "length".to_string() }), pairs)
        .unwrap_err();
    assert!(says(&cut.reply).1.contains("token limit"));
    assert!(cut.log.output_text.starts_with("[truncated by the token budget"));
    let prose = generation_call().answered(answer("Sure!"), pairs).unwrap_err();
    assert!(says(&prose.reply).1.starts_with("DeepSeek returned non-JSON output, parse failed: "));
    assert_eq!((prose.log.output_text.as_str(), prose.log.tokens_used), ("Sure!", 321));
}

#[test]
fn a_failed_log_changes_no_reply() {
    for written in [Ok(()), Err("log down".to_string())] {
        let finished = generation_call().answered(answer("[]"), pairs).unwrap_err();
        assert_eq!(finished.log.tokens_used, 321);
        let reply = finished.sent(written);
        assert_eq!(says(&reply), (502, "DeepSeek returned an empty array; nothing to insert"));
    }
}

#[test]
fn parses_plain_json_object() {
    let parsed =
        parse_generated_card(r#"{"question":"Tại sao?","answer":"Vì gia tốc."}"#, card).unwrap();
    assert_eq!(parsed.question, "Tại sao?");
    assert_eq!(parsed.answer, "Vì gia tốc.");
}

#[test]
fn parses_json_wrapped_in_a_markdown_fence() {
    let raw = "```json\n{\"question\":\"Tại sao?\",\"answer\":\"Vì gia tốc.\"}\n```";
    assert_eq!(parse_generated_card(raw, card).unwrap().question, "Tại sao?");
}

#[test]
fn prose_reply_is_rejected_as_unparseable() {
    assert!(parse_generated_card("Here is your flashcard!", card).is_err());
}

#[test]
fn an_array_of_cards_is_rejected() {
    assert!(parse_generated_card(r#"[{"question":"q","answer":"a"}]"#, card).is_err());
}

#[test]
fn accepts_a_well_formed_card() {
    assert!(validate_generated(&GeneratedCard {
        question: "Tại sao gia tốc chứ không phải vận tốc?".into(),
        answer: "Vì lực gây ra thay đổi vận tốc.".into(),
    })
    .is_ok());
}

#[test]
fn rejects_blank_question() {
    let refused = validate_generated(&GeneratedCard {
        question: "   ".into(),
        answer: "Vì lực gây ra thay đổi vận tốc.".into(),
    });
    assert!(refused.is_err());
    assert_eq!(refused.unwrap_err(), "model returned an empty question");
}

#[test]
fn rejects_blank_answer() {
    let refused =
        validate_generated(&GeneratedCard { question: "Tại sao?".into(), answer: "".into() });
    assert!(refused.is_err());
    assert_eq!(refused.unwrap_err(), "model returned an empty answer");
}

#[test]
fn prompt_carries_the_node_and_states_the_json_contract() {
    let (system, user) = build_prompt(&node());
    assert!(system.contains("\"question\": string"));
    assert!(system.contains("ONE question/answer pair"));
    assert!(user.contains("Định luật II Newton"));
    assert!(user.contains("Vật lý"));
    assert!(user.contains("F = m*a"));
    assert_eq!(
        user,
        "Concept: Định luật II Newton\nSubject: Vật lý\nWhat the learner worked out about it: \
         Học sinh đã sửa công thức từ F = m*v thành F = m*a.\n\nWrite one question/answer pair."
    );
}

#[test]
fn prompt_forbids_parroting_the_summary_back() {
    let (system, _) = build_prompt(&node());
    assert!(system.contains("Do NOT quote the provided summary"));
}

#[test]
fn the_instructions_read_as_written() {
    let (system, _) = build_prompt(&node());
    let lines: Vec<&str> = system.split('\n').collect();
    assert_eq!(lines.len(), 7);
    assert!(lines[0].ends_with("in the learner's own explanatory register."));
    assert_eq!(lines[2], "Write in the same language as the concept you are given.");
    assert!(lines[4].ends_with("is not the same as understanding an idea."));
    assert_eq!(
        lines[6],
        "Respond with ONLY valid JSON, shaped {\"question\": string, \"answer\": string}. No \
         prose, no markdown fences, no commentary outside the JSON."
    );
}

fn card_call() -> CardCall {
    FromNodeRequest { study_set_id: 1, node_id: 2 }
        .owner_found(Ok(Some(9)))
        .unwrap()
        .store_found(true)
        .unwrap()
        .existing_found(Ok(None))
        .unwrap()
        .node_found(Ok(Some(node())))
        .unwrap()
}

fn reply_of(content: &str) -> Result<LLMResponse, LLMError> {
    Ok(LLMResponse { content: content.to_string(), total_tokens: 123 })
}

fn card_insertion() -> CardInsertion {
    card_call().answered(reply_of(r#"{"question":"q","answer":"a"}"#), card).unwrap()
}

fn stored() -> CardOut {
    CardOut {
        id: 0,
        set_id: 0,
        question: "q".into(),
        answer: "a".into(),
        source: SOURCE_KNOWLEDGE_STORE.into(),
        source_node_id: Some(0),
        created_at: epoch(),
    }
}

#[test]
fn response_reports_provenance_and_flattens_the_card() {
    let CardInserted::Done(Finished { reply, .. }) = card_insertion().inserted(Ok(Some(stored())))
    else {
        panic!("the card was inserted");
    };
    let Reply::Body { status, body: FromNodeBody::Created(body) } = reply else {
        panic!("the card was inserted");
    };
    assert_eq!(status, 201);
    assert_eq!(body.card.question, "q");
    assert_eq!(body.card.source, "knowledge_store");
    assert_eq!(body.tokens_used, 123);
}

#[test]
fn conflict_body_names_the_card_that_already_exists() {
    let existing = Uuid::parse_str("090aaecf-d8a8-4ca9-9191-19075245ab84").unwrap();
    let Reply::Body { status, body: FromNodeBody::AlreadyExists(body) } =
        already_exists(7, existing.as_u128())
    else {
        panic!("expected a conflict");
    };
    assert_eq!(status, 409);
    assert_eq!(Uuid::from_u128(body.existing_card_id).to_string(), existing.to_string());
    assert_eq!(
        body.error,
        "this study set already has a card for concept node \
         00000000-0000-0000-0000-000000000007"
    );
}

#[test]
fn a_card_for_a_node_is_built_turn_by_turn() {
    let call = card_call();
    assert_eq!(call.messages.len(), 2);
    assert_eq!(call.messages[1].content, build_prompt(&node()).1);
    assert_eq!(call.request().model, None);
    assert_eq!(call.request().messages.len(), 2);
    assert!(call
        .prompt_log
        .starts_with("[card_from_node: 5248a55b-ca35-4a33-8479-09d0ec0a6784]\n[system] You are"));
    let insertion = card_insertion();
    assert_eq!((insertion.study_set_id, insertion.node_id), (1, 2));
    assert_eq!(insertion.card, GeneratedCard { question: "q".into(), answer: "a".into() });
    assert_eq!(insertion.source, "knowledge_store");
    assert_eq!(insertion.log.interaction_type, "card_from_node_generation");
}

#[test]
fn a_node_has_one_card() {
    let connected = || {
        FromNodeRequest { study_set_id: 1, node_id: 2 }
            .owner_found(Ok(Some(9)))
            .unwrap()
            .store_found(true)
            .unwrap()
    };
    let reply = connected().existing_found(Ok(Some(44))).unwrap_err();
    assert!(matches!(
        reply,
        Reply::Body { status: 409, body: FromNodeBody::AlreadyExists(b) }
            if b.existing_card_id == 44
    ));
    let reply = connected().existing_found(Err("down".to_string())).unwrap_err();
    assert_eq!(says(&reply), (500, "database error checking for an existing card: down"));
}

#[test]
fn a_lost_race_names_the_winner() {
    let lose = || match card_insertion().inserted(Ok(None)) {
        CardInserted::LookUp { log, conflict } => {
            assert_eq!(log.tokens_used, 123);
            conflict
        }
        CardInserted::Done(_) => panic!("another card was first"),
    };
    assert!(matches!(
        lose().resolved(Ok(Some(44))),
        Reply::Body { status: 409, body: FromNodeBody::AlreadyExists(b) }
            if b.existing_card_id == 44
    ));
    assert_eq!(
        says(&lose().resolved(Ok(None))),
        (500, "insert reported a conflict but no existing card could be found")
    );
    assert_eq!(
        says(&lose().resolved(Err("down".to_string()))),
        (500, "database error resolving the conflicting card: down")
    );
}

#[test]
fn a_refused_insertion_is_classified_and_logged() {
    let error = DbError { sqlstate: Some("23503".to_string()), text: "fk".to_string() };
    let CardInserted::Done(done) = card_insertion().inserted(Err(error)) else {
        panic!("the insertion was refused");
    };
    assert_eq!(
        says(&done.reply),
        (400, "referenced resource does not exist (foreign key violation)")
    );
    assert_eq!(done.log.tokens_used, 123);
}

#[test]
fn a_missing_store_is_a_state_of_the_configuration() {
    let owned = FromNodeRequest { study_set_id: 1, node_id: 2 }.owner_found(Ok(Some(9))).unwrap();
    assert_eq!(
        says(&owned.store_found(false).unwrap_err()),
        (
            503,
            "Knowledge Store is not configured (KS_HTTP_TOKEN unset); cannot build a card from \
             a concept node"
        )
    );
}

#[test]
fn a_missing_node_and_a_silent_store_are_told_apart() {
    let new_card = || {
        FromNodeRequest { study_set_id: 1, node_id: 2 }
            .owner_found(Ok(Some(9)))
            .unwrap()
            .store_found(true)
            .unwrap()
            .existing_found(Ok(None))
            .unwrap()
    };
    assert_eq!(
        says(&new_card().node_found(Ok(None)).unwrap_err()),
        (
            404,
            "the Knowledge Store has no concept node 00000000-0000-0000-0000-000000000002 — \
             only accepted concepts are available; one still pending review is not"
        )
    );
    assert_eq!(
        says(&new_card().node_found(Err(KsError::Unreachable("refused".into()))).unwrap_err()),
        (
            502,
            "could not read the concept from the Knowledge Store: knowledge store unreachable: \
             refused"
        )
    );
}

#[test]
fn a_card_that_cannot_be_used_is_not_inserted() {
    let blank = card_call().answered(reply_of(r#"{"question":"q","answer":" "}"#), card);
    let blank = blank.unwrap_err();
    assert_eq!(
        says(&blank.reply),
        (
            502,
            "DeepSeek returned an unusable card; nothing inserted: model returned an empty answer"
        )
    );
    assert_eq!(blank.log.tokens_used, 123);
    let prose = card_call().answered(reply_of("Sure!"), card).unwrap_err();
    assert!(says(&prose.reply).1.starts_with("DeepSeek returned non-JSON output, parse failed: "));
    let cut = card_call()
        .answered(Err(LLMError::Truncated { finish_reason: "length".into() }), card)
        .unwrap_err();
    assert!(says(&cut.reply).1.contains("token limit"));
    assert!(cut.log.output_text.starts_with("[truncated"));
    assert_eq!(cut.log.tokens_used, 0);
}
