//! The model providers and what is told of their failures.

use mnemosyne::deepseek::{
    completion, wire_messages, DeepSeekChoice, DeepSeekChoiceMessage, DeepSeekClient, DeepSeekError,
    DeepSeekMessage, DeepSeekResponse, DeepSeekUsage, DEFAULT_MODEL,
};
use mnemosyne::handlers::{
    classify_db_error, describe_llm_failure, error_response, log_ai_interaction, DbError,
};
use mnemosyne::health::{health, DbHealth};
use mnemosyne::llm_provider::{
    accept_completion, first_finish_reason, provider_answer, LLMError, LLMMessage,
};

fn response(content: &str) -> DeepSeekResponse {
    DeepSeekResponse {
        choices: vec![DeepSeekChoice {
            message: DeepSeekChoiceMessage { content: content.to_string() },
        }],
        usage: DeepSeekUsage { total_tokens: 7, prompt_tokens: 3, completion_tokens: 4 },
    }
}

fn decode(text: &str) -> Result<DeepSeekResponse, String> {
    if text == "bad" {
        Err("expected value at line 1".to_string())
    } else {
        Ok(response(text))
    }
}

#[test]
fn truncation_is_reported_as_truncation_not_as_a_dead_call() {
    let (placeholder, message) =
        describe_llm_failure(&LLMError::Truncated { finish_reason: "length".into() });
    assert!(placeholder.contains("truncated"), "placeholder: {placeholder}");
    assert!(!placeholder.contains("no response received"), "placeholder: {placeholder}");
    assert!(message.contains("token limit"), "message: {message}");
    assert_eq!(
        placeholder,
        "[truncated by the token budget (finish_reason: length) — no usable content returned]"
    );
    assert_eq!(
        message,
        "DeepSeek stopped mid-answer at its token limit (length); nothing was parsed. \
         Retrying, or requesting fewer items, may succeed."
    );
}

#[test]
fn other_failures_keep_the_original_phrasing() {
    let (placeholder, message) =
        describe_llm_failure(&LLMError::Http { status: 401, body: "unauthorized".into() });
    assert!(placeholder.contains("no response received"), "placeholder: {placeholder}");
    assert!(message.contains("401"), "message: {message}");
    assert_eq!(
        placeholder,
        "[no response received from DeepSeek — call failed: upstream HTTP 401: unauthorized]"
    );
    assert_eq!(message, "DeepSeek API call failed: upstream HTTP 401: unauthorized");
}

#[test]
fn every_failure_kind_produces_a_non_empty_pair() {
    for err in [
        LLMError::Network("timeout".into()),
        LLMError::Http { status: 500, body: "boom".into() },
        LLMError::Parse("bad json".into()),
        LLMError::Truncated { finish_reason: "length".into() },
    ] {
        let (placeholder, message) = describe_llm_failure(&err);
        assert!(!placeholder.is_empty(), "empty placeholder for {err:?}");
        assert!(!message.is_empty(), "empty message for {err:?}");
    }
}

#[test]
fn llm_errors_read_as_documented() {
    assert_eq!(LLMError::Network("timeout".into()).describe(), "network error: timeout");
    assert_eq!(
        LLMError::Http { status: 500, body: "z".repeat(600) }.describe(),
        format!("upstream HTTP 500: {}", "z".repeat(500))
    );
    assert_eq!(LLMError::Parse("bad json".into()).describe(), "parse error: bad json");
}

#[test]
fn half_an_answer_is_rejected() {
    let cut = accept_completion("half".into(), 9, Some("length".into()));
    assert!(matches!(cut, Err(LLMError::Truncated { finish_reason }) if finish_reason == "length"));
    let whole = accept_completion("whole".into(), 9, Some("stop".into())).unwrap();
    assert_eq!((whole.content.as_str(), whole.total_tokens), ("whole", 9));
    assert_eq!(accept_completion("x".into(), 1, None).unwrap().content, "x");
}

#[test]
fn a_provider_answer_is_neutral() {
    let answer = provider_answer(Ok(response("text")), Some("stop".into())).unwrap();
    assert_eq!((answer.content.as_str(), answer.total_tokens), ("text", 7));
    assert!(matches!(
        provider_answer(Ok(response("te")), Some("length".into())),
        Err(LLMError::Truncated { .. })
    ));
    for (err, text) in [
        (DeepSeekError::Network("dns".into()), "network error: dns"),
        (DeepSeekError::Http { status: 401, body: "no".into() }, "upstream HTTP 401: no"),
        (DeepSeekError::Parse("bad".into()), "parse error: bad"),
    ] {
        assert_eq!(err.describe(), text);
        assert_eq!(provider_answer(Err(err), None).unwrap_err().describe(), text);
    }
}

#[test]
fn the_first_choice_tells_why_the_model_stopped() {
    assert_eq!(first_finish_reason(vec![]), None);
    assert_eq!(first_finish_reason(vec![None, Some("length".into())]), None);
    assert_eq!(
        first_finish_reason(vec![Some("stop".into()), Some("length".into())]),
        Some("stop".to_string())
    );
}

#[test]
fn neutral_messages_are_sent_one_for_one() {
    let sent = wire_messages(&[LLMMessage::system("s"), LLMMessage::user("u")]);
    let shown: Vec<(&str, &str)> = sent.iter().map(|m| (m.role, m.content.as_str())).collect();
    assert_eq!(shown, vec![("system", "s"), ("user", "u")]);
}

#[test]
fn messages_carry_their_role() {
    assert_eq!(LLMMessage::system("s").role, "system");
    assert_eq!(LLMMessage::user("u").role, "user");
    assert_eq!(LLMMessage::assistant("a").content, "a");
    assert_eq!(DeepSeekMessage::system("s").role, "system");
    assert_eq!(DeepSeekMessage::user("u").content, "u");
    assert_eq!(DeepSeekMessage::assistant("a").role, "assistant");
}

#[test]
fn a_missing_key_gives_no_client() {
    assert!(DeepSeekClient::from_env(None).is_none());
    assert!(DeepSeekClient::from_env(Some(String::new())).is_none());
    assert_eq!(DeepSeekClient::from_env(Some("k".into())).unwrap().api_key, "k");
}

#[test]
fn a_request_names_a_model_and_never_streams() {
    let client = DeepSeekClient::from_env(Some("k".into())).unwrap();
    let messages = vec![DeepSeekMessage::user("hi")];
    let by_default = client.chat_request(&messages, None);
    assert_eq!(by_default.model, DEFAULT_MODEL);
    assert_eq!(by_default.model, "deepseek-v4-flash");
    assert!(!by_default.stream);
    assert_eq!(by_default.messages.len(), 1);
    assert_eq!(client.chat_request(&messages, Some("other")).model, "other");
    assert_eq!(client.completions_url(), "https://api.deepseek.com/chat/completions");
}

#[test]
fn a_completion_is_read_by_status_then_body() {
    let client = DeepSeekClient::from_env(Some("k".into())).unwrap();
    let refused = client.read_completion(429, "slow down".into(), decode).unwrap_err();
    assert_eq!(refused.describe(), "upstream HTTP 429: slow down");
    let bad = client.read_completion(200, "bad".into(), decode).unwrap_err();
    assert_eq!(bad.describe(), "parse error: expected value at line 1; body snippet: bad");
    let good = client.read_completion(200, "hello".into(), decode).unwrap();
    assert_eq!(good.first_content(), "hello");
}

#[test]
fn only_status_200_is_read() {
    let client = DeepSeekClient::from_env(Some("k".into())).unwrap();
    let body = r#"{"choices":[],"usage":{}}"#;
    for status in [199, 201, 204, 299, 500] {
        let refused = client.read_completion(status, body.into(), decode).unwrap_err();
        assert!(matches!(
            refused,
            DeepSeekError::Http { status: s, body: b } if s == status && b == body
        ));
    }
    assert!(client.read_completion(200, body.into(), decode).is_ok());
}

#[test]
fn no_error_depends_on_the_key() {
    let report = |key: &str, transport: Result<(u16, String), String>| {
        let client = DeepSeekClient::from_env(Some(key.into())).unwrap();
        let error = client.chat_completion(transport, decode).unwrap_err();
        (error.describe(), format!("{error:?}"))
    };
    for transport in [
        Err("dns".to_string()),
        Ok((401, "unauthorized".to_string())),
        Ok((200, "bad".to_string())),
    ] {
        assert_eq!(report("first", transport.clone()), report("second", transport));
    }
    assert_eq!(report("k", Err("dns".to_string())).0, "network error: dns");
    let client = DeepSeekClient::from_env(Some("k".into())).unwrap();
    let good = client.chat_completion(Ok((200, "hello".to_string())), decode).unwrap();
    assert_eq!(good.first_content(), "hello");
}

#[test]
fn no_choice_reads_as_nothing() {
    let empty = DeepSeekResponse { choices: vec![], usage: DeepSeekUsage::default() };
    assert_eq!(empty.usage.total_tokens, 0);
    assert_eq!(completion(Ok(empty), "").unwrap().first_content(), "");
}

#[test]
fn database_errors_map_to_statuses() {
    let error = |code: Option<&str>| DbError {
        sqlstate: code.map(|c| c.to_string()),
        text: "boom".to_string(),
    };
    assert_eq!(
        classify_db_error(&error(Some("23505"))),
        (409, "resource already exists (unique constraint violation)".to_string())
    );
    assert_eq!(
        classify_db_error(&error(Some("23503"))),
        (400, "referenced resource does not exist (foreign key violation)".to_string())
    );
    assert_eq!(
        classify_db_error(&error(Some("42P01"))),
        (500, "database error: boom".to_string())
    );
    assert_eq!(classify_db_error(&error(None)), (500, "database error: boom".to_string()));
}

#[test]
fn an_error_reply_keeps_status_and_message() {
    let reply = error_response(404, "gone");
    assert_eq!((reply.status, reply.message.as_str()), (404, "gone"));
}

#[test]
fn the_log_keeps_the_call() {
    let row = log_ai_interaction(5, "kind", "in", "out", 1234);
    assert_eq!(row.user_id, 5);
    assert_eq!(row.interaction_type, "kind");
    assert_eq!(row.input_text, "in");
    assert_eq!(row.output_text, "out");
    assert_eq!(row.tokens_used, 1234);
    assert_eq!(log_ai_interaction(5, "kind", "", "", u32::MAX).tokens_used, u32::MAX as i32);
    assert_eq!(log_ai_interaction(5, "kind", "", "", 0x8000_0000).tokens_used, i32::MIN);
}

#[test]
fn health_reports_the_database() {
    assert_eq!(health(), "ok");
    let up = DbHealth::of(Ok(3));
    assert_eq!((up.status_code(), up.status()), (200, "ok"));
    assert!(matches!(up, DbHealth::Up { user_count: 3 }));
    let down = DbHealth::of(Err("refused".to_string()));
    assert_eq!((down.status_code(), down.status()), (500, "error"));
    assert!(matches!(down, DbHealth::Down { message } if message == "refused"));
}
