//! The Knowledge Store client: what is sent, and what is made of the answers.

use mnemosyne::ks_client::{
    bare_nodes, base_url_for_port, check_status, find_node, parse_health_response,
    parse_nodes_response, parse_save_response, percent_encode_query_value, server_bug_notice,
    HealthBody, KsClient, KsError, KsNode, SaveTranscriptBody, SaveTranscriptOutcome,
    TranscriptTurn,
};
use serde_json::Value;

fn object(text: &str) -> Result<Value, String> {
    let value: Value = serde_json::from_str(text).map_err(|e| e.to_string())?;
    if value.is_object() {
        Ok(value)
    } else {
        Err("expected an object".to_string())
    }
}

fn string(value: &Value, field: &str) -> Result<String, String> {
    value
        .get(field)
        .and_then(|v| v.as_str())
        .map(|s| s.to_string())
        .ok_or_else(|| format!("missing field `{field}`"))
}

fn optional(value: &Value, field: &str) -> Option<String> {
    value.get(field).and_then(|v| v.as_str()).map(|s| s.to_string())
}

fn save_body(text: &str) -> Result<SaveTranscriptBody, String> {
    let value = object(text)?;
    let ok = value
        .get("ok")
        .and_then(|v| v.as_bool())
        .ok_or_else(|| "missing field `ok`".to_string())?;
    Ok(SaveTranscriptBody {
        ok,
        transcript_id: optional(&value, "transcript_id"),
        error: optional(&value, "error"),
    })
}

fn health_body(text: &str) -> Result<HealthBody, String> {
    Ok(HealthBody { status: string(&object(text)?, "status")? })
}

fn node(value: &Value) -> Result<KsNode, String> {
    Ok(KsNode {
        id: string(value, "id")?,
        title: string(value, "title")?,
        subject: string(value, "subject")?,
        summary: string(value, "summary")?,
    })
}

fn node_list(value: &Value) -> Result<Vec<KsNode>, String> {
    value
        .as_array()
        .ok_or_else(|| "expected a sequence".to_string())?
        .iter()
        .map(node)
        .collect()
}

fn envelope(text: &str) -> Result<Vec<KsNode>, String> {
    let value = object(text)?;
    node_list(value.get("nodes").ok_or_else(|| "missing field `nodes`".to_string())?)
}

fn array(text: &str) -> Result<Vec<KsNode>, String> {
    let value: Value = serde_json::from_str(text).map_err(|e| e.to_string())?;
    node_list(&value)
}

fn save(body: &str) -> Result<SaveTranscriptOutcome, KsError> {
    parse_save_response(body, save_body)
}

fn nodes(body: &str) -> Result<Vec<KsNode>, KsError> {
    parse_nodes_response(body, envelope, array)
}

fn client() -> KsClient {
    KsClient::from_env(Some("token".to_string()), None).unwrap()
}

#[test]
fn parses_ok_true_into_saved() {
    let body = r#"{"ok": true, "transcript_id": "298178c8-1a0c-4d2c-adce-b143f6247a30"}"#;
    assert_eq!(
        save(body).unwrap(),
        SaveTranscriptOutcome::Saved {
            transcript_id: "298178c8-1a0c-4d2c-adce-b143f6247a30".to_string()
        }
    );
}

#[test]
fn parses_ok_false_into_ks_db_unavailable_not_an_error() {
    let body = r#"{"ok": false, "transcript_id": null, "error": "connection refused"}"#;
    assert_eq!(
        save(body).unwrap(),
        SaveTranscriptOutcome::KsDbUnavailable { error: "connection refused".to_string() }
    );
}

#[test]
fn ok_false_without_error_field_still_reports_db_unavailable() {
    let body = r#"{"ok": false}"#;
    assert!(matches!(save(body).unwrap(), SaveTranscriptOutcome::KsDbUnavailable { .. }));
    assert_eq!(
        save(body).unwrap(),
        SaveTranscriptOutcome::KsDbUnavailable {
            error: "ok:false with no error field".to_string()
        }
    );
}

#[test]
fn ok_true_without_transcript_id_is_a_parse_error() {
    let body = r#"{"ok": true, "transcript_id": null}"#;
    assert!(matches!(save(body), Err(KsError::Parse(_))));
}

#[test]
fn ok_true_with_an_empty_transcript_id_is_a_parse_error() {
    let body = r#"{"ok": true, "transcript_id": ""}"#;
    assert_eq!(
        save(body),
        Err(KsError::Parse("response had ok:true but no transcript_id".to_string()))
    );
}

#[test]
fn malformed_body_is_a_parse_error() {
    assert!(matches!(save("<html>502 Bad Gateway</html>"), Err(KsError::Parse(_))));
}

#[test]
fn a_parse_error_quotes_the_start_of_the_body() {
    let long = "x".repeat(600);
    let Err(KsError::Parse(message)) = save(&long) else {
        panic!("a body that is no JSON was read");
    };
    assert!(message.ends_with(&format!("; body snippet: {}", "x".repeat(500))));
}

#[test]
fn success_status_passes_through() {
    assert!(check_status(200, r#"{"ok": true}"#).is_ok());
    assert!(check_status(299, "").is_ok());
    assert!(check_status(199, "").is_err());
    assert!(check_status(300, "").is_err());
}

#[test]
fn bad_request_maps_to_http_400() {
    let err = check_status(400, "missing session_ref").unwrap_err();
    assert_eq!(err, KsError::Http { status: 400, body: "missing session_ref".to_string() });
}

#[test]
fn missing_auth_header_maps_to_http_401() {
    let err = check_status(401, "unauthorized").unwrap_err();
    assert!(matches!(err, KsError::Http { status: 401, .. }));
}

#[test]
fn wrong_token_maps_to_http_403() {
    let err = check_status(403, "forbidden").unwrap_err();
    assert!(matches!(err, KsError::Http { status: 403, .. }));
}

#[test]
fn server_error_is_surfaced_not_swallowed() {
    let err = check_status(500, "traceback...").unwrap_err();
    assert!(matches!(err, KsError::Http { status: 500, .. }));
}

#[test]
fn a_server_error_is_reported_loudly() {
    assert_eq!(server_bug_notice(499, "x"), None);
    assert_eq!(
        server_bug_notice(500, "traceback...").unwrap(),
        "[ks] BUG on the KS side: HTTP 500 from an endpoint documented never to return 5xx. \
         Body: traceback..."
    );
}

#[test]
fn health_accepts_documented_body() {
    assert!(parse_health_response(r#"{"status": "ok"}"#, health_body).is_ok());
}

#[test]
fn health_rejects_unexpected_status_value() {
    assert!(matches!(
        parse_health_response(r#"{"status": "degraded"}"#, health_body),
        Err(KsError::Parse(_))
    ));
    assert_eq!(
        parse_health_response(r#"{"status": "degraded"}"#, health_body),
        Err(KsError::Parse("unexpected health status: degraded".to_string()))
    );
}

#[test]
fn request_serializes_to_the_documented_shape() {
    let turns = vec![
        TranscriptTurn::coach("Định luật Newton 2 phát biểu thế nào?"),
        TranscriptTurn::learner("Gia tốc tỉ lệ thuận với lực, F = ma."),
    ];
    let client = client();
    let req = client.save_request("mnemosyne-session-8f21ac", &turns);
    assert_eq!(req.session_ref, "mnemosyne-session-8f21ac");
    assert_eq!(req.content[0].role, "coach");
    assert_eq!(req.content[0].content, "Định luật Newton 2 phát biểu thế nào?");
    assert_eq!(req.content[1].role, "learner");
}

#[test]
fn socratic_roles_map_onto_the_coach_learner_pair() {
    assert_eq!(
        TranscriptTurn::from_socratic_role("assistant", "q?"),
        Some(TranscriptTurn::coach("q?"))
    );
    assert_eq!(
        TranscriptTurn::from_socratic_role("user", "a."),
        Some(TranscriptTurn::learner("a."))
    );
    assert_eq!(TranscriptTurn::from_socratic_role("system", "x"), None);
}

#[test]
fn query_values_are_percent_encoded() {
    assert_eq!(percent_encode_query_value("physics"), "physics");
    assert_eq!(percent_encode_query_value("earth science"), "earth%20science");
    assert_eq!(percent_encode_query_value("Vật lý"), "V%E1%BA%ADt%20l%C3%BD");
    assert_eq!(percent_encode_query_value("a&b=c"), "a%26b%3Dc");
}

#[test]
fn every_ascii_character_is_kept_or_escaped() {
    for b in 0u8..128 {
        let c = b as char;
        let encoded = percent_encode_query_value(&c.to_string());
        if c.is_ascii_alphanumeric() || "-_.~".contains(c) {
            assert_eq!(encoded, c.to_string());
        } else {
            assert_eq!(encoded, format!("%{b:02X}"));
        }
    }
}

#[test]
fn encoded_values_stay_apart() {
    let values = ["", " ", "%20", "a b", "a%20b", "lý", "ly"];
    for (i, a) in values.iter().enumerate() {
        for b in &values[i + 1..] {
            assert_ne!(percent_encode_query_value(a), percent_encode_query_value(b));
        }
    }
}

#[test]
fn base_url_is_localhost_only() {
    assert_eq!(base_url_for_port("8080"), "http://127.0.0.1:8080");
    assert_eq!(base_url_for_port("9999"), "http://127.0.0.1:9999");
}

#[test]
fn a_client_needs_a_token() {
    assert!(KsClient::from_env(None, Some("1".to_string())).is_none());
    assert!(KsClient::from_env(Some(String::new()), None).is_none());
    let client = KsClient::from_env(Some("t".to_string()), Some("9999".to_string())).unwrap();
    assert_eq!(client.token, "t");
    assert_eq!(client.health_url(), "http://127.0.0.1:9999/health");
}

#[test]
fn the_routes_follow_the_base_url() {
    let client = client();
    assert_eq!(client.transcripts_url(), "http://127.0.0.1:8080/transcripts");
    assert_eq!(client.nodes_url(None), "http://127.0.0.1:8080/nodes");
    assert_eq!(
        client.nodes_url(Some("Vật lý")),
        "http://127.0.0.1:8080/nodes?subject=V%E1%BA%ADt%20l%C3%BD"
    );
}

#[test]
fn the_status_is_looked_at_before_the_body() {
    let client = client();
    let refused = KsError::Http { status: 403, body: "forbidden".to_string() };
    assert_eq!(client.read_health(403, "forbidden", health_body), Err(refused.clone()));
    assert_eq!(client.read_saved(403, "forbidden", save_body), Err(refused.clone()));
    assert_eq!(client.read_nodes(403, "forbidden", envelope, array), Err(refused));
    assert_eq!(client.read_health(200, r#"{"status": "ok"}"#, health_body), Ok(()));
    assert_eq!(
        client.read_saved(201, r#"{"ok": true, "transcript_id": "t"}"#, save_body),
        Ok(SaveTranscriptOutcome::Saved { transcript_id: "t".to_string() })
    );
    assert_eq!(client.read_nodes(200, "[]", envelope, array), Ok(vec![]));
}

#[test]
fn only_silence_is_unreachable() {
    let client = client();
    let silent = || Err("connection refused".to_string());
    let gone = KsError::Unreachable("connection refused".to_string());
    assert_eq!(client.save_transcript(silent(), save_body), Err(gone.clone()));
    assert_eq!(client.health(silent(), health_body), Err(gone.clone()));
    assert_eq!(client.get_nodes(silent(), envelope, array), Err(gone));
    let refused = || Ok((401, "unauthorized".to_string()));
    let no = KsError::Http { status: 401, body: "unauthorized".to_string() };
    assert_eq!(client.save_transcript(refused(), save_body), Err(no.clone()));
    assert_eq!(client.health(refused(), health_body), Err(no.clone()));
    assert_eq!(client.get_nodes(refused(), envelope, array), Err(no));
    let down = Ok((200, r#"{"ok": false, "error": "db"}"#.to_string()));
    assert_eq!(
        client.save_transcript(down, save_body),
        Ok(SaveTranscriptOutcome::KsDbUnavailable { error: "db".to_string() })
    );
    let stored = Ok((200, r#"{"ok": true, "transcript_id": "t"}"#.to_string()));
    assert_eq!(
        client.save_transcript(stored, save_body),
        Ok(SaveTranscriptOutcome::Saved { transcript_id: "t".to_string() })
    );
    assert_eq!(client.health(Ok((200, r#"{"status": "ok"}"#.to_string())), health_body), Ok(()));
    assert_eq!(client.get_nodes(Ok((200, "[]".to_string())), envelope, array), Ok(vec![]));
}

#[test]
fn both_node_shapes_read_alike() {
    let list = r#"[{"id": "1", "title": "T", "subject": "S", "summary": "Sum", "x": 1},
        {"id": "2", "title": "U", "subject": "S", "summary": "Sum"}]"#;
    let wrapped = format!("{{\"nodes\": {list}}}");
    assert_eq!(nodes(list), nodes(&wrapped));
    assert_eq!(nodes(list).unwrap()[1].title, "U");
    let partial = r#"[{"id": "1", "title": "T", "subject": "S", "summary": "Sum"}, {"id": "2"}]"#;
    let wrapped = format!("{{\"nodes\": {partial}}}");
    assert!(matches!(nodes(partial), Err(KsError::Parse(_))));
    assert!(matches!(nodes(&wrapped), Err(KsError::Parse(_))));
}

#[test]
fn parses_nodes_envelope_shape() {
    let body = r#"{"nodes": [
            {"id": "a64b3349-e3b6-4a19-b1bd-f024c2adc31d",
             "title": "Định luật Newton 2",
             "subject": "Vật lý",
             "summary": "Gia tốc tỉ lệ thuận với lực và tỉ lệ nghịch với khối lượng."}
        ]}"#;
    let nodes = nodes(body).unwrap();
    assert_eq!(nodes.len(), 1);
    assert_eq!(nodes[0].title, "Định luật Newton 2");
    assert_eq!(nodes[0].subject, "Vật lý");
}

#[test]
fn parses_nodes_bare_array_shape() {
    let body = r#"[
            {"id": "1", "title": "T", "subject": "S", "summary": "Sum"}
        ]"#;
    let nodes = nodes(body).unwrap();
    assert_eq!(nodes.len(), 1);
    assert_eq!(nodes[0].id, "1");
}

#[test]
fn nodes_response_ignores_unknown_fields() {
    let body = r#"{"nodes": [{"id": "1", "title": "T", "subject": "S",
            "summary": "Sum", "source_module": "mnemosyne",
            "merged_into_id": null, "created_at": "2026-08-27T00:00:00Z"}]}"#;
    assert_eq!(nodes(body).unwrap().len(), 1);
}

#[test]
fn empty_nodes_list_is_not_an_error() {
    assert!(nodes(r#"{"nodes": []}"#).unwrap().is_empty());
}

#[test]
fn malformed_nodes_body_is_a_parse_error() {
    assert!(matches!(nodes("<html>404</html>"), Err(KsError::Parse(_))));
}

#[test]
fn a_nodes_error_names_both_shapes() {
    assert_eq!(
        bare_nodes(Err("bad".to_string()), "<html>"),
        Err(KsError::Parse(
            "bad; expected either {\"nodes\": [...]} or a bare array; body snippet: <html>"
                .to_string()
        ))
    );
}

#[test]
fn a_node_is_found_by_its_hyphenated_id() {
    let id = uuid::Uuid::parse_str("a64b3349-e3b6-4a19-b1bd-f024c2adc31d").unwrap();
    let named = |id: &str, title: &str| KsNode {
        id: id.to_string(),
        title: title.to_string(),
        subject: "S".to_string(),
        summary: "Sum".to_string(),
    };
    let list = || {
        vec![
            named("other", "no"),
            named("a64b3349-e3b6-4a19-b1bd-f024c2adc31d", "first"),
            named("a64b3349-e3b6-4a19-b1bd-f024c2adc31d", "second"),
        ]
    };
    assert_eq!(find_node(list(), id.as_u128()).unwrap().title, "first");
    assert_eq!(find_node(list(), 0), None);
}

#[test]
fn ks_errors_read_as_documented() {
    assert_eq!(
        KsError::Unreachable("timed out".to_string()).describe(),
        "knowledge store unreachable: timed out"
    );
    assert_eq!(
        KsError::Http { status: 403, body: "y".repeat(501) }.describe(),
        format!("knowledge store HTTP 403: {}", "y".repeat(500))
    );
    assert_eq!(
        KsError::Parse("bad".to_string()).describe(),
        "knowledge store parse error: bad"
    );
}
