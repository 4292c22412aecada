use openchat::audit::{AuditDetails, PayloadKind};
use openchat::audit_line::LogValue;
use openchat::chat::MessageSource;
use openchat::server::{
    classify_body, first_step, ingest, receive_post, reply_body, route, unreadable_body_reply,
    ConversationMessage, EvaluatorResult, HttpReply, Route, Step,
};

fn text_reply(step: Step) -> (u16, String) {
    match step {
        Step::Reply(HttpReply::Text { status, body }) => (status, body),
        _ => panic!("expected a plain reply"),
    }
}

fn conversation(ts: &str) -> ConversationMessage {
    ConversationMessage {
        sender_id: Some(1),
        sender_name: "Agent 1".to_string(),
        receiver_id: Some(0),
        receiver_name: Some("UI".to_string()),
        topic: Some("chat".to_string()),
        message: "Hi".to_string(),
        timestamp: Some(ts.to_string()),
    }
}

fn evaluator() -> EvaluatorResult {
    EvaluatorResult {
        evaluator_name: "Agent Evaluator".to_string(),
        sentiment: "positive".to_string(),
        message: "well done".to_string(),
        timestamp: Some("2024-01-02T03:04:05Z".to_string()),
    }
}

#[test]
fn routes() {
    assert_eq!(route("POST", "/"), Route::Ingest);
    assert_eq!(route("GET", "/health"), Route::Health);
    assert_eq!(route("GET", "/"), Route::NotFound);
    assert_eq!(route("POST", "/health"), Route::NotFound);
}

#[test]
fn first_step_answers() {
    assert!(matches!(first_step("POST", "/", true), Step::ReadBody));
    assert_eq!(
        text_reply(first_step("POST", "/", false)),
        (503, r#"{"status": "error", "message": "Server is disabled"}"#.to_string())
    );
    assert_eq!(text_reply(first_step("GET", "/health", true)), (200, "OK".to_string()));
    assert_eq!(
        text_reply(first_step("GET", "/health", false)),
        (503, "SERVICE_UNAVAILABLE".to_string())
    );
    assert_eq!(text_reply(first_step("GET", "/x", true)), (404, "Not Found".to_string()));
    assert_eq!(text_reply(first_step("DELETE", "/", false)), (404, "Not Found".to_string()));
    assert_eq!(
        text_reply(Step::Reply(unreadable_body_reply())),
        (400, "Failed to read request body".to_string())
    );
}

#[test]
fn bodies_are_decoded_lossily() {
    let p = receive_post("héllo".as_bytes());
    assert_eq!(p.text, "héllo");
    assert_eq!(p.body_len, 6);
    let p = receive_post(&[b'a', 0xff, b'b']);
    assert_eq!(p.text, "a\u{fffd}b");
    assert_eq!(p.body_len, 3);
}

#[test]
fn classification_prefers_conversation_then_evaluator() {
    let text = "body".to_string();
    let c = classify_body(&text, Some(conversation("t")), Some(evaluator()));
    assert_eq!((c.content.as_str(), c.from.as_str(), c.kind), ("Hi", "Agent 1", PayloadKind::Conversation));
    assert_eq!(c.raw_ts.as_deref(), Some("t"));
    let c = classify_body(&text, None, Some(evaluator()));
    assert_eq!(c.content, "positive: well done");
    assert_eq!(c.from, "Agent Evaluator");
    assert_eq!(c.kind, PayloadKind::Evaluator);
    let c = classify_body(&text, None, None);
    assert_eq!((c.content.as_str(), c.from.as_str(), c.kind), ("body", "API", PayloadKind::Plain));
    assert!(c.raw_ts.is_none());
}

#[test]
fn ingest_ties_line_record_and_reply_together() {
    let post = receive_post(b"{...}");
    let r = ingest(post, Some(conversation(" 2024-01-02T03:04:05Z ")), None, "conv-1");
    assert_eq!(r.message.content, "Hi");
    assert_eq!(r.message.from.as_deref(), Some("Agent 1"));
    assert_eq!(r.message.source, MessageSource::Api);
    assert!(!r.message.api_auto_respond);
    let k = r.message.correlation.as_ref().unwrap();
    assert_eq!(k.conversation_id, "conv-1");
    assert_eq!(k.timestamp_rfc3339, "2024-01-02T03:04:05Z");
    assert_eq!(r.record.ts, "2024-01-02T03:04:05Z");
    assert_eq!(k.request_id, r.record.request_id);
    assert_eq!(k.event_id, r.record.event_id);
    assert_eq!(r.record.kind, "http_in");
    assert_eq!(r.record.conversation_id, "conv-1");
    assert_eq!(r.record.request_id.len(), 32);
    assert_ne!(r.record.request_id, r.record.event_id);
    assert!(matches!(
        r.record.details,
        AuditDetails::HttpIn { body_len: 5, payload_kind: PayloadKind::Conversation }
    ));
    match r.reply {
        HttpReply::Accepted { request_id } => assert_eq!(request_id, r.record.request_id),
        _ => panic!("expected acknowledgement"),
    }
}

#[test]
fn plain_body_is_attributed_to_api() {
    let r = ingest(receive_post(b"hello there"), None, None, "c");
    assert_eq!(r.message.content, "hello there");
    assert_eq!(r.message.from.as_deref(), Some("API"));
    assert!(matches!(r.record.details, AuditDetails::HttpIn { body_len: 11, payload_kind: PayloadKind::Plain }));
    assert!(openchat::audit::rfc3339_time_of_day(&r.record.ts).is_some());
}

#[test]
fn conversation_without_metadata_and_invalid_timestamp() {
    let m = ConversationMessage {
        sender_id: None,
        sender_name: "Agent 2".to_string(),
        receiver_id: None,
        receiver_name: None,
        topic: None,
        message: "yo".to_string(),
        timestamp: None,
    };
    let r = ingest(receive_post(b"{}"), Some(m), None, "c");
    assert_eq!(r.message.content, "yo");
    assert!(openchat::audit::rfc3339_time_of_day(&r.record.ts).is_some());
    let r = ingest(receive_post(b"{}"), Some(conversation("11:44:50")), None, "c");
    assert_ne!(r.record.ts, "11:44:50");
    assert!(openchat::audit::rfc3339_time_of_day(&r.record.ts).is_some());
}

fn render(v: &LogValue) -> String {
    match v {
        LogValue::Null => "null".to_string(),
        LogValue::Bool(b) => b.to_string(),
        LogValue::Int(n) => n.to_string(),
        LogValue::Text(t) => format!("\"{t}\""),
        LogValue::Word(w) => format!("\"{w}\""),
        LogValue::Object(fs) => render_object(fs),
        LogValue::Array(items) => {
            format!("[{}]", items.iter().map(render).collect::<Vec<_>>().join(","))
        }
    }
}

fn render_object(fs: &[(&'static str, LogValue)]) -> String {
    let parts: Vec<String> = fs.iter().map(|(k, v)| format!("\"{k}\":{}", render(v))).collect();
    format!("{{{}}}", parts.join(","))
}

fn body_of(reply: &HttpReply) -> Option<String> {
    reply_body(reply).map(|fs| render_object(&fs))
}

#[test]
fn reply_bodies_lay_out_their_members() {
    assert_eq!(body_of(&HttpReply::Text { status: 404, body: "Not Found".to_string() }), None);
    assert_eq!(
        body_of(&HttpReply::Accepted { request_id: "abc".to_string() }).unwrap(),
        r#"{"message":"Message received","request_id":"abc","status":"ok"}"#
    );
    assert_eq!(
        body_of(&HttpReply::ApiError { status: 400, message: "bad".to_string() }).unwrap(),
        r#"{"error":{"message":"bad"}}"#
    );
    assert_eq!(
        body_of(&HttpReply::ModelList { names: vec!["a".to_string(), "b".to_string()] }).unwrap(),
        r#"{"data":[{"id":"a","object":"model","owned_by":"ollama"},{"id":"b","object":"model","owned_by":"ollama"}],"object":"list"}"#
    );
    assert_eq!(
        body_of(&HttpReply::ModelList { names: vec![] }).unwrap(),
        r#"{"data":[],"object":"list"}"#
    );
    assert_eq!(
        body_of(&HttpReply::Completion { model: "llama3".to_string(), content: "hi".to_string() })
            .unwrap(),
        r#"{"choices":[{"finish_reason":"stop","index":0,"message":{"content":"hi","role":"assistant"}}],"model":"llama3","object":"chat.completion"}"#
    );
}
