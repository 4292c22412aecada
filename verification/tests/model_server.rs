use openchat::chat::MessageSource;
use openchat::json::{Json, JsonMember};
use openchat::ollama::{
    chat_endpoint, conclude_reply, correlated_chat_message, model_names_from, plan_json_reply,
    plan_reply, start_record, tags_endpoint, ChatExchange, ContentField, OllamaController, OllamaEnd,
    read_model_listing, read_reply_body, OllamaStatus, ResponseBody, OLLAMA_URL,
};
use openchat::audit::AuditDetails;

fn s(t: &str) -> Json {
    Json::Str(t.to_string())
}

fn obj(members: Vec<(&str, Json, &str)>) -> Json {
    Json::Object(
        members
            .into_iter()
            .map(|(k, v, text)| JsonMember { key: k.to_string(), value: v, text: text.to_string() })
            .collect(),
    )
}

fn answer(message: Json) -> Json {
    obj(vec![("message", message, "{}")])
}

fn ok(json: Json) -> ChatExchange {
    ChatExchange::Responded {
        status: 200,
        body: ResponseBody::Read { byte_len: 17, parsed: Ok(json) },
    }
}

fn reply_text(ex: ChatExchange) -> (Option<(String, bool)>, OllamaEnd) {
    let plan = plan_reply(ex);
    (plan.reply.map(|p| (p.content, p.from_model)), plan.end)
}

#[test]
fn endpoints() {
    assert_eq!(OLLAMA_URL, "http://127.0.0.1:11434");
    assert_eq!(chat_endpoint(), "http://127.0.0.1:11434/api/chat");
    assert_eq!(tags_endpoint(), "http://127.0.0.1:11434/api/tags");
}

#[test]
fn controller_status_transitions() {
    let mut c = OllamaController::new();
    assert_eq!(c.status(), OllamaStatus::Stopped);
    assert!(c.models().is_empty());
    c.begin_status_check();
    assert_eq!(c.status(), OllamaStatus::Checking);
    assert!(c.finish_status_check(true));
    assert_eq!(c.status(), OllamaStatus::Running);
    c.begin_status_check();
    assert!(!c.finish_status_check(false));
    assert_eq!(c.status(), OllamaStatus::Stopped);
    let d = OllamaController::default();
    assert_eq!(d.status(), OllamaStatus::Stopped);
}

#[test]
fn model_listing_keeps_string_names_in_order() {
    let listing = obj(vec![(
        "models",
        Json::Array(vec![
            obj(vec![("name", s("llama3:8b"), "\"llama3:8b\"")]),
            obj(vec![("size", Json::Number("3".to_string()), "3")]),
            obj(vec![("name", Json::Number("4".to_string()), "4")]),
            s("loose"),
            obj(vec![("model", s("x"), "\"x\""), ("name", s("qwen"), "\"qwen\"")]),
        ]),
        "[]",
    )]);
    assert_eq!(model_names_from(&listing), vec!["llama3:8b".to_string(), "qwen".to_string()]);
    let mut c = OllamaController::new();
    c.store_models(Some(&listing));
    assert_eq!(c.models(), vec!["llama3:8b".to_string(), "qwen".to_string()]);
    c.store_models(None);
    assert!(c.models().is_empty());
    assert!(model_names_from(&obj(vec![("models", s("none"), "\"none\"")])).is_empty());
    assert!(model_names_from(&Json::Array(vec![])).is_empty());
}

#[test]
fn content_is_the_reply() {
    let (r, end) = reply_text(ok(answer(obj(vec![("content", s("Hello"), "\"Hello\"")]))));
    assert_eq!(r, Some(("Hello".to_string(), true)));
    assert!(matches!(end, OllamaEnd::Answered { status: 200, content_len: 5, field: ContentField::Content }));
}

#[test]
fn content_length_counts_utf8_bytes() {
    let (_, end) = reply_text(ok(answer(obj(vec![("content", s("héé"), "\"héé\"")]))));
    assert!(matches!(end, OllamaEnd::Answered { content_len: 5, .. }));
}

#[test]
fn empty_content_falls_back_to_thinking_then_response() {
    let (r, end) = reply_text(ok(answer(obj(vec![
        ("content", s(""), "\"\""),
        ("thinking", s("hmm"), "\"hmm\""),
    ]))));
    assert_eq!(r, Some(("hmm".to_string(), true)));
    assert!(matches!(end, OllamaEnd::Answered { field: ContentField::Thinking, content_len: 3, .. }));

    let top = obj(vec![
        ("message", obj(vec![("content", s(""), "\"\"")]), "{}"),
        ("response", s("resp"), "\"resp\""),
    ]);
    let (r, end) = reply_text(ok(top));
    assert_eq!(r, Some(("resp".to_string(), true)));
    assert!(matches!(end, OllamaEnd::Answered { field: ContentField::Response, .. }));

    let top = obj(vec![
        ("message", obj(vec![("content", s(""), "\"\""), ("thinking", Json::Null, "null")]), "{}"),
        ("response", s("resp"), "\"resp\""),
    ]);
    let (r, end) = reply_text(ok(top));
    assert_eq!(r, Some(("resp".to_string(), true)));
    assert!(matches!(end, OllamaEnd::Answered { field: ContentField::Thinking, .. }));
}

#[test]
fn empty_content_without_fallback_is_an_error() {
    let (r, end) = reply_text(ok(answer(obj(vec![("content", s(""), "\"\"")]))));
    assert_eq!(r, Some(("Error: Empty response from Ollama".to_string(), false)));
    assert!(matches!(end, OllamaEnd::EmptyContent { status: 200 }));
}

#[test]
fn malformed_answers() {
    let (r, end) = reply_text(ok(answer(obj(vec![("content", Json::Bool(true), "true")]))));
    assert_eq!(r, Some(("Error: Invalid content format from Ollama".to_string(), false)));
    assert!(matches!(end, OllamaEnd::InvalidContentType { status: 200 }));

    let (r, end) = reply_text(ok(answer(obj(vec![("role", s("assistant"), "\"assistant\"")]))));
    assert_eq!(r, Some(("Error: Invalid response format from Ollama".to_string(), false)));
    assert!(matches!(end, OllamaEnd::MissingContent { status: 200 }));

    let (r, end) = reply_text(ok(obj(vec![("done", Json::Bool(true), "true")])));
    assert_eq!(r, Some(("Error: Invalid response format from Ollama".to_string(), false)));
    assert!(matches!(end, OllamaEnd::MissingMessage { status: 200 }));

    let (r, end) = reply_text(ok(Json::Array(vec![])));
    assert_eq!(r, Some(("Error: Invalid response format from Ollama".to_string(), false)));
    assert!(matches!(end, OllamaEnd::MissingMessage { .. }));
}

#[test]
fn error_member_becomes_a_notice() {
    let (r, end) = reply_text(ok(obj(vec![("error", s("model not found"), "\"model not found\"")])));
    assert_eq!(r, Some(("Error: model not found".to_string(), false)));
    match end {
        OllamaEnd::OllamaError { status, message } => {
            assert_eq!(status, 200);
            assert_eq!(message, "Error: model not found");
        }
        _ => panic!("unexpected end"),
    }
    let plan = plan_json_reply(&obj(vec![("error", obj(vec![("code", Json::Number("7".to_string()), "7")]), "{\"code\":7}")]), 200);
    assert_eq!(plan.reply.unwrap().content, "Error: {\"code\":7}");
}

#[test]
fn transport_and_status_failures() {
    let (r, end) = reply_text(ChatExchange::NoClient);
    assert!(r.is_none());
    assert!(matches!(end, OllamaEnd::ClientBuildFailed));

    let (r, end) = reply_text(ChatExchange::SendFailed { error: "refused".to_string() });
    assert_eq!(r, Some(("Error: HTTP request failed: refused".to_string(), false)));
    assert!(matches!(end, OllamaEnd::TransportError { .. }));

    let (r, end) = reply_text(ChatExchange::Responded {
        status: 404,
        body: ResponseBody::Read { byte_len: 9, parsed: Err("x".to_string()) },
    });
    assert_eq!(r, Some(("Error: HTTP request failed with status 404 Not Found".to_string(), false)));
    assert!(matches!(end, OllamaEnd::HttpError { status: 404, error_body_len: Some(9) }));

    let (_, end) = reply_text(ChatExchange::Responded {
        status: 500,
        body: ResponseBody::Unreadable { error: "x".to_string() },
    });
    assert!(matches!(end, OllamaEnd::HttpError { status: 500, error_body_len: None }));

    let (r, end) = reply_text(ChatExchange::Responded {
        status: 200,
        body: ResponseBody::Unreadable { error: "reset".to_string() },
    });
    assert_eq!(r, Some(("Error: Failed to read response: reset".to_string(), false)));
    assert!(matches!(end, OllamaEnd::ReadError { status: 200, .. }));

    let (r, end) = reply_text(ChatExchange::Responded {
        status: 200,
        body: ResponseBody::Read { byte_len: 3, parsed: Err("expected value".to_string()) },
    });
    assert_eq!(r, Some(("Error: Failed to parse Ollama response: expected value".to_string(), false)));
    assert!(matches!(end, OllamaEnd::ParseError { status: 200, preview_len: 3, .. }));
}

#[test]
fn concluded_reply_carries_model_and_ids() {
    let plan = plan_reply(ok(answer(obj(vec![("content", s("Hi"), "\"Hi\"")]))));
    let (msg, rec) = conclude_reply(plan, "llama3", Some(70), "conv", "req");
    let msg = msg.unwrap();
    assert_eq!(msg.content, "Hi");
    assert_eq!(msg.from.as_deref(), Some("Ollama llama3"));
    assert_eq!(msg.source, MessageSource::Assistant);
    let g = msg.assistant_generation.unwrap();
    assert_eq!(g.model, "llama3");
    assert_eq!(g.num_predict, Some(70));
    let c = msg.correlation.unwrap();
    assert_eq!(c.conversation_id, "conv");
    assert_eq!(c.request_id, "req");
    assert_eq!(c.event_id.len(), 32);
    assert_eq!(rec.kind, "ollama_end");
    assert_eq!(rec.conversation_id, "conv");
    assert_eq!(rec.request_id, "req");
    assert_ne!(rec.event_id, c.event_id);
    assert!(matches!(rec.details, AuditDetails::OllamaEnd(OllamaEnd::Answered { .. })));

    let (msg, rec) = conclude_reply(plan_reply(ChatExchange::NoClient), "m", None, "c", "r");
    assert!(msg.is_none());
    assert!(matches!(rec.details, AuditDetails::OllamaEnd(OllamaEnd::ClientBuildFailed)));

    let (msg, _) = conclude_reply(
        plan_reply(ChatExchange::SendFailed { error: "e".to_string() }),
        "m",
        None,
        "c",
        "r",
    );
    let msg = msg.unwrap();
    assert_eq!(msg.from.as_deref(), Some("System"));
    assert_eq!(msg.source, MessageSource::System);
    assert!(msg.assistant_generation.is_none());
}

#[test]
fn start_record_describes_the_request() {
    let rec = start_record("llama3", None, "héllo", "conv", "req");
    assert_eq!(rec.kind, "ollama_start");
    assert_eq!(rec.schema_version, 1);
    match rec.details {
        AuditDetails::OllamaStart { model, endpoint, num_predict, prompt_len } => {
            assert_eq!(model, "llama3");
            assert_eq!(endpoint, "http://127.0.0.1:11434/api/chat");
            assert_eq!(num_predict, None);
            assert_eq!(prompt_len, 6);
        }
        _ => panic!("unexpected details"),
    }
}

#[test]
fn correlated_message_gets_fresh_event_and_time() {
    let m = correlated_chat_message("x".to_string(), Some("System".to_string()), "c", "r");
    let c = m.correlation.unwrap();
    assert_eq!(c.conversation_id, "c");
    assert_eq!(c.request_id, "r");
    assert_eq!(c.event_id.len(), 32);
    assert!(openchat::audit::rfc3339_time_of_day(&c.timestamp_rfc3339).is_some());
}

#[test]
fn failed_status_lines_and_success_range() {
    let (r, _) = reply_text(ChatExchange::Responded {
        status: 500,
        body: ResponseBody::Unreadable { error: "x".to_string() },
    });
    assert_eq!(
        r,
        Some(("Error: HTTP request failed with status 500 Internal Server Error".to_string(), false))
    );
    let (r, _) = reply_text(ChatExchange::Responded {
        status: 599,
        body: ResponseBody::Unreadable { error: "x".to_string() },
    });
    assert_eq!(
        r,
        Some(("Error: HTTP request failed with status 599 <unknown status code>".to_string(), false))
    );
    assert!(openchat::ollama::is_success(200));
    assert!(openchat::ollama::is_success(299));
    assert!(!openchat::ollama::is_success(199));
    assert!(!openchat::ollama::is_success(300));
}

#[test]
fn reply_bodies_are_read_from_their_text() {
    match read_reply_body("{\"message\":{\"content\":\"hé\"},\"n\":1}".to_string()) {
        ResponseBody::Read { byte_len, parsed: Ok(Json::Object(members)) } => {
            assert_eq!(byte_len, 35);
            assert_eq!(members.len(), 2);
            assert_eq!(members[0].key, "message");
            assert_eq!(members[0].text, "{\"content\":\"hé\"}");
            assert_eq!(members[1].key, "n");
            assert!(matches!(&members[1].value, Json::Number(t) if t == "1"));
        }
        _ => panic!("expected a parsed object"),
    }
    match read_reply_body("é".to_string()) {
        ResponseBody::Read { byte_len, parsed: Err(e) } => {
            assert_eq!(byte_len, 2);
            assert!(e.starts_with("expected value"));
        }
        _ => panic!("expected a parse error"),
    }
    let (r, end) = reply_text(read_and_respond(""));
    assert_eq!(
        r,
        Some(("Error: Failed to parse Ollama response: EOF while parsing a value at line 1 column 0".to_string(), false))
    );
    assert!(matches!(end, OllamaEnd::ParseError { status: 200, preview_len: 0, .. }));
}

fn read_and_respond(text: &str) -> ChatExchange {
    ChatExchange::Responded { status: 200, body: read_reply_body(text.to_string()) }
}

#[test]
fn model_listing_is_read_from_its_text() {
    let listing = read_model_listing("{\"models\":[{\"name\":\"llama3:8b\"},{\"name\":\"qwen\"}]}").unwrap();
    assert_eq!(model_names_from(&listing), vec!["llama3:8b".to_string(), "qwen".to_string()]);
    assert!(read_model_listing("not json").is_none());
}
