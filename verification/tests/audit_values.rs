use openchat::audit::{AuditDetails, AuditRecord};
use openchat::audit_line::{audit_line, LogValue};
use openchat::ollama::OllamaEnd;
use openchat::audit::{
    accept_payload_timestamp, new_id, now_rfc3339, resolve_from_optional_payload, rfc3339_or_epoch,
    rfc3339_time_of_day, PayloadKind, SCHEMA_VERSION,
};

fn is_hex_id(s: &str) -> bool {
    s.len() == 32 && s.chars().all(|c| c.is_ascii_digit() || ('a'..='f').contains(&c))
}

#[test]
fn ids_are_32_lower_hex_digits_and_fresh() {
    let a = new_id();
    let b = new_id();
    assert!(is_hex_id(&a));
    assert!(is_hex_id(&b));
    for id in [&a, &b] {
        let c: Vec<char> = id.chars().collect();
        assert_eq!(c[12], '4');
        assert!(matches!(c[16], '8' | '9' | 'a' | 'b'));
    }
    assert_ne!(a, b);
}

#[test]
fn client_timestamp_is_kept_trimmed_when_valid() {
    assert_eq!(
        resolve_from_optional_payload(Some("  2024-01-02T03:04:05Z ")),
        "2024-01-02T03:04:05Z"
    );
    assert_eq!(
        resolve_from_optional_payload(Some("2024-06-30T23:59:59.5+02:00")),
        "2024-06-30T23:59:59.5+02:00"
    );
}

#[test]
fn resolving_a_resolved_timestamp_keeps_it() {
    let once = resolve_from_optional_payload(Some(" 2024-01-02T03:04:05Z"));
    assert_eq!(resolve_from_optional_payload(Some(&once)), once);
}

#[test]
fn invalid_or_missing_timestamp_falls_back_to_now() {
    for raw in [Some("11:44:50"), Some("   "), Some(""), None] {
        assert_eq!(accept_payload_timestamp(raw), None);
        let ts = resolve_from_optional_payload(raw);
        assert!(rfc3339_time_of_day(&ts).is_some(), "{ts}");
        assert_eq!(ts.trim(), ts);
        assert_ne!(Some(ts.as_str()), raw);
        assert!(ts.ends_with('Z'), "{ts}");
        assert_eq!(resolve_from_optional_payload(Some(&ts)), ts);
    }
}

#[test]
fn time_of_day_of_rfc3339_texts() {
    assert_eq!(rfc3339_time_of_day("2024-01-02T03:04:05+02:00"), Some((3, 4, 5)));
    assert_eq!(rfc3339_time_of_day("2024-01-02T23:59:59Z"), Some((23, 59, 59)));
    assert_eq!(rfc3339_time_of_day("2024-01-02 03:04:05"), None);
    assert_eq!(rfc3339_time_of_day("not a time"), None);
}

#[test]
fn now_is_rfc3339_and_epoch_is_the_fallback() {
    assert!(rfc3339_time_of_day(&now_rfc3339()).is_some());
    assert!(now_rfc3339().ends_with('Z'));
    assert_eq!(rfc3339_or_epoch(None), "1970-01-01T00:00:00Z");
    assert_eq!(rfc3339_time_of_day("1970-01-01T00:00:00Z"), Some((0, 0, 0)));
    assert_eq!(resolve_from_optional_payload(Some("1970-01-01T00:00:00Z")), "1970-01-01T00:00:00Z");
    assert_eq!(rfc3339_or_epoch(Some("x".to_string())), "x");
}

#[test]
fn payload_kind_names_and_schema() {
    assert_eq!(PayloadKind::Conversation.name(), "conversation");
    assert_eq!(PayloadKind::Evaluator.name(), "evaluator");
    assert_eq!(PayloadKind::Plain.name(), "plain");
    assert_eq!(SCHEMA_VERSION, 1);
}

#[test]
fn audit_line_layout() {
    let rec = AuditRecord {
        schema_version: 1,
        kind: "ollama_end",
        ts: "t".to_string(),
        conversation_id: "c".to_string(),
        request_id: "r".to_string(),
        event_id: "e".to_string(),
        details: AuditDetails::OllamaEnd(OllamaEnd::HttpError { status: 404, error_body_len: None }),
    };
    let line = audit_line(&rec);
    let keys: Vec<&str> = line.iter().map(|(k, _)| *k).collect();
    assert_eq!(keys, vec!["schema_version", "kind", "ts", "conversation_id", "request_id", "event_id", "details"]);
    assert!(matches!(line[0].1, LogValue::Int(1)));
    assert!(matches!(line[1].1, LogValue::Word("ollama_end")));
    match &line[6].1 {
        LogValue::Object(d) => {
            let keys: Vec<&str> = d.iter().map(|(k, _)| *k).collect();
            assert_eq!(keys, vec!["error_body_len", "http_status", "success"]);
            assert!(matches!(d[0].1, LogValue::Null));
            assert!(matches!(d[1].1, LogValue::Int(404)));
            assert!(matches!(d[2].1, LogValue::Bool(false)));
        }
        _ => panic!("details must be an object"),
    }
    let start = AuditRecord {
        details: AuditDetails::OllamaStart {
            model: "m".to_string(),
            endpoint: "x".to_string(),
            num_predict: Some(70),
            prompt_len: 3,
        },
        ..rec
    };
    match &audit_line(&start)[6].1 {
        LogValue::Object(d) => {
            let keys: Vec<&str> = d.iter().map(|(k, _)| *k).collect();
            assert_eq!(keys, vec!["endpoint", "model", "num_predict", "options", "prompt_len"]);
            match &d[3].1 {
                LogValue::Object(o) => {
                    assert_eq!(o[0].0, "num_predict");
                    assert!(matches!(o[0].1, LogValue::Int(70)));
                }
                _ => panic!("options must be an object"),
            }
        }
        _ => panic!("details must be an object"),
    }
}
