//! The layout of one audit log line: its fields in the order they are
//! written, with the details of each kind of record.

use vstd::prelude::*;
use crate::audit::{AuditRecord, AuditDetails, PayloadKind};
use crate::ollama::{OllamaEnd, ContentField};

verus! {

/// A JSON value as the library lays it out (in an audit log line, an
/// export or a reply body).
pub enum LogValue {
    Null,
    Bool(bool),
    Int(i128),
    /// A text taken from the record.
    Text(String),
    /// A fixed word of the layout.
    Word(&'static str),
    /// An object, with its fields in the order they are written.
    Object(Vec<(&'static str, LogValue)>),
    /// An array, its items in order.
    Array(Vec<LogValue>),
}

/// A field with the given name and value.
pub open spec fn is_field(f: (&'static str, LogValue), key: Seq<char>, v: LogValue) -> bool {
    f.0@ == key && f.1 == v
}

/// A field with the given name whose value is the given fixed word.
pub open spec fn is_word_field(f: (&'static str, LogValue), key: Seq<char>, word: Seq<char>) -> bool {
    &&& f.0@ == key
    &&& f.1 matches LogValue::Word(w) && w@ == word
}

/// `null` or the number.
pub open spec fn opt_int(o: Option<i32>) -> LogValue {
    match o {
        Some(n) => LogValue::Int(n as i128),
        None => LogValue::Null,
    }
}

/// `null` or the number.
pub open spec fn opt_len(o: Option<usize>) -> LogValue {
    match o {
        Some(n) => LogValue::Int(n as i128),
        None => LogValue::Null,
    }
}

/// The name of a payload kind.
pub open spec fn kind_word(k: PayloadKind) -> Seq<char> {
    match k {
        PayloadKind::Conversation => "conversation"@,
        PayloadKind::Evaluator => "evaluator"@,
        PayloadKind::Plain => "plain"@,
    }
}

/// The name of a content field.
pub open spec fn field_word(f: ContentField) -> Seq<char> {
    match f {
        ContentField::Content => "content"@,
        ContentField::Thinking => "thinking"@,
        ContentField::Response => "response"@,
    }
}

/// A failure of the model server with a status and a reason.
pub open spec fn is_reason_layout(fs: Seq<(&'static str, LogValue)>, status: u16, reason: Seq<char>) -> bool {
    &&& fs.len() == 3
    &&& is_field(fs[0], "http_status"@, LogValue::Int(status as i128))
    &&& is_word_field(fs[1], "reason"@, reason)
    &&& is_field(fs[2], "success"@, LogValue::Bool(false))
}

/// The details object of each kind of record, its fields in name order.
pub open spec fn is_details_layout(d: AuditDetails, fs: Seq<(&'static str, LogValue)>) -> bool {
    match d {
        AuditDetails::HttpIn { body_len, payload_kind } => {
            &&& fs.len() == 2
            &&& is_field(fs[0], "body_len"@, LogValue::Int(body_len as i128))
            &&& is_word_field(fs[1], "payload_kind"@, kind_word(payload_kind))
        },
        AuditDetails::OllamaStart { model, endpoint, num_predict, prompt_len } => {
            &&& fs.len() == 5
            &&& is_field(fs[0], "endpoint"@, LogValue::Text(endpoint))
            &&& is_field(fs[1], "model"@, LogValue::Text(model))
            &&& is_field(fs[2], "num_predict"@, opt_int(num_predict))
            &&& fs[3].0@ == "options"@
            &&& fs[3].1 matches LogValue::Object(os) && match num_predict {
                None => os@.len() == 0,
                Some(n) => os@.len() == 1 && is_field(
                    os@[0],
                    "num_predict"@,
                    LogValue::Int(n as i128),
                ),
            }
            &&& is_field(fs[4], "prompt_len"@, LogValue::Int(prompt_len as i128))
        },
        AuditDetails::OllamaEnd(end) => match end {
            OllamaEnd::ClientBuildFailed => {
                &&& fs.len() == 2
                &&& is_word_field(fs[0], "reason"@, "client_build_failed"@)
                &&& is_field(fs[1], "success"@, LogValue::Bool(false))
            },
            OllamaEnd::TransportError { error } => {
                &&& fs.len() == 3
                &&& is_field(fs[0], "http_status"@, LogValue::Null)
                &&& is_field(fs[1], "success"@, LogValue::Bool(false))
                &&& is_field(fs[2], "transport_error"@, LogValue::Text(error))
            },
            OllamaEnd::HttpError { status, error_body_len } => {
                &&& fs.len() == 3
                &&& is_field(fs[0], "error_body_len"@, opt_len(error_body_len))
                &&& is_field(fs[1], "http_status"@, LogValue::Int(status as i128))
                &&& is_field(fs[2], "success"@, LogValue::Bool(false))
            },
            OllamaEnd::ReadError { status, error } => {
                &&& fs.len() == 3
                &&& is_field(fs[0], "http_status"@, LogValue::Int(status as i128))
                &&& is_field(fs[1], "read_error"@, LogValue::Text(error))
                &&& is_field(fs[2], "success"@, LogValue::Bool(false))
            },
            OllamaEnd::OllamaError { status, message } => {
                &&& fs.len() == 3
                &&& is_field(fs[0], "http_status"@, LogValue::Int(status as i128))
                &&& is_field(fs[1], "ollama_error"@, LogValue::Text(message))
                &&& is_field(fs[2], "success"@, LogValue::Bool(false))
            },
            OllamaEnd::Answered { status, content_len, field } => {
                &&& fs.len() == 4
                &&& is_field(fs[0], "assistant_content_len"@, LogValue::Int(content_len as i128))
                &&& is_word_field(fs[1], "content_field"@, field_word(field))
                &&& is_field(fs[2], "http_status"@, LogValue::Int(status as i128))
                &&& is_field(fs[3], "success"@, LogValue::Bool(true))
            },
            OllamaEnd::EmptyContent { status } => is_reason_layout(fs, status, "empty_content"@),
            OllamaEnd::InvalidContentType { status } => is_reason_layout(
                fs,
                status,
                "invalid_content_type"@,
            ),
            OllamaEnd::MissingContent { status } => is_reason_layout(fs, status, "missing_content"@),
            OllamaEnd::MissingMessage { status } => is_reason_layout(fs, status, "missing_message"@),
            OllamaEnd::ParseError { status, error, preview_len } => {
                &&& fs.len() == 4
                &&& is_field(fs[0], "http_status"@, LogValue::Int(status as i128))
                &&& is_field(fs[1], "parse_error"@, LogValue::Text(error))
                &&& is_field(fs[2], "response_preview_len"@, LogValue::Int(preview_len as i128))
                &&& is_field(fs[3], "success"@, LogValue::Bool(false))
            },
        },
    }
}

/// The layout of a whole line: the record's fields in declaration order,
/// the details last.
pub open spec fn is_line_layout(rec: AuditRecord, fs: Seq<(&'static str, LogValue)>) -> bool {
    &&& fs.len() == 7
    &&& is_field(fs[0], "schema_version"@, LogValue::Int(rec.schema_version as i128))
    &&& fs[1].0@ == "kind"@
    &&& fs[1].1 matches LogValue::Word(k) && k@ == rec.kind@
    &&& is_field(fs[2], "ts"@, LogValue::Text(rec.ts))
    &&& is_field(fs[3], "conversation_id"@, LogValue::Text(rec.conversation_id))
    &&& is_field(fs[4], "request_id"@, LogValue::Text(rec.request_id))
    &&& is_field(fs[5], "event_id"@, LogValue::Text(rec.event_id))
    &&& fs[6].0@ == "details"@
    &&& fs[6].1 matches LogValue::Object(d) && is_details_layout(
        rec.details,
        d@,
    )
}

fn field(key: &'static str, v: LogValue) -> (f: (&'static str, LogValue))
    ensures
        f.0 == key,
        f.1 == v,
{
    (key, v)
}

fn reason_fields(status: u16, reason: &'static str) -> (fs: Vec<(&'static str, LogValue)>)
    ensures
        is_reason_layout(fs@, status, reason@),
{
    let mut fs = Vec::new();
    fs.push(field("http_status", LogValue::Int(status as i128)));
    fs.push(field("reason", LogValue::Word(reason)));
    fs.push(field("success", LogValue::Bool(false)));
    fs
}

fn opt_len_value(o: &Option<usize>) -> (v: LogValue)
    ensures
        v == opt_len(*o),
{
    match o {
        Some(n) => LogValue::Int(*n as i128),
        None => LogValue::Null,
    }
}

/// The details object of a record.
pub fn details_fields(d: &AuditDetails) -> (fs: Vec<(&'static str, LogValue)>)
    ensures
        is_details_layout(*d, fs@),
{
    let mut fs: Vec<(&'static str, LogValue)> = Vec::new();
    match d {
        AuditDetails::HttpIn { body_len, payload_kind } => {
            fs.push(field("body_len", LogValue::Int(*body_len as i128)));
            fs.push(field("payload_kind", LogValue::Word(payload_kind.name())));
        },
        AuditDetails::OllamaStart { model, endpoint, num_predict, prompt_len } => {
            fs.push(field("endpoint", LogValue::Text(endpoint.clone())));
            fs.push(field("model", LogValue::Text(model.clone())));
            let mut options: Vec<(&'static str, LogValue)> = Vec::new();
            match num_predict {
                Some(n) => {
                    fs.push(field("num_predict", LogValue::Int(*n as i128)));
                    options.push(field("num_predict", LogValue::Int(*n as i128)));
                },
                None => {
                    fs.push(field("num_predict", LogValue::Null));
                },
            }
            fs.push(field("options", LogValue::Object(options)));
            fs.push(field("prompt_len", LogValue::Int(*prompt_len as i128)));
        },
        AuditDetails::OllamaEnd(end) => match end {
            OllamaEnd::ClientBuildFailed => {
                fs.push(field("reason", LogValue::Word("client_build_failed")));
                fs.push(field("success", LogValue::Bool(false)));
            },
            OllamaEnd::TransportError { error } => {
                fs.push(field("http_status", LogValue::Null));
                fs.push(field("success", LogValue::Bool(false)));
                fs.push(field("transport_error", LogValue::Text(error.clone())));
            },
            OllamaEnd::HttpError { status, error_body_len } => {
                fs.push(field("error_body_len", opt_len_value(error_body_len)));
                fs.push(field("http_status", LogValue::Int(*status as i128)));
                fs.push(field("success", LogValue::Bool(false)));
            },
            OllamaEnd::ReadError { status, error } => {
                fs.push(field("http_status", LogValue::Int(*status as i128)));
                fs.push(field("read_error", LogValue::Text(error.clone())));
                fs.push(field("success", LogValue::Bool(false)));
            },
            OllamaEnd::OllamaError { status, message } => {
                fs.push(field("http_status", LogValue::Int(*status as i128)));
                fs.push(field("ollama_error", LogValue::Text(message.clone())));
                fs.push(field("success", LogValue::Bool(false)));
            },
            OllamaEnd::Answered { status, content_len, field: f } => {
                fs.push(field("assistant_content_len", LogValue::Int(*content_len as i128)));
                fs.push(field("content_field", LogValue::Word(f.name())));
                fs.push(field("http_status", LogValue::Int(*status as i128)));
                fs.push(field("success", LogValue::Bool(true)));
            },
            OllamaEnd::EmptyContent { status } => {
                fs = reason_fields(*status, "empty_content");
            },
            OllamaEnd::InvalidContentType { status } => {
                fs = reason_fields(*status, "invalid_content_type");
            },
            OllamaEnd::MissingContent { status } => {
                fs = reason_fields(*status, "missing_content");
            },
            OllamaEnd::MissingMessage { status } => {
                fs = reason_fields(*status, "missing_message");
            },
            OllamaEnd::ParseError { status, error, preview_len } => {
                fs.push(field("http_status", LogValue::Int(*status as i128)));
                fs.push(field("parse_error", LogValue::Text(error.clone())));
                fs.push(field("response_preview_len", LogValue::Int(*preview_len as i128)));
                fs.push(field("success", LogValue::Bool(false)));
            },
        },
    }
    fs
}

/// The fields of one audit log line, in the order they are written.
pub fn audit_line(rec: &AuditRecord) -> (fs: Vec<(&'static str, LogValue)>)
    ensures
        is_line_layout(*rec, fs@),
{
    let mut fs: Vec<(&'static str, LogValue)> = Vec::new();
    fs.push(field("schema_version", LogValue::Int(rec.schema_version as i128)));
    fs.push(field("kind", LogValue::Word(rec.kind)));
    fs.push(field("ts", LogValue::Text(rec.ts.clone())));
    fs.push(field("conversation_id", LogValue::Text(rec.conversation_id.clone())));
    fs.push(field("request_id", LogValue::Text(rec.request_id.clone())));
    fs.push(field("event_id", LogValue::Text(rec.event_id.clone())));
    fs.push(field("details", LogValue::Object(details_fields(&rec.details))));
    fs
}

/// The value under a key of a line: that of its first field with the key.
pub open spec fn value_under(fs: Seq<(&'static str, LogValue)>, key: Seq<char>) -> Option<LogValue>
    decreases fs.len(),
{
    if fs.len() == 0 {
        None
    } else if fs[0].0@ == key {
        Some(fs[0].1)
    } else {
        value_under(fs.drop_first(), key)
    }
}

/// Every written audit line carries the record's own values under their
/// keys: its schema version, its time, its conversation, the request id
/// (the one acknowledged to the client) and the event id.
pub proof fn law_audit_line_values(rec: &AuditRecord, fs: Vec<(&'static str, LogValue)>)
    requires
        call_ensures(audit_line, (rec,), fs),
    ensures
        value_under(fs@, "schema_version"@) == Some(LogValue::Int(rec.schema_version as i128)),
        value_under(fs@, "ts"@) == Some(LogValue::Text(rec.ts)),
        value_under(fs@, "conversation_id"@) == Some(LogValue::Text(rec.conversation_id)),
        value_under(fs@, "request_id"@) == Some(LogValue::Text(rec.request_id)),
        value_under(fs@, "event_id"@) == Some(LogValue::Text(rec.event_id)),
{
    reveal_strlit("schema_version");
    reveal_strlit("kind");
    reveal_strlit("ts");
    reveal_strlit("conversation_id");
    reveal_strlit("request_id");
    reveal_strlit("event_id");
    assert("schema_version"@.len() == 14 && "kind"@.len() == 4 && "ts"@.len() == 2);
    assert("conversation_id"@.len() == 15 && "request_id"@.len() == 10 && "event_id"@.len() == 8);
    let s = fs@;
    let s1 = s.drop_first();
    let s2 = s1.drop_first();
    let s3 = s2.drop_first();
    let s4 = s3.drop_first();
    let s5 = s4.drop_first();
    assert(s1[0] == s[1] && s2[0] == s[2] && s3[0] == s[3] && s4[0] == s[4] && s5[0] == s[5]);
    assert(value_under(s5, "event_id"@) == Some(s[5].1));
    assert(value_under(s4, "request_id"@) == Some(s[4].1));
    assert(value_under(s4, "event_id"@) == value_under(s5, "event_id"@));
    assert(value_under(s3, "conversation_id"@) == Some(s[3].1));
    assert(value_under(s3, "request_id"@) == value_under(s4, "request_id"@));
    assert(value_under(s3, "event_id"@) == value_under(s4, "event_id"@));
    assert(value_under(s2, "ts"@) == Some(s[2].1));
    assert(value_under(s2, "conversation_id"@) == value_under(s3, "conversation_id"@));
    assert(value_under(s2, "request_id"@) == value_under(s3, "request_id"@));
    assert(value_under(s2, "event_id"@) == value_under(s3, "event_id"@));
    assert(value_under(s1, "ts"@) == value_under(s2, "ts"@));
    assert(value_under(s1, "conversation_id"@) == value_under(s2, "conversation_id"@));
    assert(value_under(s1, "request_id"@) == value_under(s2, "request_id"@));
    assert(value_under(s1, "event_id"@) == value_under(s2, "event_id"@));
    assert(value_under(s, "schema_version"@) == Some(s[0].1));
    assert(value_under(s, "ts"@) == value_under(s1, "ts"@));
    assert(value_under(s, "conversation_id"@) == value_under(s1, "conversation_id"@));
    assert(value_under(s, "request_id"@) == value_under(s1, "request_id"@));
    assert(value_under(s, "event_id"@) == value_under(s1, "event_id"@));
}

} // verus!
