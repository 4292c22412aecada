//! The rules of the local HTTP API: which requests are answered how, and
//! how a posted body becomes a chat line and an audit record.

use vstd::prelude::*;
use vstd::string::StringExecFns;
use vstd::utf8::{valid_utf8, decode_utf8};
use crate::text::{text_eq, concat, trim};
use crate::audit_line::{LogValue, is_field, is_word_field};
use crate::chat::{ChatMessage, MessageCorrelation, MessageSource};
use crate::audit::{
    AuditRecord, AuditDetails, PayloadKind, SCHEMA_VERSION, is_hex_id, new_id,
    resolve_from_optional_payload, accepted_timestamp, is_rfc3339, is_timestamp_text, is_utc_text, is_formatted_now, is_v4_marked,
};

verus! {

/// A conversation message posted by an agent: a sender name and a message,
/// with optional metadata.
pub struct ConversationMessage {
    pub sender_id: Option<usize>,
    pub sender_name: String,
    pub receiver_id: Option<usize>,
    pub receiver_name: Option<String>,
    pub topic: Option<String>,
    pub message: String,
    pub timestamp: Option<String>,
}

/// A verdict posted by an evaluator agent: its name, a sentiment and a
/// message, with an optional timestamp.
pub struct EvaluatorResult {
    pub evaluator_name: String,
    pub sentiment: String,
    pub message: String,
    pub timestamp: Option<String>,
}

/// The text of an optional string.
pub open spec fn opt_string(o: Option<String>) -> Option<Seq<char>> {
    match o {
        Some(s) => Some(s@),
        None => None,
    }
}

/// What a request asks for.
#[derive(Clone, Copy, Debug, PartialEq, Eq, Structural)]
pub enum Route {
    /// `POST /`: a message for the chat.
    Ingest,
    /// `GET /health`.
    Health,
    /// `GET /v1/models`: the local models, OpenAI style.
    Models,
    /// `POST /v1/chat/completions`: a chat completion, OpenAI style.
    Completions,
    /// Anything else.
    NotFound,
}

/// The route of a method and a path.
pub open spec fn route_of(method: Seq<char>, path: Seq<char>) -> Route {
    if method == "POST"@ && path == "/"@ {
        Route::Ingest
    } else if method == "GET"@ && path == "/health"@ {
        Route::Health
    } else if method == "GET"@ && path == "/v1/models"@ {
        Route::Models
    } else if method == "POST"@ && path == "/v1/chat/completions"@ {
        Route::Completions
    } else {
        Route::NotFound
    }
}

/// The route of a request.
pub fn route(method: &str, path: &str) -> (r: Route)
    ensures
        r == route_of(method@, path@),
{
    if text_eq(method, "POST") && text_eq(path, "/") {
        Route::Ingest
    } else if text_eq(method, "GET") && text_eq(path, "/health") {
        Route::Health
    } else if text_eq(method, "GET") && text_eq(path, "/v1/models") {
        Route::Models
    } else if text_eq(method, "POST") && text_eq(path, "/v1/chat/completions") {
        Route::Completions
    } else {
        Route::NotFound
    }
}

/// An answer of the API.
pub enum HttpReply {
    /// A plain body with a status code.
    Text { status: u16, body: String },
    /// `200`: a JSON acknowledgement that names the request.
    Accepted { request_id: String },
    /// An OpenAI-style JSON error with a status code.
    ApiError { status: u16, message: String },
    /// `200`: the local models, as an OpenAI-style model list.
    ModelList { names: Vec<String> },
    /// `200`: the model's reply, as an OpenAI-style chat completion.
    Completion { model: String, content: String },
}

/// A member of the OpenAI-style model list: `id`, `object`, `owned_by`.
pub open spec fn is_model_item(v: LogValue, name: String) -> bool {
    v matches LogValue::Object(fs) && {
        &&& fs@.len() == 3
        &&& is_field(fs@[0], "id"@, LogValue::Text(name))
        &&& is_word_field(fs@[1], "object"@, "model"@)
        &&& is_word_field(fs@[2], "owned_by"@, "ollama"@)
    }
}

/// The one choice of a chat completion: `finish_reason`, `index`, and the
/// assistant's `message` (`content`, `role`).
pub open spec fn is_completion_choice(v: LogValue, content: String) -> bool {
    v matches LogValue::Object(fs) && {
        &&& fs@.len() == 3
        &&& is_word_field(fs@[0], "finish_reason"@, "stop"@)
        &&& is_field(fs@[1], "index"@, LogValue::Int(0))
        &&& fs@[2].0@ == "message"@
        &&& fs@[2].1 matches LogValue::Object(m) && {
            &&& m@.len() == 2
            &&& is_field(m@[0], "content"@, LogValue::Text(content))
            &&& is_word_field(m@[1], "role"@, "assistant"@)
        }
    }
}

/// The JSON body of a reply, its members in name order (as a `serde_json`
/// map orders them); a plain reply has no JSON body.
pub open spec fn is_reply_body(reply: HttpReply, body: Option<Seq<(&'static str, LogValue)>>) -> bool {
    match reply {
        HttpReply::Text { .. } => body is None,
        HttpReply::Accepted { request_id } => body matches Some(fs) && {
            &&& fs.len() == 3
            &&& is_word_field(fs[0], "message"@, "Message received"@)
            &&& is_field(fs[1], "request_id"@, LogValue::Text(request_id))
            &&& is_word_field(fs[2], "status"@, "ok"@)
        },
        HttpReply::ApiError { message, .. } => body matches Some(fs) && {
            &&& fs.len() == 1
            &&& fs[0].0@ == "error"@
            &&& fs[0].1 matches LogValue::Object(e) && e@.len() == 1 && is_field(
                e@[0],
                "message"@,
                LogValue::Text(message),
            )
        },
        HttpReply::ModelList { names } => body matches Some(fs) && {
            &&& fs.len() == 2
            &&& fs[0].0@ == "data"@
            &&& fs[0].1 matches LogValue::Array(items) && items@.len() == names@.len() && forall|
                i: int,
            |
                0 <= i < names@.len() ==> is_model_item(#[trigger] items@[i], names@[i])
            &&& is_word_field(fs[1], "object"@, "list"@)
        },
        HttpReply::Completion { model, content } => body matches Some(fs) && {
            &&& fs.len() == 3
            &&& fs[0].0@ == "choices"@
            &&& fs[0].1 matches LogValue::Array(cs) && cs@.len() == 1 && is_completion_choice(
                cs@[0],
                content,
            )
            &&& is_field(fs[1], "model"@, LogValue::Text(model))
            &&& is_word_field(fs[2], "object"@, "chat.completion"@)
        },
    }
}

/// The items of the model list, one per name, in order.
fn model_items(names: &Vec<String>) -> (items: Vec<LogValue>)
    ensures
        items@.len() == names@.len(),
        forall|i: int| 0 <= i < names@.len() ==> is_model_item(#[trigger] items@[i], names@[i]),
{
    let mut items: Vec<LogValue> = Vec::new();
    let n = names.len();
    for i in 0..n
        invariant
            n == names@.len(),
            items@.len() == i,
            forall|j: int| 0 <= j < i ==> is_model_item(#[trigger] items@[j], names@[j]),
    {
        let mut fs: Vec<(&'static str, LogValue)> = Vec::new();
        fs.push(("id", LogValue::Text(names[i].clone())));
        fs.push(("object", LogValue::Word("model")));
        fs.push(("owned_by", LogValue::Word("ollama")));
        items.push(LogValue::Object(fs));
    }
    items
}

/// The JSON body of a reply, laid out member by member; `None` for a plain
/// reply, whose body is its text.
pub fn reply_body(reply: &HttpReply) -> (r: Option<Vec<(&'static str, LogValue)>>)
    ensures
        is_reply_body(
            *reply,
            match r {
                Some(v) => Some(v@),
                None => None,
            },
        ),
{
    let mut fs: Vec<(&'static str, LogValue)> = Vec::new();
    match reply {
        HttpReply::Text { .. } => {
            return None;
        },
        HttpReply::Accepted { request_id } => {
            fs.push(("message", LogValue::Word("Message received")));
            fs.push(("request_id", LogValue::Text(request_id.clone())));
            fs.push(("status", LogValue::Word("ok")));
        },
        HttpReply::ApiError { message, .. } => {
            let mut e: Vec<(&'static str, LogValue)> = Vec::new();
            e.push(("message", LogValue::Text(message.clone())));
            fs.push(("error", LogValue::Object(e)));
        },
        HttpReply::ModelList { names } => {
            fs.push(("data", LogValue::Array(model_items(names))));
            fs.push(("object", LogValue::Word("list")));
        },
        HttpReply::Completion { model, content } => {
            let mut m: Vec<(&'static str, LogValue)> = Vec::new();
            m.push(("content", LogValue::Text(content.clone())));
            m.push(("role", LogValue::Word("assistant")));
            let mut choice: Vec<(&'static str, LogValue)> = Vec::new();
            choice.push(("finish_reason", LogValue::Word("stop")));
            choice.push(("index", LogValue::Int(0)));
            choice.push(("message", LogValue::Object(m)));
            let mut cs: Vec<LogValue> = Vec::new();
            cs.push(LogValue::Object(choice));
            fs.push(("choices", LogValue::Array(cs)));
            fs.push(("model", LogValue::Text(model.clone())));
            fs.push(("object", LogValue::Word("chat.completion")));
        },
    }
    Some(fs)
}

/// What to do with a request before its body is read.
pub enum Step {
    /// Answer at once.
    Reply(HttpReply),
    /// Read the body and ingest it.
    ReadBody,
    /// List the models of the model server.
    ListModels,
    /// Read the body as a chat completion request.
    ReadCompletion,
}

/// An OpenAI-style error with the given status and message.
pub open spec fn is_api_error(r: HttpReply, status: u16, message: Seq<char>) -> bool {
    r matches HttpReply::ApiError { status: s, message: m } && s == status && m@ == message
}

/// A plain answer with the given status and body.
pub open spec fn is_text_reply(r: HttpReply, status: u16, body: Seq<char>) -> bool {
    r matches HttpReply::Text { status: s, body: b } && s == status && b@ == body
}

/// The answer to a request, by its route and whether the API is enabled: a
/// disabled API answers `503` on its routes and ingests nothing; unknown
/// routes get `404` either way.
pub open spec fn is_first_step(method: Seq<char>, path: Seq<char>, enabled: bool, s: Step) -> bool {
    match route_of(method, path) {
        Route::Ingest => if enabled {
            s is ReadBody
        } else {
            s matches Step::Reply(r) && is_text_reply(
                r,
                503,
                "{\"status\": \"error\", \"message\": \"Server is disabled\"}"@,
            )
        },
        Route::Health => s matches Step::Reply(r) && if enabled {
            is_text_reply(r, 200, "OK"@)
        } else {
            is_text_reply(r, 503, "SERVICE_UNAVAILABLE"@)
        },
        Route::Models => if enabled {
            s is ListModels
        } else {
            s matches Step::Reply(r) && is_api_error(r, 503, "Server is disabled"@)
        },
        Route::Completions => if enabled {
            s is ReadCompletion
        } else {
            s matches Step::Reply(r) && is_api_error(r, 503, "Server is disabled"@)
        },
        Route::NotFound => s matches Step::Reply(r) && is_text_reply(r, 404, "Not Found"@),
    }
}

fn api_error(status: u16, message: &str) -> (r: HttpReply)
    ensures
        is_api_error(r, status, message@),
{
    HttpReply::ApiError { status, message: String::from_str(message) }
}

fn text_reply(status: u16, body: &str) -> (r: HttpReply)
    ensures
        is_text_reply(r, status, body@),
{
    HttpReply::Text { status, body: String::from_str(body) }
}

/// How a request is met before its body is read.
pub fn first_step(method: &str, path: &str, enabled: bool) -> (s: Step)
    ensures
        is_first_step(method@, path@, enabled, s),
{
    match route(method, path) {
        Route::Ingest => if enabled {
            Step::ReadBody
        } else {
            Step::Reply(text_reply(503, "{\"status\": \"error\", \"message\": \"Server is disabled\"}"))
        },
        Route::Health => if enabled {
            Step::Reply(text_reply(200, "OK"))
        } else {
            Step::Reply(text_reply(503, "SERVICE_UNAVAILABLE"))
        },
        Route::Models => if enabled {
            Step::ListModels
        } else {
            Step::Reply(api_error(503, "Server is disabled"))
        },
        Route::Completions => if enabled {
            Step::ReadCompletion
        } else {
            Step::Reply(api_error(503, "Server is disabled"))
        },
        Route::NotFound => Step::Reply(text_reply(404, "Not Found")),
    }
}

/// The answer when the body of a request cannot be read.
pub fn unreadable_body_reply() -> (r: HttpReply)
    ensures
        is_text_reply(r, 400, "Failed to read request body"@),
{
    text_reply(400, "Failed to read request body")
}

/// The text that `String::from_utf8_lossy` makes of `bytes`.
pub uninterp spec fn utf8_lossy(bytes: Seq<u8>) -> Seq<char>;

/// `String::from_utf8_lossy(bytes)`, owned. Stated: the result is
/// `utf8_lossy(bytes@)`, and on valid UTF-8 it is the decoded text (the
/// documentation: the input is returned unchanged when it is valid UTF-8).
#[verifier::external_body]
fn from_utf8_lossy(bytes: &[u8]) -> (s: String)
    ensures
        s@ == utf8_lossy(bytes@),
        valid_utf8(bytes@) ==> s@ == decode_utf8(bytes@),
{
    String::from_utf8_lossy(bytes).into_owned()
}

/// A posted body, read and decoded, waiting to be ingested.
pub struct PendingPost {
    /// The body as text; invalid UTF-8 is replaced.
    pub text: String,
    /// The length of the body in bytes.
    pub body_len: usize,
}

/// Decodes a posted body.
pub fn receive_post(body: &[u8]) -> (p: PendingPost)
    ensures
        p.text@ == utf8_lossy(body@),
        valid_utf8(body@) ==> p.text@ == decode_utf8(body@),
        p.body_len == body@.len(),
{
    PendingPost { text: from_utf8_lossy(body), body_len: body.len() }
}

/// What a posted body says: a conversation message where it reads as one,
/// else an evaluator verdict, else plain text from `API`.
pub struct Classified {
    pub content: String,
    pub from: String,
    pub kind: PayloadKind,
    /// The timestamp that the payload carries, if any.
    pub raw_ts: Option<String>,
}

/// The text of the chat line made of a posted body, given the conversation
/// message and the verdict it parses as (where it does): a conversation
/// message wins over a verdict, which wins over the plain text.
pub open spec fn posted_content(
    text: Seq<char>,
    conversation: Option<ConversationMessage>,
    evaluator: Option<EvaluatorResult>,
) -> Seq<char> {
    match conversation {
        Some(m) => m.message@,
        None => match evaluator {
            Some(e) => e.sentiment@ + ": "@ + e.message@,
            None => text,
        },
    }
}

/// The sender of the chat line made of a posted body.
pub open spec fn posted_sender(
    conversation: Option<ConversationMessage>,
    evaluator: Option<EvaluatorResult>,
) -> Seq<char> {
    match conversation {
        Some(m) => m.sender_name@,
        None => match evaluator {
            Some(e) => e.evaluator_name@,
            None => "API"@,
        },
    }
}

/// Which kind of body it was.
pub open spec fn posted_kind(
    conversation: Option<ConversationMessage>,
    evaluator: Option<EvaluatorResult>,
) -> PayloadKind {
    match conversation {
        Some(_) => PayloadKind::Conversation,
        None => match evaluator {
            Some(_) => PayloadKind::Evaluator,
            None => PayloadKind::Plain,
        },
    }
}

/// The timestamp that the body carries, if any.
pub open spec fn posted_timestamp(
    conversation: Option<ConversationMessage>,
    evaluator: Option<EvaluatorResult>,
) -> Option<Seq<char>> {
    match conversation {
        Some(m) => opt_string(m.timestamp),
        None => match evaluator {
            Some(e) => opt_string(e.timestamp),
            None => None,
        },
    }
}

/// `c` is the reading of the body.
pub open spec fn is_classified(
    text: Seq<char>,
    conversation: Option<ConversationMessage>,
    evaluator: Option<EvaluatorResult>,
    c: Classified,
) -> bool {
    &&& c.content@ == posted_content(text, conversation, evaluator)
    &&& c.from@ == posted_sender(conversation, evaluator)
    &&& c.kind == posted_kind(conversation, evaluator)
    &&& (match c.raw_ts {
        Some(t) => Some(t@),
        None => None,
    }) == posted_timestamp(conversation, evaluator)
}

/// Reads a body: a conversation message wins over a verdict, which wins over
/// plain text.
pub fn classify_body(
    text: &String,
    conversation: Option<ConversationMessage>,
    evaluator: Option<EvaluatorResult>,
) -> (c: Classified)
    ensures
        is_classified(text@, conversation, evaluator, c),
{
    match conversation {
        Some(m) => Classified {
            content: m.message,
            from: m.sender_name,
            kind: PayloadKind::Conversation,
            raw_ts: m.timestamp,
        },
        None => match evaluator {
            Some(e) => {
                let mut content = concat(e.sentiment.as_str(), ": ");
                content.append(e.message.as_str());
                Classified {
                    content,
                    from: e.evaluator_name,
                    kind: PayloadKind::Evaluator,
                    raw_ts: e.timestamp,
                }
            },
            None => Classified {
                content: text.clone(),
                from: String::from_str("API"),
                kind: PayloadKind::Plain,
                raw_ts: None,
            },
        },
    }
}

/// A posted message, taken in.
pub struct Ingested {
    /// The line for the chat.
    pub message: ChatMessage,
    /// The record for the audit log.
    pub record: AuditRecord,
    /// The answer to the request.
    pub reply: HttpReply,
}

/// Ingests a posted body: the chat line, the `http_in` record and the
/// acknowledgement all carry the same fresh request id; the line and the
/// record share the event id and the timestamp, which is the payload's own
/// where it is a valid RFC 3339 text.
pub fn ingest(
    post: PendingPost,
    conversation: Option<ConversationMessage>,
    evaluator: Option<EvaluatorResult>,
    conversation_id: &str,
) -> (r: Ingested)
    ensures
        r.message.content@ == posted_content(post.text@, conversation, evaluator),
        r.message.from matches Some(f) && f@ == posted_sender(conversation, evaluator),
        r.record.details == (AuditDetails::HttpIn {
            body_len: post.body_len,
            payload_kind: posted_kind(conversation, evaluator),
        }),
        accepted_timestamp(posted_timestamp(conversation, evaluator)) matches Some(t)
            ==> r.record.ts@ == t,
        accepted_timestamp(posted_timestamp(conversation, evaluator)) is None ==> is_utc_text(
            r.record.ts@,
        ) && is_formatted_now(r.record.ts@),
        is_timestamp_text(r.record.ts@),
        r.message.source == MessageSource::Api,
        !r.message.api_auto_respond,
        r.message.assistant_generation is None,
        r.message.correlation matches Some(k) && {
            &&& k.conversation_id@ == conversation_id@
            &&& k.request_id@ == r.record.request_id@
            &&& k.event_id@ == r.record.event_id@
            &&& k.timestamp_rfc3339@ == r.record.ts@
        },
        r.record.schema_version == SCHEMA_VERSION,
        r.record.kind@ == "http_in"@,
        r.record.conversation_id@ == conversation_id@,
        is_hex_id(r.record.request_id@),
        is_hex_id(r.record.event_id@),
        is_v4_marked(r.record.request_id@),
        is_v4_marked(r.record.event_id@),
        r.reply matches HttpReply::Accepted { request_id } && request_id@ == r.record.request_id@,
{
    let request_id = new_id();
    let event_id = new_id();
    let c = classify_body(&post.text, conversation, evaluator);
    let ts = match &c.raw_ts {
        Some(t) => resolve_from_optional_payload(Some(t.as_str())),
        None => resolve_from_optional_payload(None),
    };
    let message = ChatMessage {
        content: c.content.clone(),
        from: Some(c.from.clone()),
        correlation: Some(MessageCorrelation {
            conversation_id: String::from_str(conversation_id),
            event_id: event_id.clone(),
            request_id: request_id.clone(),
            timestamp_rfc3339: ts.clone(),
        }),
        source: MessageSource::Api,
        api_auto_respond: false,
        assistant_generation: None,
    };
    let record = AuditRecord {
        schema_version: SCHEMA_VERSION,
        kind: "http_in",
        ts,
        conversation_id: String::from_str(conversation_id),
        request_id: request_id.clone(),
        event_id,
        details: AuditDetails::HttpIn { body_len: post.body_len, payload_kind: c.kind },
    };
    Ingested { message, record, reply: HttpReply::Accepted { request_id } }
}

/// A timestamp posted with the message is kept when it is a valid RFC 3339
/// text: for a conversation message, and for an evaluator verdict posted
/// without one, the record's time and the line's correlation time are the
/// trimmed payload timestamp.
pub proof fn law_ingest_keeps_payload_time(
    post: PendingPost,
    conversation: Option<ConversationMessage>,
    evaluator: Option<EvaluatorResult>,
    conversation_id: &str,
    r: Ingested,
    t: String,
)
    requires
        call_ensures(ingest, (post, conversation, evaluator, conversation_id), r),
        match conversation {
            Some(m) => m.timestamp == Some(t),
            None => evaluator matches Some(e) && e.timestamp == Some(t),
        },
        trim(t@).len() > 0,
        is_rfc3339(trim(t@)),
    ensures
        r.record.ts@ == trim(t@),
        r.message.correlation matches Some(c) && c.timestamp_rfc3339@ == trim(t@),
{
}

/// A plain-text post carries no timestamp: its record and its line are
/// stamped with the current UTC time as the formatter wrote it.
pub proof fn law_ingest_plain_time_is_now(
    post: PendingPost,
    conversation_id: &str,
    r: Ingested,
)
    requires
        call_ensures(ingest, (post, None::<ConversationMessage>, None::<EvaluatorResult>, conversation_id), r),
    ensures
        is_formatted_now(r.record.ts@),
        r.message.correlation matches Some(c) && c.timestamp_rfc3339@ == r.record.ts@,
{
}

} // verus!

verus! {

/// A disabled API answers every request at once: it ingests nothing and
/// asks nothing of the model server; an enabled one reads the body of
/// `POST /` and of nothing else.
pub proof fn law_disabled_server_ingests_nothing(method: Seq<char>, path: Seq<char>, enabled: bool, s: Step)
    requires
        is_first_step(method, path, enabled, s),
    ensures
        !enabled ==> s is Reply,
        s is ReadBody <==> (enabled && route_of(method, path) == Route::Ingest),
{
}

} // verus!
