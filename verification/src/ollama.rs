//! Decisions around the local model server: its status, its list of models,
//! and how the answer to a chat request becomes a chat line and an audit
//! record.

use vstd::prelude::*;
use vstd::string::StringExecFns;
use vstd::utf8::encode_utf8;
use crate::text::{concat, int_text, i32_text};
use crate::openai::CompletionMessage;
use crate::json::{
    Json, JsonMember, field, member_of, str_of, get, get_member, as_str, parse_json, parsed_json,
    is_parse_of,
};
use crate::chat::{ChatMessage, MessageCorrelation, MessageSource, AssistantGeneration, texts};
use crate::audit::{
    AuditRecord, AuditDetails, SCHEMA_VERSION, is_hex_id, is_v4_marked, is_timestamp_text, is_utc_text,
    is_formatted_now, is_now_formatting, new_id,
    now_rfc3339,
};

verus! {

/// Base address of the local model server.
pub const OLLAMA_URL: &'static str = "http://127.0.0.1:11434";

/// Base address of the local model server, as text.
pub open spec fn ollama_url() -> Seq<char> {
    "http://127.0.0.1:11434"@
}

/// The address of the chat endpoint.
pub fn chat_endpoint() -> (r: String)
    ensures
        r@ == ollama_url() + "/api/chat"@,
{
    concat(OLLAMA_URL, "/api/chat")
}

/// The address of the endpoint that lists the installed models.
pub fn tags_endpoint() -> (r: String)
    ensures
        r@ == ollama_url() + "/api/tags"@,
{
    concat(OLLAMA_URL, "/api/tags")
}

/// Whether the model server answers.
#[derive(Clone, Copy, Debug, PartialEq, Eq, Structural)]
pub enum OllamaStatus {
    Running,
    Stopped,
    Checking,
}

/// The abstract state of the controller.
pub struct OllamaState {
    pub status: OllamaStatus,
    pub models: Seq<Seq<char>>,
}

/// What is known of the model server: its status and the models it offers.
pub struct OllamaController {
    status: OllamaStatus,
    models: Vec<String>,
}

impl View for OllamaController {
    type V = OllamaState;

    closed spec fn view(&self) -> OllamaState {
        OllamaState { status: self.status, models: texts(self.models@) }
    }
}

/// The name of one entry of a model listing, where it is a string.
pub open spec fn item_name(item: Json) -> Option<Seq<char>> {
    str_of(field(item, "name"@))
}

/// The names of the entries that have one, in order.
pub open spec fn names_of(items: Seq<Json>) -> Seq<Seq<char>>
    decreases items.len(),
{
    if items.len() == 0 {
        Seq::empty()
    } else {
        let rest = names_of(items.drop_last());
        match item_name(items.last()) {
            Some(n) => rest.push(n),
            None => rest,
        }
    }
}

/// The model names of a listing `{"models": [{"name": ...}, ...]}`; none
/// where `models` is missing or no array.
pub open spec fn model_names(j: Json) -> Seq<Seq<char>> {
    match field(j, "models"@) {
        Some(Json::Array(items)) => names_of(items@),
        _ => Seq::empty(),
    }
}

/// The model names of a listing, in order.
pub fn model_names_from(j: &Json) -> (names: Vec<String>)
    ensures
        texts(names@) == model_names(*j),
{
    let mut names: Vec<String> = Vec::new();
    match get(j, "models") {
        Some(Json::Array(items)) => {
            let n = items.len();
            for i in 0..n
                invariant
                    n == items@.len(),
                    texts(names@) == names_of(items@.subrange(0, i as int)),
            {
                proof {
                    let pre = items@.subrange(0, i as int + 1);
                    assert(pre.drop_last() =~= items@.subrange(0, i as int));
                    assert(pre.last() == items@[i as int]);
                }
                let name = as_str(get(&items[i], "name"));
                match name {
                    Some(s) => {
                        names.push(s.clone());
                        assert(texts(names@) =~= names_of(items@.subrange(0, i as int + 1)));
                    },
                    None => {},
                }
            }
            assert(items@.subrange(0, n as int) =~= items@);
        },
        _ => {
            assert(texts(names@) =~= Seq::empty());
        },
    }
    names
}

impl OllamaController {
    /// Nothing known yet: stopped, no models.
    pub fn new() -> (c: Self)
        ensures
            c@.status == OllamaStatus::Stopped,
            c@.models.len() == 0,
    {
        let c = OllamaController { status: OllamaStatus::Stopped, models: Vec::new() };
        assert(c@.models =~= Seq::empty());
        c
    }

    /// The last known status.
    pub fn status(&self) -> (s: OllamaStatus)
        ensures
            s == self@.status,
    {
        self.status
    }

    /// The models last listed.
    pub fn models(&self) -> (m: Vec<String>)
        ensures
            texts(m@) == self@.models,
    {
        let m = self.models.clone();
        assert(texts(m@) =~= texts(self.models@)) by {
            assert forall|i: int| 0 <= i < m@.len() implies m@[i]@ == self.models@[i]@ by {
                assert(vstd::pervasive::cloned(self.models@[i], m@[i]));
            }
        }
        m
    }

    /// A status check starts.
    pub fn begin_status_check(&mut self)
        ensures
            final(self)@ == (OllamaState { status: OllamaStatus::Checking, ..old(self)@ }),
    {
        self.status = OllamaStatus::Checking;
    }

    /// A status check ends: the server is running exactly when it answered.
    /// Returns whether the models are to be listed next.
    pub fn finish_status_check(&mut self, reachable: bool) -> (fetch_models: bool)
        ensures
            final(self)@ == (OllamaState {
                status: if reachable {
                    OllamaStatus::Running
                } else {
                    OllamaStatus::Stopped
                },
                ..old(self)@
            }),
            fetch_models == reachable,
    {
        self.status = if reachable {
            OllamaStatus::Running
        } else {
            OllamaStatus::Stopped
        };
        self.status == OllamaStatus::Running
    }

    /// Stores the outcome of listing the models: the names in the listing,
    /// or none where no listing could be read.
    pub fn store_models(&mut self, listing: Option<&Json>)
        ensures
            final(self)@ == (OllamaState {
                models: match listing {
                    Some(j) => model_names(*j),
                    None => Seq::empty(),
                },
                ..old(self)@
            }),
    {
        self.models = match listing {
            Some(j) => model_names_from(j),
            None => Vec::new(),
        };
        assert(self@.models =~= match listing {
            Some(j) => model_names(*j),
            None => Seq::empty(),
        });
    }
}

impl Default for OllamaController {
    fn default() -> (c: Self)
        ensures
            c@.status == OllamaStatus::Stopped,
            c@.models.len() == 0,
    {
        Self::new()
    }
}

/// A value that `http::StatusCode` can hold: `from_u16` takes 100..=999.
pub open spec fn is_status_code(status: u16) -> bool {
    100 <= status <= 999
}

/// The text that `http::StatusCode`'s `Display` writes for a status code:
/// the code, a space, and its canonical reason phrase (or
/// `<unknown status code>` where the code has none).
pub uninterp spec fn http_status_line(status: u16) -> Seq<char>;

/// `reqwest::StatusCode::from_u16(status)`, written with `to_string()`.
/// Stated: there is a line exactly for the codes 100..=999, it is
/// `http_status_line(status)`, and it begins with the code in decimal and a
/// space (`write!(f, "{} {}", code, reason)`). The reason phrases are a long
/// table and are not written out.
#[verifier::external_body]
fn status_line(status: u16) -> (r: Option<String>)
    ensures
        r is Some <==> is_status_code(status),
        r matches Some(s) ==> s@ == http_status_line(status) && (int_text(status as int)
            + " "@).is_prefix_of(s@),
{
    match reqwest::StatusCode::from_u16(status) {
        Ok(code) => Some(code.to_string()),
        Err(_) => None,
    }
}

/// Whether a status code reports success: 200..300, as
/// `http::StatusCode::is_success` tests it.
pub fn is_success(status: u16) -> (b: bool)
    ensures
        b == (200 <= status < 300),
{
    200 <= status && status < 300
}

/// How a chat request to the model server went, as far as the transport
/// tells it.
pub enum ChatExchange {
    /// No HTTP client could be built.
    NoClient,
    /// The request failed before any response; the error text.
    SendFailed { error: String },
    /// A response arrived.
    Responded { status: u16, body: ResponseBody },
}

/// The body of a response.
pub enum ResponseBody {
    /// It could not be read; the error text.
    Unreadable { error: String },
    /// Its length in bytes, and the JSON parse of it or the parser's error.
    Read { byte_len: usize, parsed: Result<Json, String> },
}

/// Reads the text of a response body: its length in bytes, and its JSON
/// value or the parser's message.
pub fn read_reply_body(text: String) -> (b: ResponseBody)
    ensures
        b matches ResponseBody::Read { byte_len, parsed } && byte_len == utf8_len(text@) as usize
            && is_parse_of(parsed, text@),
{
    let byte_len = text.as_str().len();
    let parsed = parse_json(text.as_str());
    ResponseBody::Read { byte_len, parsed }
}

/// Reads the model listing of the model server from its text: the JSON
/// value, or nothing where the text is no JSON.
pub fn read_model_listing(text: &str) -> (r: Option<Json>)
    ensures
        r == parsed_json(text@),
{
    match parse_json(text) {
        Ok(j) => Some(j),
        Err(_) => None,
    }
}

/// Which member of the answer held the reply text.
#[derive(Clone, Copy, Debug, PartialEq, Eq, Structural)]
pub enum ContentField {
    Content,
    Thinking,
    Response,
}

impl ContentField {
    /// The name that the audit log records.
    pub fn name(&self) -> (s: &'static str)
        ensures
            s@ == (match self {
                ContentField::Content => "content"@,
                ContentField::Thinking => "thinking"@,
                ContentField::Response => "response"@,
            }),
    {
        match self {
            ContentField::Content => "content",
            ContentField::Thinking => "thinking",
            ContentField::Response => "response",
        }
    }
}

/// How a request to the model server ended, as the audit log records it.
pub enum OllamaEnd {
    ClientBuildFailed,
    TransportError { error: String },
    HttpError { status: u16, error_body_len: Option<usize> },
    ReadError { status: u16, error: String },
    OllamaError { status: u16, message: String },
    Answered { status: u16, content_len: usize, field: ContentField },
    EmptyContent { status: u16 },
    InvalidContentType { status: u16 },
    MissingContent { status: u16 },
    MissingMessage { status: u16 },
    ParseError { status: u16, error: String, preview_len: usize },
}

/// The chat line that a request produces: its text, and whether it is the
/// model's reply (else a notice of this application).
pub struct PlannedReply {
    pub content: String,
    pub from_model: bool,
}

/// The chat line (if any) and the end record of a request.
pub struct ReplyPlan {
    pub reply: Option<PlannedReply>,
    pub end: OllamaEnd,
}

/// The length in bytes of a text in UTF-8.
pub open spec fn utf8_len(s: Seq<char>) -> nat {
    encode_utf8(s).len()
}

/// A notice with the given text.
pub open spec fn notice_reply(plan: ReplyPlan, text: Seq<char>) -> bool {
    plan.reply matches Some(p) && p.content@ == text && !p.from_model
}

/// A reply of the model with the given text.
pub open spec fn model_reply(plan: ReplyPlan, text: Seq<char>) -> bool {
    plan.reply matches Some(p) && p.content@ == text && p.from_model
}

/// The notice for an `error` member: its text where it is a string, else
/// its JSON text.
pub open spec fn error_notice(m: JsonMember) -> Seq<char> {
    match m.value {
        Json::Str(s) => "Error: "@ + s@,
        _ => "Error: "@ + m.text@,
    }
}

/// The text used when `content` is empty: `message.thinking`, else the
/// top-level `response`, where they are strings.
pub open spec fn fallback_text(json: Json, msg: Json) -> Option<Seq<char>> {
    match str_of(field(msg, "thinking"@)) {
        Some(t) => Some(t),
        None => str_of(field(json, "response"@)),
    }
}

/// The plan for a chat answer that parsed as JSON.
pub open spec fn is_json_reply_plan(json: Json, status: u16, plan: ReplyPlan) -> bool {
    match member_of(json, "error"@) {
        Some(m) => {
            &&& notice_reply(plan, error_notice(m))
            &&& plan.end matches OllamaEnd::OllamaError { status: s, message }
            &&& s == status
            &&& message@ == error_notice(m)
        },
        None => match field(json, "message"@) {
            None => {
                &&& notice_reply(plan, "Error: Invalid response format from Ollama"@)
                &&& plan.end == OllamaEnd::MissingMessage { status }
            },
            Some(msg) => match field(msg, "content"@) {
                None => {
                    &&& notice_reply(plan, "Error: Invalid response format from Ollama"@)
                    &&& plan.end == OllamaEnd::MissingContent { status }
                },
                Some(Json::Str(content)) => if content@.len() == 0 {
                    match fallback_text(json, msg) {
                        Some(text) => {
                            &&& model_reply(plan, text)
                            &&& plan.end == OllamaEnd::Answered {
                                status,
                                content_len: utf8_len(text) as usize,
                                field: if field(msg, "thinking"@) is Some {
                                    ContentField::Thinking
                                } else {
                                    ContentField::Response
                                },
                            }
                        },
                        None => {
                            &&& notice_reply(plan, "Error: Empty response from Ollama"@)
                            &&& plan.end == OllamaEnd::EmptyContent { status }
                        },
                    }
                } else {
                    &&& model_reply(plan, content@)
                    &&& plan.end == OllamaEnd::Answered {
                        status,
                        content_len: utf8_len(content@) as usize,
                        field: ContentField::Content,
                    }
                },
                Some(_) => {
                    &&& notice_reply(plan, "Error: Invalid content format from Ollama"@)
                    &&& plan.end == OllamaEnd::InvalidContentType { status }
                },
            },
        },
    }
}

/// The plan for any outcome of a chat request.
pub open spec fn is_reply_plan(ex: ChatExchange, plan: ReplyPlan) -> bool {
    match ex {
        ChatExchange::NoClient => plan.reply is None && plan.end == OllamaEnd::ClientBuildFailed,
        ChatExchange::SendFailed { error } => {
            &&& notice_reply(plan, "Error: HTTP request failed: "@ + error@)
            &&& plan.end == OllamaEnd::TransportError { error }
        },
        ChatExchange::Responded { status, body } => if !(200 <= status < 300) {
            &&& notice_reply(
                plan,
                "Error: HTTP request failed with status "@ + http_status_line(status),
            )
            &&& plan.end == OllamaEnd::HttpError {
                status,
                error_body_len: match body {
                    ResponseBody::Read { byte_len, .. } => Some(byte_len),
                    ResponseBody::Unreadable { .. } => None,
                },
            }
        } else {
            match body {
                ResponseBody::Unreadable { error } => {
                    &&& notice_reply(plan, "Error: Failed to read response: "@ + error@)
                    &&& plan.end == OllamaEnd::ReadError { status, error }
                },
                ResponseBody::Read { byte_len, parsed } => match parsed {
                    Err(e) => {
                        &&& notice_reply(plan, "Error: Failed to parse Ollama response: "@ + e@)
                        &&& plan.end == OllamaEnd::ParseError {
                            status,
                            error: e,
                            preview_len: byte_len,
                        }
                    },
                    Ok(json) => is_json_reply_plan(json, status, plan),
                },
            }
        },
    }
}

fn notice_plan(text: String, end: OllamaEnd) -> (plan: ReplyPlan)
    ensures
        plan.reply matches Some(p) && p.content == text && !p.from_model,
        plan.end == end,
{
    ReplyPlan { reply: Some(PlannedReply { content: text, from_model: false }), end }
}

fn answered_plan(text: String, status: u16, field: ContentField) -> (plan: ReplyPlan)
    ensures
        model_reply(plan, text@),
        plan.end == (OllamaEnd::Answered {
            status,
            content_len: utf8_len(text@) as usize,
            field,
        }),
{
    let content_len = text.as_str().len();
    ReplyPlan {
        reply: Some(PlannedReply { content: text, from_model: true }),
        end: OllamaEnd::Answered { status, content_len, field },
    }
}

/// Reads a chat answer that parsed as JSON: an `error` member becomes a
/// notice; otherwise `message.content` is the reply, with `message.thinking`
/// and then `response` standing in for an empty one.
pub fn plan_json_reply(json: &Json, status: u16) -> (plan: ReplyPlan)
    ensures
        is_json_reply_plan(*json, status, plan),
{
    match get_member(json, "error") {
        Some(m) => {
            let text = match &m.value {
                Json::Str(s) => concat("Error: ", s.as_str()),
                _ => concat("Error: ", m.text.as_str()),
            };
            let message = text.clone();
            return notice_plan(text, OllamaEnd::OllamaError { status, message });
        },
        None => {},
    }
    match get(json, "message") {
        None => notice_plan(
            String::from_str("Error: Invalid response format from Ollama"),
            OllamaEnd::MissingMessage { status },
        ),
        Some(msg) => match get(msg, "content") {
            None => notice_plan(
                String::from_str("Error: Invalid response format from Ollama"),
                OllamaEnd::MissingContent { status },
            ),
            Some(Json::Str(content)) => {
                if content.as_str().is_empty() {
                    let thinking = get(msg, "thinking");
                    let alternative = match as_str(thinking) {
                        Some(t) => Some(t),
                        None => as_str(get(json, "response")),
                    };
                    match alternative {
                        Some(text) => {
                            let field = if thinking.is_some() {
                                ContentField::Thinking
                            } else {
                                ContentField::Response
                            };
                            answered_plan(text.clone(), status, field)
                        },
                        None => notice_plan(
                            String::from_str("Error: Empty response from Ollama"),
                            OllamaEnd::EmptyContent { status },
                        ),
                    }
                } else {
                    answered_plan(content.clone(), status, ContentField::Content)
                }
            },
            Some(_) => notice_plan(
                String::from_str("Error: Invalid content format from Ollama"),
                OllamaEnd::InvalidContentType { status },
            ),
        },
    }
}

/// Turns the outcome of a chat request into the chat line to show (if any)
/// and the end record to log.
pub fn plan_reply(ex: ChatExchange) -> (plan: ReplyPlan)
    requires
        ex matches ChatExchange::Responded { status, .. } ==> is_status_code(status),
    ensures
        is_reply_plan(ex, plan),
{
    match ex {
        ChatExchange::NoClient => ReplyPlan { reply: None, end: OllamaEnd::ClientBuildFailed },
        ChatExchange::SendFailed { error } => {
            let text = concat("Error: HTTP request failed: ", error.as_str());
            notice_plan(text, OllamaEnd::TransportError { error })
        },
        ChatExchange::Responded { status, body } => {
            if !is_success(status) {
                let error_body_len = match &body {
                    ResponseBody::Read { byte_len, .. } => Some(*byte_len),
                    ResponseBody::Unreadable { .. } => None,
                };
                let line = status_line(status).unwrap();
                let text = concat("Error: HTTP request failed with status ", line.as_str());
                return notice_plan(text, OllamaEnd::HttpError { status, error_body_len });
            }
            match body {
                ResponseBody::Unreadable { error } => {
                    let text = concat("Error: Failed to read response: ", error.as_str());
                    notice_plan(text, OllamaEnd::ReadError { status, error })
                },
                ResponseBody::Read { byte_len, parsed } => match parsed {
                    Err(e) => {
                        let text = concat("Error: Failed to parse Ollama response: ", e.as_str());
                        notice_plan(
                            text,
                            OllamaEnd::ParseError { status, error: e, preview_len: byte_len },
                        )
                    },
                    Ok(json) => plan_json_reply(&json, status),
                },
            }
        },
    }
}

/// A request is logged at the time it is made: the `ollama_start` record's
/// time is the current UTC time as the formatter wrote it, and the epoch
/// only where the formatter wrote nothing.
pub proof fn law_start_record_time(
    model: &str,
    num_predict: Option<i32>,
    prompt: &str,
    conversation_id: &str,
    request_id: &str,
    rec: AuditRecord,
)
    requires
        call_ensures(start_record, (model, num_predict, prompt, conversation_id, request_id), rec),
    ensures
        exists|f: Option<Seq<char>>|
            #[trigger] is_now_formatting(f) && (f matches Some(t) ==> rec.ts@ == t) && (f is None
                ==> rec.ts@ == "1970-01-01T00:00:00Z"@),
{
    crate::audit::lemma_formatted_now_outcome(rec.ts@);
}

} // verus!

verus! {

/// The ids that tie a line to a conversation and a request, with a fresh
/// event id and a timestamp text of the current time.
pub open spec fn correlated_to(m: ChatMessage, conversation_id: Seq<char>, request_id: Seq<char>) -> bool {
    m.correlation matches Some(c) && {
        &&& c.conversation_id@ == conversation_id
        &&& c.request_id@ == request_id
        &&& is_hex_id(c.event_id@)
        &&& is_v4_marked(c.event_id@)
        &&& is_timestamp_text(c.timestamp_rfc3339@)
        &&& is_utc_text(c.timestamp_rfc3339@)
        &&& is_formatted_now(c.timestamp_rfc3339@)
    }
}

/// A notice of this application, tied to a conversation and a request, with
/// a fresh event id and the current time.
pub fn correlated_chat_message(
    content: String,
    from: Option<String>,
    conversation_id: &str,
    request_id: &str,
) -> (m: ChatMessage)
    ensures
        m.content == content,
        m.from == from,
        correlated_to(m, conversation_id@, request_id@),
        m.source == MessageSource::System,
        !m.api_auto_respond,
        m.assistant_generation is None,
{
    ChatMessage {
        content,
        from,
        correlation: Some(MessageCorrelation {
            conversation_id: String::from_str(conversation_id),
            event_id: new_id(),
            request_id: String::from_str(request_id),
            timestamp_rfc3339: now_rfc3339(),
        }),
        source: MessageSource::System,
        api_auto_respond: false,
        assistant_generation: None,
    }
}

/// The common part of every record about a request.
pub open spec fn is_request_record(
    rec: AuditRecord,
    kind: Seq<char>,
    conversation_id: Seq<char>,
    request_id: Seq<char>,
) -> bool {
    &&& rec.schema_version == SCHEMA_VERSION
    &&& rec.kind@ == kind
    &&& rec.conversation_id@ == conversation_id
    &&& rec.request_id@ == request_id
    &&& is_hex_id(rec.event_id@)
    &&& is_v4_marked(rec.event_id@)
    &&& is_timestamp_text(rec.ts@)
    &&& is_utc_text(rec.ts@)
    &&& is_formatted_now(rec.ts@)
}

/// The record logged before a chat request is sent: the model, the
/// endpoint, the token limit and the length of the prompt in bytes.
pub fn start_record(
    model: &str,
    num_predict: Option<i32>,
    prompt: &str,
    conversation_id: &str,
    request_id: &str,
) -> (rec: AuditRecord)
    ensures
        is_request_record(rec, "ollama_start"@, conversation_id@, request_id@),
        rec.details matches AuditDetails::OllamaStart { model: m, endpoint, num_predict: n, prompt_len } && {
            &&& m@ == model@
            &&& endpoint@ == ollama_url() + "/api/chat"@
            &&& n == num_predict
            &&& prompt_len == utf8_len(prompt@) as usize
        },
{
    AuditRecord {
        schema_version: SCHEMA_VERSION,
        kind: "ollama_start",
        ts: now_rfc3339(),
        conversation_id: String::from_str(conversation_id),
        request_id: String::from_str(request_id),
        event_id: new_id(),
        details: AuditDetails::OllamaStart {
            model: String::from_str(model),
            endpoint: chat_endpoint(),
            num_predict,
            prompt_len: prompt.len(),
        },
    }
}

/// The sender name of the model's replies: `Ollama <model>`.
pub open spec fn model_sender(model: Seq<char>) -> Seq<char> {
    "Ollama "@ + model
}

/// The line shown for a planned reply: the model's reply carries the model
/// and the token limit it was generated with; a notice comes from `System`.
pub open spec fn is_reply_line(
    m: ChatMessage,
    p: PlannedReply,
    model: Seq<char>,
    num_predict: Option<i32>,
    conversation_id: Seq<char>,
    request_id: Seq<char>,
) -> bool {
    &&& m.content@ == p.content@
    &&& correlated_to(m, conversation_id, request_id)
    &&& !m.api_auto_respond
    &&& if p.from_model {
        &&& m.from matches Some(f) && f@ == model_sender(model)
        &&& m.source == MessageSource::Assistant
        &&& m.assistant_generation matches Some(g) && g.model@ == model && g.num_predict == num_predict
    } else {
        &&& m.from matches Some(f) && f@ == "System"@
        &&& m.source == MessageSource::System
        &&& m.assistant_generation is None
    }
}

/// The chat line (if any) and the end record of a chat request. Both carry
/// the conversation and the request they belong to.
pub fn conclude_reply(
    plan: ReplyPlan,
    model: &str,
    num_predict: Option<i32>,
    conversation_id: &str,
    request_id: &str,
) -> (r: (Option<ChatMessage>, AuditRecord))
    ensures
        r.0 is Some <==> plan.reply is Some,
        (plan.reply matches Some(p) ==> r.0 matches Some(m) && is_reply_line(
            m,
            p,
            model@,
            num_predict,
            conversation_id@,
            request_id@,
        )),
        is_request_record(r.1, "ollama_end"@, conversation_id@, request_id@),
        r.1.details == AuditDetails::OllamaEnd(plan.end),
{
    let message = match plan.reply {
        Some(p) => {
            if p.from_model {
                let from = concat("Ollama ", model);
                let mut m = correlated_chat_message(
                    p.content,
                    Some(from),
                    conversation_id,
                    request_id,
                );
                m.source = MessageSource::Assistant;
                m.assistant_generation = Some(
                    AssistantGeneration { model: String::from_str(model), num_predict },
                );
                Some(m)
            } else {
                Some(
                    correlated_chat_message(
                        p.content,
                        Some(String::from_str("System")),
                        conversation_id,
                        request_id,
                    ),
                )
            }
        },
        None => None,
    };
    let record = AuditRecord {
        schema_version: SCHEMA_VERSION,
        kind: "ollama_end",
        ts: now_rfc3339(),
        conversation_id: String::from_str(conversation_id),
        request_id: String::from_str(request_id),
        event_id: new_id(),
        details: AuditDetails::OllamaEnd(plan.end),
    };
    (message, record)
}

} // verus!

verus! {

/// A successful response whose body parsed as JSON without an `error`
/// member.
pub open spec fn is_clean_answer(ex: ChatExchange) -> bool {
    match ex {
        ChatExchange::Responded { status, body } => 200 <= status < 300 && match body {
            ResponseBody::Read { parsed: Ok(json), .. } => member_of(json, "error"@) is None,
            _ => false,
        },
        _ => false,
    }
}

/// The model's reply is shown only for a successful response whose body
/// parsed as JSON without an `error` member; every other outcome but a
/// missing client shows a notice; only a missing client shows nothing.
pub proof fn law_reply_origin(ex: ChatExchange, plan: ReplyPlan)
    requires
        is_reply_plan(ex, plan),
    ensures
        (plan.reply matches Some(p) && p.from_model) ==> is_clean_answer(ex),
        plan.reply is None <==> ex is NoClient,
{
}

} // verus!

verus! {

/// Options of a chat request to the model server; numbers as JSON text.
pub struct OllamaOptions {
    pub num_predict: Option<String>,
    pub temperature: Option<String>,
    pub seed: Option<String>,
}

/// The body of a chat request to the model server (`POST /api/chat`), in
/// the order it is written: model, messages, stream, and options where any.
pub struct OllamaChatBody {
    pub model: String,
    pub messages: Vec<CompletionMessage>,
    pub stream: bool,
    pub options: Option<OllamaOptions>,
}

/// The request for one prompt of the person: one `user` message, no
/// streaming, and `options.num_predict` exactly where a token limit is set.
pub fn chat_request_body(model: &str, message: &str, num_predict: Option<i32>) -> (b: OllamaChatBody)
    ensures
        b.model@ == model@,
        b.messages@.len() == 1,
        b.messages@[0].role@ == "user"@,
        b.messages@[0].content@ == message@,
        !b.stream,
        (match num_predict {
            None => b.options is None,
            Some(n) => b.options matches Some(o) && o.num_predict matches Some(t) && t@ == int_text(
                n as int,
            ) && o.temperature is None && o.seed is None,
        }),
{
    let mut messages = Vec::new();
    messages.push(
        CompletionMessage { role: String::from_str("user"), content: String::from_str(message) },
    );
    let options = match num_predict {
        None => None,
        Some(n) => Some(OllamaOptions { num_predict: Some(i32_text(n)), temperature: None, seed: None }),
    };
    OllamaChatBody { model: String::from_str(model), messages, stream: false, options }
}

} // verus!
