//! The OpenAI-compatible side of the HTTP API: reading a chat completion
//! request and shaping the answers of the model server.

use vstd::prelude::*;
use vstd::string::StringExecFns;
use crate::text::concat;
use crate::json::{Json, field, str_of, get, as_str, parse_json, parsed_json, json_error_text};
use crate::chat::texts;
use crate::ollama::{ReplyPlan, OllamaChatBody, OllamaOptions, model_names, model_names_from};
use crate::server::{HttpReply, is_api_error};

verus! {

/// One message of a completion request.
pub struct CompletionMessage {
    pub role: String,
    pub content: String,
}

/// A chat completion request, read from its JSON body. Numbers are kept as
/// their JSON text and handed on to the model server as they are.
pub struct CompletionRequest {
    pub model: String,
    pub messages: Vec<CompletionMessage>,
    /// `max_tokens`, which becomes the model server's `num_predict`.
    pub max_tokens: Option<String>,
    pub temperature: Option<String>,
    pub seed: Option<String>,
}

/// The abstract content of a completion request.
pub struct CompletionSpec {
    pub model: Seq<char>,
    pub messages: Seq<(Seq<char>, Seq<char>)>,
    pub max_tokens: Option<Seq<char>>,
    pub temperature: Option<Seq<char>>,
    pub seed: Option<Seq<char>>,
}

/// The text of an optional string.
pub open spec fn opt_text(o: Option<String>) -> Option<Seq<char>> {
    match o {
        Some(s) => Some(s@),
        None => None,
    }
}

/// The content of a request value.
pub open spec fn request_view(r: CompletionRequest) -> CompletionSpec {
    CompletionSpec {
        model: r.model@,
        messages: r.messages@.map_values(|m: CompletionMessage| (m.role@, m.content@)),
        max_tokens: opt_text(r.max_tokens),
        temperature: opt_text(r.temperature),
        seed: opt_text(r.seed),
    }
}

/// A message of the request: an object with a string `role` and a string
/// `content`.
pub open spec fn message_of(item: Json) -> Option<(Seq<char>, Seq<char>)> {
    match (str_of(field(item, "role"@)), str_of(field(item, "content"@))) {
        (Some(role), Some(content)) => Some((role, content)),
        _ => None,
    }
}

/// The messages of the request, where every entry is one.
pub open spec fn messages_of(items: Seq<Json>) -> Option<Seq<(Seq<char>, Seq<char>)>>
    decreases items.len(),
{
    if items.len() == 0 {
        Some(Seq::empty())
    } else {
        match (messages_of(items.drop_last()), message_of(items.last())) {
            (Some(rest), Some(m)) => Some(rest.push(m)),
            _ => None,
        }
    }
}

/// An optional number member: absent or `null` is none; a number is its
/// text; anything else is refused.
pub open spec fn number_member(j: Json, key: Seq<char>) -> Result<Option<Seq<char>>, ()> {
    match field(j, key) {
        None => Ok(None),
        Some(Json::Null) => Ok(None),
        Some(Json::Number(t)) => Ok(Some(t@)),
        Some(_) => Err(()),
    }
}

/// The message for a refused optional number.
pub open spec fn not_a_number(key: Seq<char>) -> Seq<char> {
    key + " must be a number"@
}

/// The message for refused messages.
pub open spec fn bad_messages() -> Seq<char> {
    "messages must be a list of {role, content} objects"@
}

/// What a completion request body says, or why it is refused: it must be an
/// object; `stream: true` is refused (streaming is not supported); `model`
/// must be a string; `messages` a list of `{role, content}` strings;
/// `max_tokens`, `temperature` and `seed` numbers where present.
pub open spec fn completion_request_of(j: Json) -> Result<CompletionSpec, Seq<char>> {
    if !(j is Object) {
        Err("request body must be a JSON object"@)
    } else if field(j, "stream"@) == Some(Json::Bool(true)) {
        Err("Streaming is not supported"@)
    } else if str_of(field(j, "model"@)) is None {
        Err("model is required"@)
    } else {
        match field(j, "messages"@) {
            Some(Json::Array(items)) => match messages_of(items@) {
                None => Err(bad_messages()),
                Some(messages) => match (
                    number_member(j, "max_tokens"@),
                    number_member(j, "temperature"@),
                    number_member(j, "seed"@),
                ) {
                    (Err(_), _, _) => Err(not_a_number("max_tokens"@)),
                    (_, Err(_), _) => Err(not_a_number("temperature"@)),
                    (_, _, Err(_)) => Err(not_a_number("seed"@)),
                    (Ok(max_tokens), Ok(temperature), Ok(seed)) => Ok(
                        CompletionSpec {
                            model: str_of(field(j, "model"@))->0,
                            messages,
                            max_tokens,
                            temperature,
                            seed,
                        },
                    ),
                },
            },
            _ => Err(bad_messages()),
        }
    }
}

/// The text of an optional number member; `Err` where it is no number.
fn read_number(j: &Json, key: &str) -> (r: Result<Option<String>, ()>)
    ensures
        (match (r, number_member(*j, key@)) {
            (Ok(a), Ok(b)) => opt_text(a) == b,
            (Err(_), Err(_)) => true,
            _ => false,
        }),
{
    match get(j, key) {
        None => Ok(None),
        Some(Json::Null) => Ok(None),
        Some(Json::Number(t)) => Ok(Some(t.clone())),
        Some(_) => Err(()),
    }
}

/// The messages of a request, where every entry is one.
fn read_messages(items: &Vec<Json>) -> (r: Option<Vec<CompletionMessage>>)
    ensures
        (match (r, messages_of(items@)) {
            (Some(v), Some(ms)) => v@.map_values(|m: CompletionMessage| (m.role@, m.content@)) == ms,
            (None, None) => true,
            _ => false,
        }),
{
    let mut out: Vec<CompletionMessage> = Vec::new();
    let n = items.len();
    for i in 0..n
        invariant
            n == items@.len(),
            messages_of(items@.subrange(0, i as int)) == Some(
                out@.map_values(|m: CompletionMessage| (m.role@, m.content@)),
            ),
    {
        proof {
            let pre = items@.subrange(0, i as int + 1);
            assert(pre.drop_last() =~= items@.subrange(0, i as int));
            assert(pre.last() == items@[i as int]);
        }
        let role = as_str(get(&items[i], "role"));
        let content = as_str(get(&items[i], "content"));
        match (role, content) {
            (Some(role), Some(content)) => {
                out.push(CompletionMessage { role: role.clone(), content: content.clone() });
                assert(out@.map_values(|m: CompletionMessage| (m.role@, m.content@)) =~= messages_of(
                    items@.subrange(0, i as int + 1),
                )->0);
            },
            _ => {
                proof {
                    lemma_messages_of_prefix_none(items@, i as int + 1);
                }
                return None;
            },
        }
    }
    assert(items@.subrange(0, n as int) =~= items@);
    Some(out)
}

proof fn lemma_messages_of_prefix_none(items: Seq<Json>, k: int)
    requires
        0 <= k <= items.len(),
        messages_of(items.subrange(0, k)) is None,
    ensures
        messages_of(items) is None,
    decreases items.len() - k,
{
    if k < items.len() {
        let pre = items.subrange(0, k + 1);
        assert(pre.drop_last() =~= items.subrange(0, k));
        lemma_messages_of_prefix_none(items, k + 1);
    } else {
        assert(items.subrange(0, k) =~= items);
    }
}

fn refuse(message: String) -> (r: HttpReply)
    ensures
        is_api_error(r, 400, message@),
{
    HttpReply::ApiError { status: 400, message }
}

/// Reads a completion request from its parsed body; a body that is no JSON
/// is refused with the parser's message.
pub fn read_completion_request(body: &Result<Json, String>) -> (r: Result<CompletionRequest, HttpReply>)
    ensures
        body matches Err(e) ==> (r matches Err(reply) && is_api_error(
            reply,
            400,
            "invalid JSON: "@ + e@,
        )),
        body matches Ok(j) ==> match (r, completion_request_of(*j)) {
            (Ok(req), Ok(spec)) => request_view(req) == spec,
            (Err(reply), Err(message)) => is_api_error(reply, 400, message),
            _ => false,
        },
{
    let j = match body {
        Err(e) => {
            return Err(refuse(concat("invalid JSON: ", e.as_str())));
        },
        Ok(j) => j,
    };
    if !(match j {
        Json::Object(_) => true,
        _ => false,
    }) {
        return Err(refuse(String::from_str("request body must be a JSON object")));
    }
    match get(j, "stream") {
        Some(Json::Bool(true)) => {
            return Err(refuse(String::from_str("Streaming is not supported")));
        },
        _ => {},
    }
    let model = match as_str(get(j, "model")) {
        Some(m) => m.clone(),
        None => {
            return Err(refuse(String::from_str("model is required")));
        },
    };
    let messages = match get(j, "messages") {
        Some(Json::Array(items)) => match read_messages(items) {
            Some(ms) => ms,
            None => {
                return Err(
                    refuse(String::from_str("messages must be a list of {role, content} objects")),
                );
            },
        },
        _ => {
            return Err(
                refuse(String::from_str("messages must be a list of {role, content} objects")),
            );
        },
    };
    let max_tokens = read_number(j, "max_tokens");
    let temperature = read_number(j, "temperature");
    let seed = read_number(j, "seed");
    match (max_tokens, temperature, seed) {
        (Err(_), _, _) => Err(refuse(concat("max_tokens", " must be a number"))),
        (_, Err(_), _) => Err(refuse(concat("temperature", " must be a number"))),
        (_, _, Err(_)) => Err(refuse(concat("seed", " must be a number"))),
        (Ok(max_tokens), Ok(temperature), Ok(seed)) => {
            let req = CompletionRequest { model, messages, max_tokens, temperature, seed };
            assert(request_view(req) =~= completion_request_of(*j)->Ok_0);
            Ok(req)
        },
    }
}

/// The answer to a completion request once the model server was asked: the
/// model's reply as a completion; a notice as a `502` error with its text;
/// no client at all as a `502` error.
pub fn completion_reply(model: &str, plan: ReplyPlan) -> (r: HttpReply)
    ensures
        (match plan.reply {
            Some(p) => if p.from_model {
                r matches HttpReply::Completion { model: m, content } && m@ == model@ && content@
                    == p.content@
            } else {
                is_api_error(r, 502, p.content@)
            },
            None => is_api_error(r, 502, "Error: no HTTP client for the model server"@),
        }),
{
    match plan.reply {
        Some(p) => if p.from_model {
            HttpReply::Completion { model: String::from_str(model), content: p.content }
        } else {
            HttpReply::ApiError { status: 502, message: p.content }
        },
        None => HttpReply::ApiError {
            status: 502,
            message: String::from_str("Error: no HTTP client for the model server"),
        },
    }
}

/// The answer to `GET /v1/models`: the names of the listing, or a `502`
/// error where the model server could not be asked.
pub fn models_reply(listing: Option<&Json>) -> (r: HttpReply)
    ensures
        (match listing {
            Some(j) => r matches HttpReply::ModelList { names } && texts(names@) == model_names(*j),
            None => is_api_error(r, 502, "Ollama is not reachable"@),
        }),
{
    match listing {
        Some(j) => HttpReply::ModelList { names: model_names_from(j) },
        None => HttpReply::ApiError { status: 502, message: String::from_str("Ollama is not reachable") },
    }
}

/// Reads a completion request from the text of its body: the body is
/// parsed as JSON, then read as `read_completion_request` reads it.
pub fn read_completion_text(text: &str) -> (r: Result<CompletionRequest, HttpReply>)
    ensures
        parsed_json(text@) is None ==> (r matches Err(reply) && is_api_error(
            reply,
            400,
            "invalid JSON: "@ + json_error_text(text@),
        )),
        parsed_json(text@) matches Some(j) ==> match (r, completion_request_of(j)) {
            (Ok(req), Ok(spec)) => request_view(req) == spec,
            (Err(reply), Err(message)) => is_api_error(reply, 400, message),
            _ => false,
        },
{
    let body = parse_json(text);
    read_completion_request(&body)
}

} // verus!

verus! {

fn clone_opt(s: &Option<String>) -> (r: Option<String>)
    ensures
        r == *s,
{
    match s {
        Some(x) => Some(x.clone()),
        None => None,
    }
}

/// The model server's request for a completion request: the same model and
/// messages, no streaming, and `max_tokens` (as `num_predict`),
/// `temperature` and `seed` as options, the options left out where none is
/// given.
pub fn completion_request_body(req: &CompletionRequest) -> (b: OllamaChatBody)
    ensures
        b.model@ == req.model@,
        b.messages@.map_values(|m: CompletionMessage| (m.role@, m.content@))
            == req.messages@.map_values(|m: CompletionMessage| (m.role@, m.content@)),
        !b.stream,
        (req.max_tokens is None && req.temperature is None && req.seed is None) ==> b.options is None,
        !(req.max_tokens is None && req.temperature is None && req.seed is None) ==> (
        b.options matches Some(o) && opt_text(o.num_predict) == opt_text(req.max_tokens)
            && opt_text(o.temperature) == opt_text(req.temperature) && opt_text(o.seed) == opt_text(
            req.seed,
        )),
{
    let mut messages: Vec<CompletionMessage> = Vec::new();
    let n = req.messages.len();
    for i in 0..n
        invariant
            n == req.messages@.len(),
            messages@.len() == i,
            forall|k: int|
                0 <= k < i ==> (#[trigger] messages@[k]).role@ == req.messages@[k].role@
                    && messages@[k].content@ == req.messages@[k].content@,
    {
        messages.push(
            CompletionMessage {
                role: req.messages[i].role.clone(),
                content: req.messages[i].content.clone(),
            },
        );
    }
    assert(messages@.map_values(|m: CompletionMessage| (m.role@, m.content@)) =~= req.messages@.map_values(
        |m: CompletionMessage| (m.role@, m.content@),
    ));
    let options = if req.max_tokens.is_none() && req.temperature.is_none() && req.seed.is_none() {
        None
    } else {
        Some(
            OllamaOptions {
                num_predict: clone_opt(&req.max_tokens),
                temperature: clone_opt(&req.temperature),
                seed: clone_opt(&req.seed),
            },
        )
    };
    OllamaChatBody { model: req.model.clone(), messages, stream: false, options }
}

} // verus!
