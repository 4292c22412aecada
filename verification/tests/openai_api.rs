use openchat::json::{Json, JsonMember};
use openchat::ollama::{plan_reply, ChatExchange, ResponseBody};
use openchat::ollama::chat_request_body;
use openchat::openai::{
    completion_reply, completion_request_body, models_reply, read_completion_request, read_completion_text,
};
use openchat::server::{first_step, route, HttpReply, Route, Step};

fn s(t: &str) -> Json {
    Json::Str(t.to_string())
}

fn n(t: &str) -> Json {
    Json::Number(t.to_string())
}

fn obj(members: Vec<(&str, Json)>) -> Json {
    Json::Object(
        members
            .into_iter()
            .map(|(k, v)| JsonMember { key: k.to_string(), value: v, text: String::new() })
            .collect(),
    )
}

fn msg(role: &str, content: &str) -> Json {
    obj(vec![("role", s(role)), ("content", s(content))])
}

fn refusal(body: Result<Json, String>) -> (u16, String) {
    match read_completion_request(&body) {
        Err(HttpReply::ApiError { status, message }) => (status, message),
        _ => panic!("expected a refusal"),
    }
}

#[test]
fn openai_routes() {
    assert_eq!(route("GET", "/v1/models"), Route::Models);
    assert_eq!(route("POST", "/v1/chat/completions"), Route::Completions);
    assert_eq!(route("POST", "/v1/models"), Route::NotFound);
    assert!(matches!(first_step("GET", "/v1/models", true), Step::ListModels));
    assert!(matches!(first_step("POST", "/v1/chat/completions", true), Step::ReadCompletion));
    match first_step("POST", "/v1/chat/completions", false) {
        Step::Reply(HttpReply::ApiError { status, message }) => {
            assert_eq!(status, 503);
            assert_eq!(message, "Server is disabled");
        }
        _ => panic!("expected 503"),
    }
}

#[test]
fn completion_request_is_read() {
    let body = obj(vec![
        ("model", s("llama3")),
        ("messages", Json::Array(vec![msg("system", "be brief"), msg("user", "hi")])),
        ("max_tokens", n("70")),
        ("temperature", n("0.2")),
        ("seed", Json::Null),
        ("stream", Json::Bool(false)),
    ]);
    let req = match read_completion_request(&Ok(body)) {
        Ok(r) => r,
        Err(_) => panic!("expected a request"),
    };
    assert_eq!(req.model, "llama3");
    assert_eq!(req.messages.len(), 2);
    assert_eq!(req.messages[1].role, "user");
    assert_eq!(req.messages[1].content, "hi");
    assert_eq!(req.max_tokens.as_deref(), Some("70"));
    assert_eq!(req.temperature.as_deref(), Some("0.2"));
    assert_eq!(req.seed, None);
}

#[test]
fn completion_request_refusals() {
    assert_eq!(refusal(Err("EOF".to_string())), (400, "invalid JSON: EOF".to_string()));
    assert_eq!(refusal(Ok(Json::Array(vec![]))), (400, "request body must be a JSON object".to_string()));
    assert_eq!(
        refusal(Ok(obj(vec![("model", s("m")), ("messages", Json::Array(vec![])), ("stream", Json::Bool(true))]))),
        (400, "Streaming is not supported".to_string())
    );
    assert_eq!(
        refusal(Ok(obj(vec![("messages", Json::Array(vec![]))]))),
        (400, "model is required".to_string())
    );
    assert_eq!(
        refusal(Ok(obj(vec![("model", s("m")), ("messages", Json::Array(vec![obj(vec![("role", s("user"))])]))]))),
        (400, "messages must be a list of {role, content} objects".to_string())
    );
    assert_eq!(
        refusal(Ok(obj(vec![("model", s("m")), ("messages", s("hi"))]))),
        (400, "messages must be a list of {role, content} objects".to_string())
    );
    assert_eq!(
        refusal(Ok(obj(vec![("model", s("m")), ("messages", Json::Array(vec![])), ("temperature", s("hot"))]))),
        (400, "temperature must be a number".to_string())
    );
}

#[test]
fn completion_and_model_list_replies() {
    let answer = obj(vec![("message", obj(vec![("content", s("Hello"))]))]);
    let plan = plan_reply(ChatExchange::Responded {
        status: 200,
        body: ResponseBody::Read { byte_len: 1, parsed: Ok(answer) },
    });
    match completion_reply("llama3", plan) {
        HttpReply::Completion { model, content } => {
            assert_eq!(model, "llama3");
            assert_eq!(content, "Hello");
        }
        _ => panic!("expected a completion"),
    }
    match completion_reply("m", plan_reply(ChatExchange::SendFailed { error: "down".to_string() })) {
        HttpReply::ApiError { status, message } => {
            assert_eq!(status, 502);
            assert_eq!(message, "Error: HTTP request failed: down");
        }
        _ => panic!("expected an error"),
    }
    let listing = obj(vec![("models", Json::Array(vec![obj(vec![("name", s("a"))])]))]);
    match models_reply(Some(&listing)) {
        HttpReply::ModelList { names } => assert_eq!(names, vec!["a".to_string()]),
        _ => panic!("expected a list"),
    }
    assert!(matches!(models_reply(None), HttpReply::ApiError { status: 502, .. }));
}

#[test]
fn model_server_request_bodies() {
    let b = chat_request_body("llama3", "hi", Some(70));
    assert_eq!(b.model, "llama3");
    assert_eq!(b.messages.len(), 1);
    assert_eq!(b.messages[0].role, "user");
    assert_eq!(b.messages[0].content, "hi");
    assert!(!b.stream);
    let o = b.options.unwrap();
    assert_eq!(o.num_predict.as_deref(), Some("70"));
    assert!(o.temperature.is_none() && o.seed.is_none());
    assert!(chat_request_body("m", "x", None).options.is_none());

    let body = obj(vec![
        ("model", s("llama3")),
        ("messages", Json::Array(vec![msg("user", "hi")])),
        ("max_tokens", n("5")),
        ("seed", n("42")),
    ]);
    let req = match read_completion_request(&Ok(body)) {
        Ok(r) => r,
        Err(_) => panic!("expected a request"),
    };
    let b = completion_request_body(&req);
    assert_eq!(b.model, "llama3");
    assert_eq!(b.messages[0].content, "hi");
    let o = b.options.unwrap();
    assert_eq!(o.num_predict.as_deref(), Some("5"));
    assert_eq!(o.temperature, None);
    assert_eq!(o.seed.as_deref(), Some("42"));
}

#[test]
fn completion_requests_are_read_from_their_text() {
    match read_completion_text("") {
        Err(HttpReply::ApiError { status, message }) => {
            assert_eq!(status, 400);
            assert_eq!(message, "invalid JSON: EOF while parsing a value at line 1 column 0");
        }
        _ => panic!("expected a refusal"),
    }
    let req = read_completion_text(
        "{\"model\":\"llama3\",\"messages\":[{\"role\":\"user\",\"content\":\"hi\"}],\"max_tokens\":5}",
    )
    .ok()
    .unwrap();
    assert_eq!(req.model, "llama3");
    assert_eq!(req.messages.len(), 1);
    assert_eq!(req.max_tokens.as_deref(), Some("5"));
    match read_completion_text("[1]") {
        Err(HttpReply::ApiError { message, .. }) => {
            assert_eq!(message, "request body must be a JSON object")
        }
        _ => panic!("expected a refusal"),
    }
}
