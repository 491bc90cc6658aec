use openai_api::api::{
    ChatAnswer, ChatChoice, ChatFormat, ChatRole, Choice, Completion, CompletionArgs, Container, ErrorBody,
    ErrorMessage, ErrorWrapper, ModelInfo,
};
use openai_api::transport::{
    bearer_credential, default_api_root, endpoint_url, is_success_status, model_endpoint, service_error, settle,
    status_string, ReplyBody, CHAT_ENDPOINT, COMPLETIONS_ENDPOINT, MODELS_ENDPOINT,
};
use openai_api::{Error, TransportFailure};

fn ada() -> ModelInfo {
    ModelInfo { id: "ada".into(), owned_by: "openai".into(), object: "model".into() }
}

fn envelope(message: &str, code: Option<&str>) -> ErrorWrapper {
    ErrorWrapper { error: ErrorBody { message: message.into(), code: code.map(|c| c.to_string()) } }
}

#[test]
fn list_models_page() {
    let page = Container { data: vec![ada()] };
    let models = settle(200, Ok(ReplyBody::Value(page))).unwrap().into_items();
    assert_eq!(models, vec![ModelInfo::new("ada".into(), "openai".into(), "model".into())]);
}

#[test]
fn not_found_reply_becomes_api_error() {
    let reply: Result<ReplyBody<ModelInfo>, TransportFailure> =
        Ok(ReplyBody::Failure(envelope("Some kind of error happened", None)));
    match settle(404, reply) {
        Err(Error::Api(msg)) => {
            assert_eq!(msg.message, "Some kind of error happened");
            assert_eq!(msg.status_code, "404 Not Found");
            assert_eq!(
                msg,
                ErrorMessage { message: "Some kind of error happened".into(), status_code: "404 Not Found".into() }
            );
        }
        other => panic!("expected a service error, got {:?}", other),
    }
}

#[test]
fn envelope_code_is_overwritten() {
    let msg = service_error(envelope("Rate limit reached", Some("rate_limit_exceeded")), 429);
    assert_eq!(msg.status_code, "429 Too Many Requests");
    assert_eq!(msg.message, "Rate limit reached");
    let server = service_error(envelope("boom", Some("200")), 500);
    assert_eq!(server.status_code, "500 Internal Server Error");
}

#[test]
fn redirect_is_a_failure() {
    assert!(!is_success_status(301));
    let reply: Result<ReplyBody<ModelInfo>, TransportFailure> = Ok(ReplyBody::Failure(envelope("moved", None)));
    assert!(matches!(settle(301, reply), Err(Error::Api(m)) if m.status_code == "301 Moved Permanently"));
}

#[test]
fn only_ok_is_success() {
    assert!(is_success_status(200));
    for code in [100u16, 201, 204, 299, 302, 400, 401, 404, 429, 500, 503, 999] {
        assert!(!is_success_status(code), "{}", code);
    }
}

#[test]
fn status_strings() {
    assert_eq!(status_string(200), "200 OK");
    assert_eq!(status_string(404), "404 Not Found");
    assert_eq!(status_string(999), "999 <unknown status code>");
}

#[test]
fn transport_failure_passes_through() {
    let failure = TransportFailure { message: "connection refused".into(), status: None };
    let reply: Result<ReplyBody<ModelInfo>, TransportFailure> = Err(failure);
    match settle(200, reply) {
        Err(Error::AsyncProtocol(f)) => {
            assert_eq!(f.message, "connection refused");
            assert_eq!(f.status, None);
        }
        other => panic!("expected a transport failure, got {:?}", other),
    }
}

fn completion_body() -> Completion {
    Completion {
        id: "cmpl-uqkvlQyYK7bGYrRHQ0eXlWi7".into(),
        created: 1589478378,
        model: "davinci:2020-05-03".into(),
        choices: vec![Choice {
            text: " there was a girl who".into(),
            index: 0,
            logprobs: None,
            finish_reason: "length".into(),
        }],
    }
}

#[test]
fn completion_reply() {
    let args = CompletionArgs::builder().prompt("Once upon a time").max_tokens(5).build().unwrap();
    assert_eq!(args.prompt(), "Once upon a time");
    assert_eq!(args.max_tokens(), 5);
    let completion = settle(200, Ok(ReplyBody::Value(completion_body()))).unwrap();
    assert_eq!(completion.choices[0].finish_reason, "length");
    assert_eq!(completion.id, "cmpl-uqkvlQyYK7bGYrRHQ0eXlWi7");
    assert_eq!(completion.created, 1589478378);
    assert!(completion.choices[0].logprobs.is_none());
    assert_eq!(completion.to_text(), " there was a girl who");
}

#[test]
fn chat_reply_role() {
    let answer = ChatAnswer {
        id: "cmpl-uqkvlQyYK7bGYrRHQ0eXlWi7".into(),
        created: 1589478378,
        choices: vec![ChatChoice {
            message: ChatFormat::new(ChatRole::Assistant, "\n\nHello there, how may I assist you today?".into()),
            index: 0,
            finish_reason: "stop".into(),
        }],
    };
    let answer = settle(200, Ok(ReplyBody::Value(answer))).unwrap();
    assert_eq!(answer.choices[0].message.role, ChatRole::Assistant);
    assert_eq!(answer.choices[0].finish_reason, "stop");
    assert_eq!(answer.to_text(), "role: Assistant, content: \n\nHello there, how may I assist you today?");
}

#[test]
fn error_message_text() {
    let msg = ErrorMessage { message: "Some kind of error happened".into(), status_code: "404 Not Found".into() };
    assert_eq!(msg.to_text(), "err code: 404 Not Found, err msg: Some kind of error happened)");
}

#[test]
fn chat_format_text() {
    let m = ChatFormat::new(ChatRole::System, "You are a helpful assistant.".into());
    assert_eq!(m.to_text(), "role: System, content: You are a helpful assistant.");
    assert_eq!(ChatRole::User.name(), "User");
}

#[test]
fn addresses() {
    assert_eq!(default_api_root(), "https://api.openai.com/v1/");
    assert_eq!(endpoint_url("https://api.openai.com/v1/", MODELS_ENDPOINT), "https://api.openai.com/v1/models");
    assert_eq!(endpoint_url("http://127.0.0.1:1234/", &model_endpoint("davinci")), "http://127.0.0.1:1234/models/davinci");
    assert_eq!(COMPLETIONS_ENDPOINT, "completions");
    assert_eq!(CHAT_ENDPOINT, "chat/completions");
    assert_eq!(bearer_credential("bogus"), "Bearer bogus");
}

#[test]
fn model_info_equality() {
    assert_eq!(ada(), ada());
    assert_ne!(ada(), ModelInfo { object: "other".into(), ..ada() });
}

#[test]
fn failure_texts() {
    let api = Error::Api(ErrorMessage { message: "Some kind of error happened".into(), status_code: "404 Not Found".into() });
    assert_eq!(api.to_text(), "API returned an Error: err code: 404 Not Found, err msg: Some kind of error happened)");
    let transport = Error::AsyncProtocol(TransportFailure { message: "timed out".into(), status: None });
    assert_eq!(transport.to_text(), "Build Client arguments: timed out");
    let bad = Error::BadArguments("missing field".into());
    assert_eq!(bad.to_text(), "Bad arguments: missing field");
}
