use openai_chat::message::Message;
use openai_chat::openai::ChatCompletion;
use openai_chat::reply::{
    completion_from_document, extract_content, read_completion, status_is_success,
    CompletionError, Malformation, Reply,
};
use openai_chat::json::JsonValue;
use std::sync::Arc;

fn conversation() -> ChatCompletion {
    ChatCompletion::new("sk-test".to_string(), Arc::new(reqwest::Client::new()))
}

fn answered(status: u16, body: &str) -> Reply {
    Reply::Answered { status, body: body.as_bytes().to_vec() }
}

fn malformed(fault: Malformation) -> Result<String, CompletionError> {
    Err(CompletionError::MalformedResponse { fault })
}

#[test]
fn request_goes_to_the_fixed_endpoint() {
    let mut chat = conversation();
    chat.push_system_message("be brief");
    chat.push_user_message("hello");
    let request = chat.request();
    assert_eq!(request.url, "https://api.openai.com/v1/chat/completions");
    assert_eq!(request.authorization, "Bearer sk-test");
    assert_eq!(request.model, "gpt-4o-mini");
    assert_eq!(
        request.messages,
        vec![
            Message { role: "system".to_string(), content: "be brief".to_string() },
            Message { role: "user".to_string(), content: "hello".to_string() }
        ]
    );
}

#[test]
fn request_ignores_the_configured_model() {
    let mut chat = conversation();
    chat.model("gpt-4o");
    assert_eq!(chat.request().model, "gpt-4o-mini");
}

#[test]
fn request_follows_the_credential() {
    let mut chat = conversation();
    chat.api_key("sk-next");
    assert_eq!(chat.request().authorization, "Bearer sk-next");
    chat.api_key("");
    assert_eq!(chat.request().authorization, "Bearer ");
}

#[test]
fn successful_completion_returns_the_content() {
    let chat = conversation();
    let reply = answered(200, r#"{"choices":[{"message":{"content":"hello"}}]}"#);
    assert_eq!(chat.completion(reply), Ok("hello".to_string()));
}

#[test]
fn completion_reads_a_full_response() {
    let chat = conversation();
    let body = r#"{
        "id": "chatcmpl-1",
        "object": "chat.completion",
        "created": 1700000000,
        "choices": [
            {"index": 0, "message": {"role": "assistant", "content": "first \"one\"\n"}, "finish_reason": "stop"},
            {"index": 1, "message": {"role": "assistant", "content": "second"}}
        ],
        "usage": {"prompt_tokens": 3, "total_tokens": 5.5}
    }"#;
    assert_eq!(chat.completion(answered(200, body)), Ok("first \"one\"\n".to_string()));
}

#[test]
fn completion_does_not_touch_the_history() {
    let mut chat = conversation();
    chat.push_user_message("hello");
    let before = chat.messages();
    let reply = answered(200, r#"{"choices":[{"message":{"content":"hi"}}]}"#);
    assert_eq!(chat.completion(reply), Ok("hi".to_string()));
    assert_eq!(chat.messages(), before);
}

#[test]
fn error_status_yields_http_status_error() {
    let chat = conversation();
    for status in [400u16, 401, 403, 404, 429, 500, 502, 503, 599] {
        let reply = answered(status, r#"{"error":{"message":"no"}}"#);
        assert_eq!(chat.completion(reply), Err(CompletionError::HttpStatus { status }));
    }
}

#[test]
fn error_status_does_not_read_the_body() {
    let chat = conversation();
    let reply = answered(401, r#"{"choices":[{"message":{"content":"hello"}}]}"#);
    assert_eq!(chat.completion(reply), Err(CompletionError::HttpStatus { status: 401 }));
    let reply = Reply::Answered { status: 500, body: Vec::new() };
    assert_eq!(chat.completion(reply), Err(CompletionError::HttpStatus { status: 500 }));
}

#[test]
fn only_the_two_hundreds_succeed() {
    let chat = conversation();
    let body = r#"{"choices":[{"message":{"content":"ok"}}]}"#;
    for status in [200u16, 201, 204, 299] {
        assert!(status_is_success(status));
        assert_eq!(chat.completion(answered(status, body)), Ok("ok".to_string()));
    }
    for status in [0u16, 100, 199, 300, 301, 304, 399, 600, 999, 65535] {
        assert!(!status_is_success(status));
        assert_eq!(
            chat.completion(answered(status, body)),
            Err(CompletionError::HttpStatus { status })
        );
    }
}

#[test]
fn missing_choices_is_malformed() {
    let chat = conversation();
    assert_eq!(chat.completion(answered(200, "{}")), malformed(Malformation::ChoicesNotArray));
    assert_eq!(
        chat.completion(answered(200, r#"{"choice":[{"message":{"content":"x"}}]}"#)),
        malformed(Malformation::ChoicesNotArray)
    );
}

#[test]
fn choices_of_another_kind_is_malformed() {
    let chat = conversation();
    for body in [
        r#"{"choices":"none"}"#,
        r#"{"choices":null}"#,
        r#"{"choices":{"0":{"message":{"content":"x"}}}}"#,
        r#"{"choices":1}"#,
        r#"[{"message":{"content":"x"}}]"#,
        r#""choices""#,
        "null",
        "17",
    ] {
        assert_eq!(chat.completion(answered(200, body)), malformed(Malformation::ChoicesNotArray));
    }
}

#[test]
fn missing_content_is_malformed() {
    let chat = conversation();
    for body in [
        r#"{"choices":[]}"#,
        r#"{"choices":[{}]}"#,
        r#"{"choices":[{"message":{}}]}"#,
        r#"{"choices":[{"message":{"content":null}}]}"#,
        r#"{"choices":[{"message":{"content":12}}]}"#,
        r#"{"choices":[{"message":{"content":["hello"]}}]}"#,
        r#"{"choices":[{"message":"hello"}]}"#,
        r#"{"choices":["hello"]}"#,
        r#"{"choices":[{"content":"hello"}]}"#,
        r#"{"choices":[{"message":{}}, {"message":{"content":"second"}}]}"#,
    ] {
        assert_eq!(chat.completion(answered(200, body)), malformed(Malformation::ContentNotText));
    }
}

#[test]
fn body_that_is_not_json_is_malformed() {
    let chat = conversation();
    for body in ["", "   ", "<html></html>", "{", r#"{"choices":[}"#, "{} {}", r#"{"a":1} x"#] {
        assert_eq!(chat.completion(answered(200, body)), malformed(Malformation::NotJson));
    }
    let reply = Reply::Answered { status: 200, body: vec![0xff, 0xfe, 0x00] };
    assert_eq!(chat.completion(reply), malformed(Malformation::NotJson));
}

#[test]
fn empty_content_is_a_completion() {
    let chat = conversation();
    let reply = answered(200, r#"{"choices":[{"message":{"content":""}}]}"#);
    assert_eq!(chat.completion(reply), Ok(String::new()));
}

#[test]
fn transport_failure_keeps_its_cause() {
    let chat = conversation();
    let reply = Reply::Failed { cause: "connection refused".to_string() };
    assert_eq!(
        chat.completion(reply),
        Err(CompletionError::Transport { cause: "connection refused".to_string() })
    );
}

#[test]
fn empty_conversation_sends_no_messages() {
    let chat = conversation();
    let request = chat.request();
    assert!(request.messages.is_empty());
    assert_eq!(request.model, "gpt-4o-mini");
    let reply = answered(400, r#"{"error":{"message":"messages must not be empty"}}"#);
    assert_eq!(chat.completion(reply), Err(CompletionError::HttpStatus { status: 400 }));
}

#[test]
fn read_completion_parses_and_extracts() {
    assert_eq!(
        read_completion(br#"{"choices":[{"message":{"content":"hello"}}]}"#),
        Ok("hello".to_string())
    );
    assert_eq!(read_completion(b"nope"), malformed(Malformation::NotJson));
    assert_eq!(read_completion(b"{}"), malformed(Malformation::ChoicesNotArray));
}

#[test]
fn extract_content_follows_the_path() {
    let message = JsonValue::Object(vec![
        ("role".to_string(), JsonValue::Text("assistant".to_string())),
        ("content".to_string(), JsonValue::Text("hello".to_string())),
    ]);
    let choice = JsonValue::Object(vec![
        ("index".to_string(), JsonValue::Number("0".to_string())),
        ("message".to_string(), message),
    ]);
    let document = JsonValue::Object(vec![
        ("id".to_string(), JsonValue::Text("x".to_string())),
        ("choices".to_string(), JsonValue::Array(vec![choice])),
    ]);
    assert_eq!(extract_content(&document), Ok("hello".to_string()));
    assert_eq!(completion_from_document(Some(document)), Ok("hello".to_string()));
}

#[test]
fn extract_content_names_the_fault() {
    assert_eq!(extract_content(&JsonValue::Null), Err(Malformation::ChoicesNotArray));
    let empty = JsonValue::Object(vec![("choices".to_string(), JsonValue::Array(vec![]))]);
    assert_eq!(extract_content(&empty), Err(Malformation::ContentNotText));
    let flag = JsonValue::Object(vec![("choices".to_string(), JsonValue::Bool(true))]);
    assert_eq!(extract_content(&flag), Err(Malformation::ChoicesNotArray));
    assert_eq!(completion_from_document(None), malformed(Malformation::NotJson));
    assert_eq!(completion_from_document(Some(flag)), malformed(Malformation::ChoicesNotArray));
}
