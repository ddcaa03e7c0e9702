use openai_client::call::{authorization_value, prepare_call};
use openai_client::chat::{build_request, ChatMessage, Role};
use openai_client::error::ClientError;
use openai_client::policy::{
    AUTHORIZATION_HEADER, CONTENT_TYPE_HEADER, ENDPOINT, MAX_TOKENS, MODEL_ID, SYSTEM_PREAMBLE,
    TEMPERATURE_TENTHS, TEMPERATURE_TENTHS_LIMIT,
};

#[test]
fn request_holds_the_policy_constants() {
    let request = build_request("hello");
    assert_eq!(request.model, "gpt-4o-mini");
    assert_eq!(request.max_tokens, 1000);
    assert_eq!(request.temperature_tenths, 7);
    assert_eq!(request.model, MODEL_ID);
    assert_eq!(request.max_tokens, MAX_TOKENS);
    assert_eq!(request.temperature_tenths, TEMPERATURE_TENTHS);
}

#[test]
fn request_opens_with_the_system_preamble() {
    let request = build_request("hello");
    assert_eq!(request.messages.len(), 2);
    assert_eq!(
        request.messages[0],
        ChatMessage { role: Role::System, content: "You are a helpful assistant.".to_string() }
    );
    assert_eq!(request.messages[0].content, SYSTEM_PREAMBLE);
}

#[test]
fn request_carries_the_prompt_as_the_user_message() {
    let request = build_request("hello");
    assert_eq!(
        request.messages[1],
        ChatMessage { role: Role::User, content: "hello".to_string() }
    );
}

#[test]
fn prompt_is_placed_verbatim() {
    let prompts = [
        "What is 2 + 2?",
        "  inner   spaces\tand tabs  ",
        "quotes \" and \\ backslashes",
        "line one\nline two",
        "você está aí? 你好 🙂",
        "{\"role\":\"system\"}",
    ];
    for prompt in prompts {
        let request = build_request(prompt);
        assert_eq!(request.messages.len(), 2);
        assert_eq!(request.messages[0].role, Role::System);
        assert_eq!(request.messages[0].content, "You are a helpful assistant.");
        assert_eq!(request.messages[1].role, Role::User);
        assert_eq!(request.messages[1].content, prompt);
    }
}

#[test]
fn empty_prompt_is_not_rejected() {
    let request = build_request("");
    assert_eq!(request.messages.len(), 2);
    assert_eq!(request.messages[1], ChatMessage { role: Role::User, content: String::new() });
}

#[test]
fn request_is_within_the_limits() {
    let request = build_request("hello");
    assert!(request.max_tokens > 0);
    assert!(request.temperature_tenths <= TEMPERATURE_TENTHS_LIMIT);
    assert_eq!(TEMPERATURE_TENTHS_LIMIT, 20);
}

#[test]
fn roles_have_their_wire_names() {
    assert_eq!(Role::System.as_str(), "system");
    assert_eq!(Role::User.as_str(), "user");
    assert_eq!(Role::Assistant.as_str(), "assistant");
}

#[test]
fn authorization_is_the_bearer_scheme_and_the_credential() {
    assert_eq!(authorization_value("sk-test"), "Bearer sk-test");
    assert_eq!(authorization_value(""), "Bearer ");
    assert_eq!(authorization_value(" padded "), "Bearer  padded ");
}

#[test]
fn call_goes_to_the_endpoint_with_the_credential() {
    let call = match prepare_call("hello", Some("sk-test".to_string())) {
        Ok(call) => call,
        Err(error) => panic!("a call was due, not {:?}", error),
    };
    assert_eq!(call.url, "https://api.openai.com/v1/chat/completions");
    assert_eq!(call.url, ENDPOINT);
    assert_eq!(call.authorization, "Bearer sk-test");
    assert_eq!(call.content_type, "application/json");
    assert_eq!(call.body, build_request("hello"));
}

#[test]
fn no_call_is_prepared_without_a_credential() {
    assert_eq!(prepare_call("hello", None), Err(ClientError::Configuration));
    assert_eq!(prepare_call("", None), Err(ClientError::Configuration));
}

#[test]
fn headers_have_their_standard_names() {
    assert_eq!(AUTHORIZATION_HEADER, "Authorization");
    assert_eq!(CONTENT_TYPE_HEADER, "Content-Type");
}
