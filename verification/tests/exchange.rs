use openai_client::call::HttpCall;
use openai_client::chat::{build_request, ChatResponse, Choice, ChoiceMessage};
use openai_client::error::ClientError;
use openai_client::exchange::{Action, Event, Exchange};

fn choice(content: &str) -> Choice {
    Choice { message: ChoiceMessage { content: content.to_string() } }
}

fn expected_call(prompt: &str, credential: &str) -> HttpCall {
    HttpCall {
        url: "https://api.openai.com/v1/chat/completions".to_string(),
        authorization: format!("Bearer {}", credential),
        content_type: "application/json".to_string(),
        body: build_request(prompt),
    }
}

/// Reports `events` in order from a new exchange for `prompt`; gives the
/// state at the end and every answer.
fn run(prompt: &str, events: Vec<Event>) -> (Exchange, Vec<Option<Action>>) {
    let (mut exchange, _) = Exchange::begin(prompt);
    let mut answers = Vec::new();
    for event in events {
        let (next, answer) = exchange.step(event);
        exchange = next;
        answers.push(answer);
    }
    (exchange, answers)
}

fn up_to_response(prompt: &str) -> Exchange {
    let events = vec![
        Event::Credential(Some("sk-test".to_string())),
        Event::Dispatched,
        Event::ResponseArrived,
    ];
    let (exchange, _) = run(prompt, events);
    assert_eq!(exchange, Exchange::ResponseReceived);
    exchange
}

#[test]
fn exchange_begins_idle_and_asks_for_the_credential() {
    let (exchange, action) = Exchange::begin("hello");
    assert_eq!(exchange, Exchange::Idle { prompt: "hello".to_string() });
    assert_eq!(action, Action::ResolveCredential);
    assert!(!exchange.is_over());
}

#[test]
fn absent_credential_is_a_configuration_error() {
    let (exchange, _) = Exchange::begin("hello");
    let (exchange, answer) = exchange.step(Event::Credential(None));
    assert_eq!(exchange, Exchange::Error);
    assert_eq!(answer, Some(Action::Finish(Err(ClientError::Configuration))));
    assert!(exchange.is_over());
}

#[test]
fn absent_credential_never_leads_to_a_call() {
    let events = vec![
        Event::Credential(None),
        Event::Credential(Some("sk-late".to_string())),
        Event::Dispatched,
        Event::ResponseArrived,
        Event::BodyDecoded(ChatResponse { choices: vec![choice("late")] }),
    ];
    let (exchange, answers) = run("hello", events);
    assert_eq!(exchange, Exchange::Error);
    assert_eq!(
        answers,
        vec![Some(Action::Finish(Err(ClientError::Configuration))), None, None, None, None]
    );
}

#[test]
fn credential_leads_to_the_call_for_the_prompt() {
    let (exchange, _) = Exchange::begin("hello");
    let (exchange, answer) = exchange.step(Event::Credential(Some("sk-test".to_string())));
    assert_eq!(exchange, Exchange::CredentialResolved);
    assert_eq!(answer, Some(Action::Send(expected_call("hello", "sk-test"))));
}

#[test]
fn exchange_runs_through_its_states_in_order() {
    let (exchange, _) = Exchange::begin("hello");
    let (exchange, _) = exchange.step(Event::Credential(Some("sk-test".to_string())));
    assert_eq!(exchange, Exchange::CredentialResolved);
    let (exchange, answer) = exchange.step(Event::Dispatched);
    assert_eq!(exchange, Exchange::RequestSent);
    assert_eq!(answer, Some(Action::AwaitResponse));
    let (exchange, answer) = exchange.step(Event::ResponseArrived);
    assert_eq!(exchange, Exchange::ResponseReceived);
    assert_eq!(answer, Some(Action::DecodeBody));
    assert!(!exchange.is_over());
    let body = ChatResponse { choices: vec![choice("hi there")] };
    let (exchange, answer) = exchange.step(Event::BodyDecoded(body));
    assert_eq!(exchange, Exchange::Done);
    assert_eq!(answer, Some(Action::Finish(Ok("hi there".to_string()))));
    assert!(exchange.is_over());
}

#[test]
fn empty_choices_end_in_success_with_the_fallback_text() {
    let exchange = up_to_response("hello");
    let (exchange, answer) = exchange.step(Event::BodyDecoded(ChatResponse { choices: vec![] }));
    assert_eq!(exchange, Exchange::Done);
    assert_eq!(answer, Some(Action::Finish(Ok("No response from API".to_string()))));
}

#[test]
fn first_choice_is_the_outcome() {
    let exchange = up_to_response("hello");
    let body = ChatResponse { choices: vec![choice("first"), choice("second")] };
    let (exchange, answer) = exchange.step(Event::BodyDecoded(body));
    assert_eq!(exchange, Exchange::Done);
    assert_eq!(answer, Some(Action::Finish(Ok("first".to_string()))));
}

#[test]
fn undecodable_body_is_a_deserialization_error() {
    let exchange = up_to_response("hello");
    let message = "error decoding response body: missing field `choices`";
    let (exchange, answer) = exchange.step(Event::BodyRejected(message.to_string()));
    assert_eq!(exchange, Exchange::Error);
    assert_eq!(
        answer,
        Some(Action::Finish(Err(ClientError::Deserialization(message.to_string()))))
    );
}

#[test]
fn transport_failure_before_dispatch_ends_the_exchange() {
    let events = vec![
        Event::Credential(Some("sk\ntest".to_string())),
        Event::TransportFailed("builder error".to_string()),
    ];
    let (exchange, mut answers) = run("hello", events);
    assert_eq!(exchange, Exchange::Error);
    assert_eq!(
        answers.pop(),
        Some(Some(Action::Finish(Err(ClientError::Transport("builder error".to_string())))))
    );
}

#[test]
fn transport_failure_while_waiting_ends_the_exchange() {
    let events = vec![
        Event::Credential(Some("sk-test".to_string())),
        Event::Dispatched,
        Event::TransportFailed("connection refused".to_string()),
    ];
    let (exchange, mut answers) = run("hello", events);
    assert_eq!(exchange, Exchange::Error);
    assert_eq!(
        answers.pop(),
        Some(Some(Action::Finish(Err(ClientError::Transport("connection refused".to_string())))))
    );
}

#[test]
fn transport_failure_while_reading_the_body_ends_the_exchange() {
    let exchange = up_to_response("hello");
    let (exchange, answer) = exchange.step(Event::TransportFailed("connection reset".to_string()));
    assert_eq!(exchange, Exchange::Error);
    assert_eq!(
        answer,
        Some(Action::Finish(Err(ClientError::Transport("connection reset".to_string()))))
    );
}

#[test]
fn events_out_of_turn_are_ignored() {
    let (exchange, _) = Exchange::begin("hello");
    let (exchange, answer) = exchange.step(Event::Dispatched);
    assert_eq!(exchange, Exchange::Idle { prompt: "hello".to_string() });
    assert_eq!(answer, None);
    let (exchange, answer) = exchange.step(Event::TransportFailed("too early".to_string()));
    assert_eq!(exchange, Exchange::Idle { prompt: "hello".to_string() });
    assert_eq!(answer, None);
    let body = ChatResponse { choices: vec![choice("too early")] };
    let (exchange, answer) = exchange.step(Event::BodyDecoded(body));
    assert_eq!(exchange, Exchange::Idle { prompt: "hello".to_string() });
    assert_eq!(answer, None);

    let (exchange, _) = exchange.step(Event::Credential(Some("sk-test".to_string())));
    let (exchange, answer) = exchange.step(Event::ResponseArrived);
    assert_eq!(exchange, Exchange::CredentialResolved);
    assert_eq!(answer, None);
    let (exchange, answer) = exchange.step(Event::BodyRejected("too early".to_string()));
    assert_eq!(exchange, Exchange::CredentialResolved);
    assert_eq!(answer, None);

    let (exchange, _) = exchange.step(Event::Dispatched);
    let (exchange, answer) = exchange.step(Event::BodyRejected("too early".to_string()));
    assert_eq!(exchange, Exchange::RequestSent);
    assert_eq!(answer, None);
}

#[test]
fn second_credential_makes_no_second_call() {
    let events = vec![
        Event::Credential(Some("sk-one".to_string())),
        Event::Credential(Some("sk-two".to_string())),
        Event::Dispatched,
        Event::Credential(Some("sk-three".to_string())),
    ];
    let (exchange, answers) = run("hello", events);
    assert_eq!(exchange, Exchange::RequestSent);
    let calls = answers.iter().filter(|answer| matches!(answer, Some(Action::Send(_)))).count();
    assert_eq!(calls, 1);
    assert_eq!(answers[0], Some(Action::Send(expected_call("hello", "sk-one"))));
}

#[test]
fn nothing_happens_after_the_end() {
    let exchange = up_to_response("hello");
    let (exchange, _) = exchange.step(Event::BodyDecoded(ChatResponse { choices: vec![] }));
    assert_eq!(exchange, Exchange::Done);
    let (exchange, answer) = exchange.step(Event::TransportFailed("late".to_string()));
    assert_eq!(exchange, Exchange::Done);
    assert_eq!(answer, None);
    let (exchange, answer) = exchange.step(Event::BodyRejected("late".to_string()));
    assert_eq!(exchange, Exchange::Done);
    assert_eq!(answer, None);
    let (exchange, answer) = exchange.step(Event::Credential(None));
    assert_eq!(exchange, Exchange::Done);
    assert_eq!(answer, None);
}
