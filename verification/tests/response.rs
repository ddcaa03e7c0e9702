use openai_client::chat::{completion_text, ChatResponse, Choice, ChoiceMessage};
use openai_client::policy::NO_RESPONSE;

fn choice(content: &str) -> Choice {
    Choice { message: ChoiceMessage { content: content.to_string() } }
}

#[test]
fn response_without_choices_gives_the_fallback_text() {
    let response = ChatResponse { choices: Vec::new() };
    assert_eq!(completion_text(&response), "No response from API");
    assert_eq!(completion_text(&response), NO_RESPONSE);
}

#[test]
fn single_choice_gives_its_content() {
    let response = ChatResponse { choices: vec![choice("hi there")] };
    assert_eq!(completion_text(&response), "hi there");
}

#[test]
fn later_choices_are_ignored() {
    let response = ChatResponse { choices: vec![choice("first"), choice("second"), choice("third")] };
    assert_eq!(completion_text(&response), "first");
}

#[test]
fn empty_first_choice_is_not_the_fallback() {
    let response = ChatResponse { choices: vec![choice(""), choice("second")] };
    assert_eq!(completion_text(&response), "");
}

#[test]
fn content_is_returned_unchanged() {
    let content = "  two\nlines, \"quoted\" ünd 🙂  ";
    let response = ChatResponse { choices: vec![choice(content)] };
    assert_eq!(completion_text(&response), content);
}
