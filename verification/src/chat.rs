//! The messages of one exchange: the request that carries a prompt and the
//! response that a completion is taken from.

use vstd::prelude::*;
use crate::policy::{
    MAX_TOKENS, MODEL_ID, NO_RESPONSE, SYSTEM_PREAMBLE, TEMPERATURE_TENTHS,
    TEMPERATURE_TENTHS_LIMIT,
};

verus! {

/// Author of a message.
#[derive(Clone, Copy, Debug, PartialEq, Eq, Structural)]
pub enum Role {
    System,
    User,
    Assistant,
}

impl Role {
    /// The word that stands for the role on the wire.
    pub open spec fn name(self) -> Seq<char> {
        match self {
            Role::System => "system"@,
            Role::User => "user"@,
            Role::Assistant => "assistant"@,
        }
    }

    /// The role's name on the wire.
    pub fn as_str(&self) -> (word: &'static str)
        ensures
            word@ == self.name(),
    {
        match self {
            Role::System => "system",
            Role::User => "user",
            Role::Assistant => "assistant",
        }
    }
}

/// One message of a conversation.
#[derive(Debug, PartialEq, Eq)]
pub struct ChatMessage {
    pub role: Role,
    pub content: String,
}

/// A `ChatMessage` as contracts see it.
pub struct ChatMessageView {
    pub role: Role,
    pub content: Seq<char>,
}

impl View for ChatMessage {
    type V = ChatMessageView;

    open spec fn view(&self) -> ChatMessageView {
        ChatMessageView { role: self.role, content: self.content@ }
    }
}

/// Body of a completion request. The temperature is held in tenths, so that
/// 7 stands for 0.7.
#[derive(Debug, PartialEq, Eq)]
pub struct ChatRequest {
    pub model: String,
    pub messages: Vec<ChatMessage>,
    pub max_tokens: u32,
    pub temperature_tenths: u32,
}

/// A `ChatRequest` as contracts see it.
pub struct ChatRequestView {
    pub model: Seq<char>,
    pub messages: Seq<ChatMessageView>,
    pub max_tokens: nat,
    pub temperature_tenths: nat,
}

impl View for ChatRequest {
    type V = ChatRequestView;

    open spec fn view(&self) -> ChatRequestView {
        ChatRequestView {
            model: self.model@,
            messages: self.messages@.map_values(|m: ChatMessage| m@),
            max_tokens: self.max_tokens as nat,
            temperature_tenths: self.temperature_tenths as nat,
        }
    }
}

impl ChatRequestView {
    /// A request asks for at least one token, at a temperature between 0 and
    /// 2, and holds a system message followed by a user message.
    pub open spec fn well_formed(self) -> bool {
        &&& self.max_tokens > 0
        &&& self.temperature_tenths <= TEMPERATURE_TENTHS_LIMIT
        &&& self.messages.len() == 2
        &&& self.messages[0].role == Role::System
        &&& self.messages[1].role == Role::User
    }
}

/// The request that is sent for `prompt`.
pub open spec fn request_for(prompt: Seq<char>) -> ChatRequestView {
    ChatRequestView {
        model: MODEL_ID@,
        messages: seq![
            ChatMessageView { role: Role::System, content: SYSTEM_PREAMBLE@ },
            ChatMessageView { role: Role::User, content: prompt },
        ],
        max_tokens: MAX_TOKENS as nat,
        temperature_tenths: TEMPERATURE_TENTHS as nat,
    }
}

/// Builds the request for `prompt`: the system preamble first, then the
/// prompt, unchanged, as the user's message.
pub fn build_request(prompt: &str) -> (request: ChatRequest)
    ensures
        request@ == request_for(prompt@),
        request@.well_formed(),
        request@.messages[0] == (ChatMessageView {
            role: Role::System,
            content: SYSTEM_PREAMBLE@,
        }),
        request@.messages[1] == (ChatMessageView { role: Role::User, content: prompt@ }),
{
    let mut messages: Vec<ChatMessage> = Vec::new();
    messages.push(ChatMessage { role: Role::System, content: SYSTEM_PREAMBLE.to_string() });
    messages.push(ChatMessage { role: Role::User, content: prompt.to_string() });
    let request = ChatRequest {
        model: MODEL_ID.to_string(),
        messages,
        max_tokens: MAX_TOKENS,
        temperature_tenths: TEMPERATURE_TENTHS,
    };
    assert(request@.messages =~= request_for(prompt@).messages);
    request
}

/// The text of one candidate completion.
#[derive(Debug, PartialEq, Eq)]
pub struct ChoiceMessage {
    pub content: String,
}

/// A `ChoiceMessage` as contracts see it.
pub struct ChoiceMessageView {
    pub content: Seq<char>,
}

impl View for ChoiceMessage {
    type V = ChoiceMessageView;

    open spec fn view(&self) -> ChoiceMessageView {
        ChoiceMessageView { content: self.content@ }
    }
}

/// One candidate completion.
#[derive(Debug, PartialEq, Eq)]
pub struct Choice {
    pub message: ChoiceMessage,
}

/// A `Choice` as contracts see it.
pub struct ChoiceView {
    pub message: ChoiceMessageView,
}

impl View for Choice {
    type V = ChoiceView;

    open spec fn view(&self) -> ChoiceView {
        ChoiceView { message: self.message@ }
    }
}

/// What the service answers: its candidate completions, in its order.
#[derive(Debug, PartialEq, Eq)]
pub struct ChatResponse {
    pub choices: Vec<Choice>,
}

/// A `ChatResponse` as contracts see it.
pub struct ChatResponseView {
    pub choices: Seq<ChoiceView>,
}

impl View for ChatResponse {
    type V = ChatResponseView;

    open spec fn view(&self) -> ChatResponseView {
        ChatResponseView { choices: self.choices@.map_values(|c: Choice| c@) }
    }
}

/// The completion that a response stands for: the text of its first choice,
/// or the fallback text where it holds none.
pub open spec fn completion_of(response: ChatResponseView) -> Seq<char> {
    if response.choices.len() == 0 {
        NO_RESPONSE@
    } else {
        response.choices[0].message.content
    }
}

/// Takes the completion out of a response. Choices after the first are
/// ignored; a response without choices yields the fallback text.
pub fn completion_text(response: &ChatResponse) -> (text: String)
    ensures
        text@ == completion_of(response@),
        response@.choices.len() == 0 ==> text@ == NO_RESPONSE@,
        response@.choices.len() > 0 ==> text@ == response@.choices[0].message.content,
{
    match response.choices.first() {
        Some(choice) => choice.message.content.clone(),
        None => NO_RESPONSE.to_string(),
    }
}

} // verus!
