//! The course of one exchange with the completion service, as a state
//! machine. The machine decides; its driver does the outside work: it carries
//! out the action that a step names and reports what came of it as the next
//! event, until a step names `Finish`.

use vstd::prelude::*;
use crate::call::{call_for, prepare_call, HttpCall, HttpCallView};
use crate::chat::{completion_of, completion_text, ChatResponse, ChatResponseView};
use crate::error::{ClientError, ClientErrorView};
use crate::policy::NO_RESPONSE;

verus! {

/// How far an exchange has come.
#[derive(Debug, PartialEq, Eq)]
pub enum Exchange {
    /// Nothing has happened yet; holds the prompt.
    Idle { prompt: String },
    /// The credential is there and the call is made up.
    CredentialResolved,
    /// The call is with the transport.
    RequestSent,
    /// The response has arrived; its body is still to be decoded.
    ResponseReceived,
    /// The exchange ended with a completion.
    Done,
    /// The exchange ended with a failure.
    Error,
}

/// An `Exchange` as contracts see it.
pub enum ExchangeView {
    Idle { prompt: Seq<char> },
    CredentialResolved,
    RequestSent,
    ResponseReceived,
    Done,
    Error,
}

impl View for Exchange {
    type V = ExchangeView;

    open spec fn view(&self) -> ExchangeView {
        match self {
            Exchange::Idle { prompt } => ExchangeView::Idle { prompt: prompt@ },
            Exchange::CredentialResolved => ExchangeView::CredentialResolved,
            Exchange::RequestSent => ExchangeView::RequestSent,
            Exchange::ResponseReceived => ExchangeView::ResponseReceived,
            Exchange::Done => ExchangeView::Done,
            Exchange::Error => ExchangeView::Error,
        }
    }
}

/// What the driver reports to the machine.
#[derive(Debug, PartialEq, Eq)]
pub enum Event {
    /// The credential was looked up: its value, or `None` where none is
    /// configured.
    Credential(Option<String>),
    /// The call was handed to the transport.
    Dispatched,
    /// The response arrived.
    ResponseArrived,
    /// The transport failed; holds its message.
    TransportFailed(String),
    /// The body of the response was decoded.
    BodyDecoded(ChatResponse),
    /// The body of the response does not decode; holds the decoder's message.
    BodyRejected(String),
}

/// An `Event` as contracts see it.
pub enum EventView {
    Credential(Option<Seq<char>>),
    Dispatched,
    ResponseArrived,
    TransportFailed(Seq<char>),
    BodyDecoded(ChatResponseView),
    BodyRejected(Seq<char>),
}

impl View for Event {
    type V = EventView;

    open spec fn view(&self) -> EventView {
        match self {
            Event::Credential(Some(value)) => EventView::Credential(Some(value@)),
            Event::Credential(None) => EventView::Credential(None),
            Event::Dispatched => EventView::Dispatched,
            Event::ResponseArrived => EventView::ResponseArrived,
            Event::TransportFailed(message) => EventView::TransportFailed(message@),
            Event::BodyDecoded(response) => EventView::BodyDecoded(response@),
            Event::BodyRejected(message) => EventView::BodyRejected(message@),
        }
    }
}

/// What the machine asks of the driver.
#[derive(Debug, PartialEq, Eq)]
pub enum Action {
    /// Look the credential up and report it.
    ResolveCredential,
    /// Hand the call to the transport.
    Send(HttpCall),
    /// Wait for the response.
    AwaitResponse,
    /// Read the body of the response and decode it.
    DecodeBody,
    /// Report the outcome: the exchange is over.
    Finish(Result<String, ClientError>),
}

/// An `Action` as contracts see it.
pub enum ActionView {
    ResolveCredential,
    Send(HttpCallView),
    AwaitResponse,
    DecodeBody,
    Finish(Result<Seq<char>, ClientErrorView>),
}

impl View for Action {
    type V = ActionView;

    open spec fn view(&self) -> ActionView {
        match self {
            Action::ResolveCredential => ActionView::ResolveCredential,
            Action::Send(call) => ActionView::Send(call@),
            Action::AwaitResponse => ActionView::AwaitResponse,
            Action::DecodeBody => ActionView::DecodeBody,
            Action::Finish(Ok(text)) => ActionView::Finish(Ok(text@)),
            Action::Finish(Err(error)) => ActionView::Finish(Err(error@)),
        }
    }
}

/// The action that a step names, as contracts see it.
pub open spec fn answer_view(answer: Option<Action>) -> Option<ActionView> {
    match answer {
        Some(action) => Some(action@),
        None => None,
    }
}

/// The machine's table: the state that follows `state` on `event`, and the
/// action that answers the event. An event that the state does not wait for
/// is ignored: the state stays and no action is named.
pub open spec fn transition(state: ExchangeView, event: EventView) -> (
    ExchangeView,
    Option<ActionView>,
) {
    match (state, event) {
        (ExchangeView::Idle { prompt }, EventView::Credential(Some(value))) => (
            ExchangeView::CredentialResolved,
            Some(ActionView::Send(call_for(prompt, value))),
        ),
        (ExchangeView::Idle { .. }, EventView::Credential(None)) => (
            ExchangeView::Error,
            Some(ActionView::Finish(Err(ClientErrorView::Configuration))),
        ),
        (ExchangeView::CredentialResolved, EventView::Dispatched) => (
            ExchangeView::RequestSent,
            Some(ActionView::AwaitResponse),
        ),
        (ExchangeView::RequestSent, EventView::ResponseArrived) => (
            ExchangeView::ResponseReceived,
            Some(ActionView::DecodeBody),
        ),
        (ExchangeView::ResponseReceived, EventView::BodyDecoded(response)) => (
            ExchangeView::Done,
            Some(ActionView::Finish(Ok(completion_of(response)))),
        ),
        (ExchangeView::ResponseReceived, EventView::BodyRejected(message)) => (
            ExchangeView::Error,
            Some(ActionView::Finish(Err(ClientErrorView::Deserialization(message)))),
        ),
        (ExchangeView::CredentialResolved, EventView::TransportFailed(message)) => (
            ExchangeView::Error,
            Some(ActionView::Finish(Err(ClientErrorView::Transport(message)))),
        ),
        (ExchangeView::RequestSent, EventView::TransportFailed(message)) => (
            ExchangeView::Error,
            Some(ActionView::Finish(Err(ClientErrorView::Transport(message)))),
        ),
        (ExchangeView::ResponseReceived, EventView::TransportFailed(message)) => (
            ExchangeView::Error,
            Some(ActionView::Finish(Err(ClientErrorView::Transport(message)))),
        ),
        (state, _) => (state, None),
    }
}

impl Exchange {
    /// Opens an exchange for `prompt`. The first thing to do is to look the
    /// credential up.
    pub fn begin(prompt: &str) -> (start: (Exchange, Action))
        ensures
            start.0@ == (ExchangeView::Idle { prompt: prompt@ }),
            start.1@ == ActionView::ResolveCredential,
    {
        (Exchange::Idle { prompt: prompt.to_string() }, Action::ResolveCredential)
    }

    /// Takes one step: consumes `event` and gives the state that follows and
    /// the action that answers the event, as the table has them.
    pub fn step(self, event: Event) -> (next: (Exchange, Option<Action>))
        ensures
            next.0@ == transition(self@, event@).0,
            answer_view(next.1) == transition(self@, event@).1,
    {
        match (self, event) {
            (Exchange::Idle { prompt }, Event::Credential(credential)) => {
                match prepare_call(prompt.as_str(), credential) {
                    Ok(call) => (Exchange::CredentialResolved, Some(Action::Send(call))),
                    Err(error) => (Exchange::Error, Some(Action::Finish(Err(error)))),
                }
            },
            (Exchange::CredentialResolved, Event::Dispatched) => (
                Exchange::RequestSent,
                Some(Action::AwaitResponse),
            ),
            (Exchange::RequestSent, Event::ResponseArrived) => (
                Exchange::ResponseReceived,
                Some(Action::DecodeBody),
            ),
            (Exchange::ResponseReceived, Event::BodyDecoded(response)) => (
                Exchange::Done,
                Some(Action::Finish(Ok(completion_text(&response)))),
            ),
            (Exchange::ResponseReceived, Event::BodyRejected(message)) => (
                Exchange::Error,
                Some(Action::Finish(Err(ClientError::Deserialization(message)))),
            ),
            (Exchange::CredentialResolved, Event::TransportFailed(message)) => (
                Exchange::Error,
                Some(Action::Finish(Err(ClientError::Transport(message)))),
            ),
            (Exchange::RequestSent, Event::TransportFailed(message)) => (
                Exchange::Error,
                Some(Action::Finish(Err(ClientError::Transport(message)))),
            ),
            (Exchange::ResponseReceived, Event::TransportFailed(message)) => (
                Exchange::Error,
                Some(Action::Finish(Err(ClientError::Transport(message)))),
            ),
            (state, _) => (state, None),
        }
    }

    /// Whether the exchange is over.
    pub fn is_over(&self) -> (over: bool)
        ensures
            over == self@.is_terminal(),
    {
        match self {
            Exchange::Done => true,
            Exchange::Error => true,
            _ => false,
        }
    }
}

impl ExchangeView {
    /// The two states in which an exchange ends.
    pub open spec fn is_terminal(self) -> bool {
        self is Done || self is Error
    }

    /// The place of a state in the course of an exchange.
    pub open spec fn rank(self) -> nat {
        match self {
            ExchangeView::Idle { .. } => 0,
            ExchangeView::CredentialResolved => 1,
            ExchangeView::RequestSent => 2,
            ExchangeView::ResponseReceived => 3,
            ExchangeView::Done => 4,
            ExchangeView::Error => 4,
        }
    }
}

/// The state that `events`, reported in this order, lead to from `state`.
pub open spec fn state_after(state: ExchangeView, events: Seq<EventView>) -> ExchangeView
    decreases events.len(),
{
    if events.len() == 0 {
        state
    } else {
        transition(state_after(state, events.drop_last()), events.last()).0
    }
}

/// The action that answers the event at `index`, where `events` are reported
/// in this order from `state` on.
pub open spec fn answer_at(state: ExchangeView, events: Seq<EventView>, index: int) -> Option<
    ActionView,
>
    recommends
        0 <= index < events.len(),
{
    transition(state_after(state, events.take(index)), events[index]).1
}

/// An exchange is linear. A step either ignores the event, and then names no
/// action; or it moves to the next state in the course; or it ends the
/// exchange in `Error`, which no step does from a state that is terminal.
pub proof fn lemma_step_moves_forward(state: ExchangeView, event: EventView)
    ensures
        ({
            let (next, answer) = transition(state, event);
            ||| next == state && answer is None
            ||| next.rank() == state.rank() + 1 && !(next is Error) && answer is Some
            ||| next is Error && !state.is_terminal() && answer is Some
        }),
{
}

/// The outcome is reported by the step that ends the exchange, and by no
/// other: a completion on the way into `Done`, a failure on the way into
/// `Error`.
pub proof fn lemma_outcome_ends_exchange(state: ExchangeView, event: EventView)
    ensures
        ({
            let (next, answer) = transition(state, event);
            &&& (answer matches Some(ActionView::Finish(Ok(_)))) <==> next is Done && !(state
                is Done)
            &&& (answer matches Some(ActionView::Finish(Err(_)))) <==> next is Error && !(state
                is Error)
            &&& (answer matches Some(ActionView::Finish(_))) ==> !state.is_terminal()
        }),
{
}

/// No call without a credential: a step names a call only in answer to a
/// credential that is there, at the start of the exchange, and the call is
/// the one for the prompt under that credential. Where the credential is
/// absent at the start, the exchange ends at once with a configuration
/// failure.
pub proof fn lemma_call_needs_credential(state: ExchangeView, event: EventView)
    ensures
        ({
            transition(state, event).1 matches Some(ActionView::Send(call)) ==> {
                &&& state matches ExchangeView::Idle { prompt }
                &&& event matches EventView::Credential(Some(value))
                &&& call == call_for(prompt, value)
            }
        }),
        state is Idle && event == EventView::Credential(None) ==> transition(state, event) == (
            ExchangeView::Error,
            Some(ActionView::Finish(Err(ClientErrorView::Configuration))),
        ),
{
}

/// No completion without a decoded body: a step reports a completion only in
/// answer to a decoded body, once the response has arrived, and the
/// completion is that of the body: the text of its first choice, or the
/// fallback text where it holds no choice. A body that does not decode is
/// reported as a deserialization failure with the decoder's message.
pub proof fn lemma_completion_needs_decoded_body(state: ExchangeView, event: EventView)
    ensures
        ({
            transition(state, event).1 matches Some(ActionView::Finish(Ok(text))) ==> {
                &&& state is ResponseReceived
                &&& event matches EventView::BodyDecoded(response)
                &&& text == completion_of(response)
            }
        }),
        state is ResponseReceived ==> forall|message: Seq<char>|
            #[trigger] transition(state, EventView::BodyRejected(message)) == (
                ExchangeView::Error,
                Some(ActionView::Finish(Err(ClientErrorView::Deserialization(message)))),
            ),
{
}

/// A failure of the transport ends the exchange from any state in which the
/// transport is at work, and is reported with the transport's own message.
pub proof fn lemma_transport_failure_is_passed_on(state: ExchangeView, message: Seq<char>)
    requires
        state is CredentialResolved || state is RequestSent || state is ResponseReceived,
    ensures
        transition(state, EventView::TransportFailed(message)) == (
            ExchangeView::Error,
            Some(ActionView::Finish(Err(ClientErrorView::Transport(message)))),
        ),
        ClientErrorView::Transport(message).message() == message,
{
}

/// A run can be taken in two parts: the second part goes on from the state
/// that the first part leads to.
pub proof fn lemma_run_splits(state: ExchangeView, first: Seq<EventView>, second: Seq<EventView>)
    ensures
        state_after(state, first + second) == state_after(state_after(state, first), second),
    decreases second.len(),
{
    if second.len() == 0 {
        assert(first + second =~= first);
    } else {
        assert((first + second).drop_last() =~= first + second.drop_last());
        assert((first + second).last() == second.last());
        lemma_run_splits(state, first, second.drop_last());
    }
}

/// Nothing happens after the end: from a terminal state every event is
/// ignored.
pub proof fn lemma_terminal_state_absorbs(state: ExchangeView, events: Seq<EventView>)
    requires
        state.is_terminal(),
    ensures
        state_after(state, events) == state,
        forall|index: int|
            0 <= index < events.len() ==> #[trigger] answer_at(state, events, index) is None,
    decreases events.len(),
{
    if events.len() > 0 {
        lemma_terminal_state_absorbs(state, events.drop_last());
        assert forall|index: int| 0 <= index < events.len() implies #[trigger] answer_at(
            state,
            events,
            index,
        ) is None by {
            lemma_terminal_state_absorbs(state, events.take(index));
        }
    }
}

/// An exchange never goes back: whatever is reported, the state that follows
/// is no earlier in the course than the state before.
pub proof fn lemma_rank_never_falls(state: ExchangeView, events: Seq<EventView>)
    ensures
        state_after(state, events).rank() >= state.rank(),
    decreases events.len(),
{
    if events.len() > 0 {
        lemma_rank_never_falls(state, events.drop_last());
        lemma_step_moves_forward(state_after(state, events.drop_last()), events.last());
    }
}

/// Along one run, the state after more events is no earlier in the course
/// than the state after fewer.
proof fn lemma_rank_grows_along_run(
    state: ExchangeView,
    events: Seq<EventView>,
    earlier: int,
    later: int,
)
    requires
        0 <= earlier <= later <= events.len(),
    ensures
        state_after(state, events.take(earlier)).rank() <= state_after(
            state,
            events.take(later),
        ).rank(),
{
    let head = events.take(earlier);
    let between = events.subrange(earlier, later);
    assert(events.take(later) =~= head + between);
    lemma_run_splits(state, head, between);
    lemma_rank_never_falls(state_after(state, head), between);
}

/// At most one call is made in an exchange, whatever the driver reports.
pub proof fn lemma_at_most_one_call(
    state: ExchangeView,
    events: Seq<EventView>,
    first: int,
    second: int,
)
    requires
        0 <= first < second < events.len(),
        answer_at(state, events, first) matches Some(ActionView::Send(_)),
    ensures
        !(answer_at(state, events, second) matches Some(ActionView::Send(_))),
{
    assert(events.take(first + 1).drop_last() =~= events.take(first));
    assert(events.take(first + 1).last() == events[first]);
    lemma_rank_grows_along_run(state, events, first + 1, second);
}

/// At most one outcome is reported in an exchange, whatever the driver
/// reports.
pub proof fn lemma_at_most_one_outcome(
    state: ExchangeView,
    events: Seq<EventView>,
    first: int,
    second: int,
)
    requires
        0 <= first < second < events.len(),
        answer_at(state, events, first) matches Some(ActionView::Finish(_)),
    ensures
        answer_at(state, events, second) is None,
{
    assert(events.take(first + 1).drop_last() =~= events.take(first));
    assert(events.take(first + 1).last() == events[first]);
    lemma_rank_grows_along_run(state, events, first + 1, second);
}

/// Without a credential nothing is sent, now or later: the exchange for any
/// prompt answers the absent credential with a configuration failure, and
/// whatever the driver reports after that is ignored.
pub proof fn lemma_absent_credential_is_final(prompt: Seq<char>, later: Seq<EventView>)
    ensures
        ({
            let idle = ExchangeView::Idle { prompt };
            let events = seq![EventView::Credential(None)] + later;
            &&& answer_at(idle, events, 0) == Some(
                ActionView::Finish(Err(ClientErrorView::Configuration)),
            )
            &&& state_after(idle, events) is Error
            &&& forall|index: int|
                0 < index < events.len() ==> #[trigger] answer_at(idle, events, index) is None
        }),
{
    let idle = ExchangeView::Idle { prompt };
    let absent = EventView::Credential(None);
    let events = seq![absent] + later;
    assert(events.take(0) =~= Seq::<EventView>::empty());
    lemma_run_splits(idle, seq![absent], later);
    assert(seq![absent].drop_last() =~= Seq::<EventView>::empty());
    assert(state_after(idle, seq![absent]) is Error);
    lemma_terminal_state_absorbs(ExchangeView::Error, later);
    assert forall|index: int| 0 < index < events.len() implies #[trigger] answer_at(
        idle,
        events,
        index,
    ) is None by {
        let before = later.take(index - 1);
        assert(events.take(index) =~= seq![absent] + before);
        lemma_run_splits(idle, seq![absent], before);
        lemma_terminal_state_absorbs(ExchangeView::Error, before);
    }
}

/// The whole course of an exchange that meets no failure: the call for the
/// prompt under the credential goes out, and the outcome is the completion
/// of the decoded response, the text of its first choice or the fallback
/// text.
pub proof fn lemma_complete_exchange(
    prompt: Seq<char>,
    credential: Seq<char>,
    response: ChatResponseView,
)
    ensures
        ({
            let idle = ExchangeView::Idle { prompt };
            let events = seq![
                EventView::Credential(Some(credential)),
                EventView::Dispatched,
                EventView::ResponseArrived,
                EventView::BodyDecoded(response),
            ];
            &&& answer_at(idle, events, 0) == Some(ActionView::Send(call_for(prompt, credential)))
            &&& answer_at(idle, events, 1) == Some(ActionView::AwaitResponse)
            &&& answer_at(idle, events, 2) == Some(ActionView::DecodeBody)
            &&& answer_at(idle, events, 3) == Some(
                ActionView::Finish(Ok(completion_of(response))),
            )
            &&& state_after(idle, events) is Done
            &&& response.choices.len() == 0 ==> completion_of(response) == NO_RESPONSE@
            &&& response.choices.len() > 0 ==> completion_of(response)
                == response.choices[0].message.content
        }),
{
    let idle = ExchangeView::Idle { prompt };
    let events = seq![
        EventView::Credential(Some(credential)),
        EventView::Dispatched,
        EventView::ResponseArrived,
        EventView::BodyDecoded(response),
    ];
    let none = Seq::<EventView>::empty();
    assert(events.take(0) =~= none);
    assert(events.take(1).drop_last() =~= events.take(0));
    assert(events.take(2).drop_last() =~= events.take(1));
    assert(events.take(3).drop_last() =~= events.take(2));
    assert(events.drop_last() =~= events.take(3));
    assert(state_after(idle, events.take(0)) == idle);
    assert(state_after(idle, events.take(1)) is CredentialResolved);
    assert(state_after(idle, events.take(2)) is RequestSent);
    assert(state_after(idle, events.take(3)) is ResponseReceived);
}

} // verus!
