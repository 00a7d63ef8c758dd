//! The course of a monitoring session, as a state machine.
//!
//! The caller makes the calls on the node.  This module decides what is
//! called next and which transactions are handed to classification: the
//! caller starts with `start`, makes the call it is given, passes what came
//! back to `step`, and goes on with the action that `step` returns.

use crate::error::MonitorError;
use crate::filter::{
    handle_of, open, open_request, payload_text, poll, poll_request, polled,
    FilterHandle, FILTER_CHANGES_METHOD, NEW_FILTER_METHOD,
};
use crate::rpc::{body_payload, request_for, RequestView, RpcRequest};
use vstd::prelude::*;

verus! {

/// The number of results that may wait for the consumer before a producer
/// is held back.
pub const CHANNEL_CAPACITY: usize = 100;

/// Where a session stands.
#[derive(Debug, PartialEq, Eq)]
pub enum MonitorState {
    /// The call that creates the filter is under way.
    Opening,
    /// The filter exists and a call that polls it is under way.
    Polling(FilterHandle),
    /// The session has failed.  No call is under way and none will be made.
    Stopped(MonitorError),
}

/// A `MonitorState` as text.
pub enum StateView {
    Opening,
    Polling(Seq<char>),
    Stopped(MonitorError),
}

impl View for MonitorState {
    type V = StateView;

    open spec fn view(&self) -> StateView {
        match self {
            MonitorState::Opening => StateView::Opening,
            MonitorState::Polling(handle) => StateView::Polling(handle@),
            MonitorState::Stopped(error) => StateView::Stopped(*error),
        }
    }
}

/// How the call that was under way ended.
#[derive(Debug, PartialEq, Eq)]
pub enum Event {
    /// The node answered, with this body.
    Response(String),
    /// The call did not reach the node, or no answer came back.
    TransportFailure,
}

/// An `Event` as text.
pub enum EventView {
    Response(Seq<char>),
    TransportFailure,
}

impl View for Event {
    type V = EventView;

    open spec fn view(&self) -> EventView {
        match self {
            Event::Response(body) => EventView::Response(body@),
            Event::TransportFailure => EventView::TransportFailure,
        }
    }
}

/// What the caller does next.
#[derive(Debug, PartialEq, Eq)]
pub enum Action {
    /// Start one classification for each hash of `dispatch`, without waiting
    /// for any of them, and make the call `request`.
    Call { dispatch: Vec<String>, request: RpcRequest },
    /// Give up: the session has failed with this error.
    Stop(MonitorError),
}

/// An `Action` as texts.
pub enum ActionView {
    Call { dispatch: Seq<Seq<char>>, request: RequestView },
    Stop(MonitorError),
}

impl View for Action {
    type V = ActionView;

    open spec fn view(&self) -> ActionView {
        match self {
            Action::Call { dispatch, request } => ActionView::Call {
                dispatch: dispatch.deep_view(),
                request: request@,
            },
            Action::Stop(error) => ActionView::Stop(*error),
        }
    }
}

/// The step that ends a session with `error`.
pub open spec fn failed(error: MonitorError) -> (StateView, ActionView) {
    (StateView::Stopped(error), ActionView::Stop(error))
}

/// The step that hands `dispatch` to classification and polls the filter
/// `handle` again.
pub open spec fn polling(handle: Seq<char>, dispatch: Seq<Seq<char>>) -> (StateView, ActionView) {
    (
        StateView::Polling(handle),
        ActionView::Call { dispatch, request: request_for(FILTER_CHANGES_METHOD@, seq![handle]) },
    )
}

/// The state that follows an event, and the action that goes with it.
///
/// A session that is opening starts to poll once the filter exists.  A
/// session that polls hands each batch to classification and polls again.
/// Any failure of a call, whether of transport, protocol or decoding, stops
/// the session, and a stopped session stays stopped.
pub open spec fn next_step(state: StateView, event: EventView) -> (StateView, ActionView) {
    match state {
        StateView::Stopped(error) => failed(error),
        StateView::Opening => match event {
            EventView::TransportFailure => failed(MonitorError::Transport),
            EventView::Response(body) => match handle_of(payload_text(body_payload(body))) {
                Ok(handle) => polling(handle, Seq::empty()),
                Err(error) => failed(error),
            },
        },
        StateView::Polling(handle) => match event {
            EventView::TransportFailure => failed(MonitorError::Transport),
            EventView::Response(body) => match polled(body) {
                Ok(hashes) => polling(handle, hashes),
                Err(error) => failed(error),
            },
        },
    }
}

/// Begins a session: the state to start from and the call to make first.
pub fn start() -> (begun: (MonitorState, RpcRequest))
    ensures
        begun.0@ == StateView::Opening,
        begun.1@ == request_for(NEW_FILTER_METHOD@, Seq::empty()),
{
    (MonitorState::Opening, open_request())
}

/// Ends a session with `error`.
fn fail(error: MonitorError) -> (step: (MonitorState, Action))
    ensures
        (step.0@, step.1@) == failed(error),
{
    (MonitorState::Stopped(error), Action::Stop(error))
}

/// Hands `dispatch` to classification and polls the filter again.
fn poll_again(handle: FilterHandle, dispatch: Vec<String>) -> (step: (MonitorState, Action))
    ensures
        (step.0@, step.1@) == polling(handle@, dispatch.deep_view()),
{
    let request = poll_request(&handle);
    (MonitorState::Polling(handle), Action::Call { dispatch, request })
}

/// Takes the session one step on: from the state it is in and the way the
/// call under way ended, to the state it is in next and what the caller
/// does then.
pub fn step(state: MonitorState, event: Event) -> (step: (MonitorState, Action))
    ensures
        (step.0@, step.1@) == next_step(state@, event@),
{
    match state {
        MonitorState::Stopped(error) => fail(error),
        MonitorState::Opening => match event {
            Event::TransportFailure => fail(MonitorError::Transport),
            Event::Response(body) => match open(body.as_str()) {
                Ok(handle) => {
                    let dispatch: Vec<String> = Vec::new();
                    assert(dispatch.deep_view() =~= Seq::<Seq<char>>::empty());
                    poll_again(handle, dispatch)
                },
                Err(error) => fail(error),
            },
        },
        MonitorState::Polling(handle) => match event {
            Event::TransportFailure => fail(MonitorError::Transport),
            Event::Response(body) => match poll(body.as_str()) {
                Ok(hashes) => poll_again(handle, hashes),
                Err(error) => fail(error),
            },
        },
    }
}

/// A stopped session stays stopped, whatever comes in, and asks for no call.
pub proof fn lemma_stopped_is_final(error: MonitorError, event: EventView)
    ensures
        next_step(StateView::Stopped(error), event) == failed(error),
{
}

/// While a session polls, its filter stays the same: the next state either
/// polls the same handle, with a call on that handle, or is stopped.
pub proof fn lemma_handle_is_kept(handle: Seq<char>, event: EventView)
    ensures
        match next_step(StateView::Polling(handle), event) {
            (StateView::Polling(kept), ActionView::Call { dispatch, request }) => kept == handle
                && request == request_for(FILTER_CHANGES_METHOD@, seq![handle]),
            (StateView::Stopped(error), ActionView::Stop(reported)) => error == reported,
            _ => false,
        },
{
}

/// The hashes that are handed to classification in a step are those of the
/// batch that was polled in that step, in order, and no others.
pub proof fn lemma_dispatch_is_the_batch(handle: Seq<char>, body: Seq<char>)
    ensures
        match polled(body) {
            Ok(hashes) => next_step(StateView::Polling(handle), EventView::Response(body))
                == polling(handle, hashes),
            Err(error) => next_step(StateView::Polling(handle), EventView::Response(body))
                == failed(error),
        },
{
}

} // verus!
