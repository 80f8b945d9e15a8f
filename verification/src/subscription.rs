//! The order of events on a bridge subscription.
//!
//! A subscription starts the service thread, announces the thread's
//! state-update sender, and from then on forwards the commands that arrive,
//! one event per command, until the subscriber goes away or the commands run
//! out. [`Session`] holds the rule; its caller does the waiting and sending
//! and reports back what happened.

use crate::mpris::{MprisCommand, MprisEvent, MprisStateUpdate};
use vstd::prelude::*;

verus! {

/// Where a subscription stands.
#[derive(Debug, Clone, Copy, PartialEq, Eq, Structural)]
pub enum SessionState {
    /// Nothing has happened yet.
    Fresh,
    /// An event was handed out and its delivery is awaited.
    Delivering,
    /// The next command is awaited.
    Waiting,
    /// The subscription is over.
    Closed,
}

/// What happened outside since the last step.
#[derive(Debug)]
pub enum SessionInput<V> {
    /// The service thread was started; state updates go to this sender.
    Started(tokio::sync::mpsc::UnboundedSender<MprisStateUpdate>),
    /// The event handed out was delivered (`true`), or the subscriber is gone.
    Delivered(bool),
    /// A command arrived, or the command channel is closed (`None`).
    Received(Option<MprisCommand<V>>),
}

/// What the caller has to do next.
#[derive(Debug)]
pub enum SessionStep<V> {
    /// Deliver this event to the subscriber and report whether it was taken.
    Emit(MprisEvent<V>),
    /// Wait for the next command and report it.
    AwaitCommand,
    /// Stop: the subscription is over.
    Finish,
}

/// The rule of a subscription: the state that follows and the step to take.
/// Whatever does not fit the state the subscription is in closes it.
pub open spec fn transition<V>(state: SessionState, input: SessionInput<V>) -> (
    SessionState,
    SessionStep<V>,
) {
    match (state, input) {
        (SessionState::Fresh, SessionInput::Started(sender)) => (
            SessionState::Delivering,
            SessionStep::Emit(MprisEvent::Ready(sender)),
        ),
        (SessionState::Delivering, SessionInput::Delivered(true)) => (
            SessionState::Waiting,
            SessionStep::AwaitCommand,
        ),
        (SessionState::Waiting, SessionInput::Received(Some(command))) => (
            SessionState::Delivering,
            SessionStep::Emit(MprisEvent::Command(command)),
        ),
        _ => (SessionState::Closed, SessionStep::Finish),
    }
}

/// One subscription to the bridge.
pub struct Session {
    state: SessionState,
}

impl Session {
    /// Where the subscription stands.
    pub closed spec fn state(&self) -> SessionState {
        self.state
    }

    /// A subscription on which nothing has happened yet.
    pub fn new() -> (session: Self)
        ensures
            session.state() == SessionState::Fresh,
    {
        Session { state: SessionState::Fresh }
    }

    /// Where the subscription stands.
    pub fn current(&self) -> (state: SessionState)
        ensures
            state == self.state(),
    {
        self.state
    }

    /// Takes in what happened and says what to do next.
    pub fn advance<V>(&mut self, input: SessionInput<V>) -> (step: SessionStep<V>)
        ensures
            (final(self).state(), step) == transition(old(self).state(), input),
    {
        let state = self.state;
        match input {
            SessionInput::Started(sender) => {
                if state == SessionState::Fresh {
                    self.state = SessionState::Delivering;
                    return SessionStep::Emit(MprisEvent::Ready(sender));
                }
            },
            SessionInput::Delivered(taken) => {
                if state == SessionState::Delivering && taken {
                    self.state = SessionState::Waiting;
                    return SessionStep::AwaitCommand;
                }
            },
            SessionInput::Received(received) => {
                if state == SessionState::Waiting {
                    match received {
                        Some(command) => {
                            self.state = SessionState::Delivering;
                            return SessionStep::Emit(MprisEvent::Command(command));
                        },
                        None => {},
                    }
                }
            },
        }
        self.state = SessionState::Closed;
        SessionStep::Finish
    }
}

/// The events that a subscription in `state` hands out while it takes in
/// `inputs`, in order.
pub open spec fn emitted<V>(state: SessionState, inputs: Seq<SessionInput<V>>) -> Seq<MprisEvent<V>>
    decreases inputs.len(),
{
    if inputs.len() == 0 {
        Seq::<MprisEvent<V>>::empty()
    } else {
        let (next, step) = transition(state, inputs.first());
        let rest = emitted(next, inputs.drop_first());
        match step {
            SessionStep::Emit(event) => seq![event] + rest,
            _ => rest,
        }
    }
}

/// The commands among `inputs`, in order of arrival.
pub open spec fn received_commands<V>(inputs: Seq<SessionInput<V>>) -> Seq<MprisCommand<V>>
    decreases inputs.len(),
{
    if inputs.len() == 0 {
        Seq::<MprisCommand<V>>::empty()
    } else {
        let rest = received_commands(inputs.drop_first());
        match inputs.first() {
            SessionInput::Received(Some(command)) => seq![command] + rest,
            _ => rest,
        }
    }
}

/// The commands that `events` carry, in order.
pub open spec fn carried_commands<V>(events: Seq<MprisEvent<V>>) -> Seq<MprisCommand<V>>
    decreases events.len(),
{
    if events.len() == 0 {
        Seq::<MprisCommand<V>>::empty()
    } else {
        let rest = carried_commands(events.drop_first());
        match events.first() {
            MprisEvent::Command(command) => seq![command] + rest,
            _ => rest,
        }
    }
}

/// A subscription that is no longer fresh hands out commands only, and they
/// are the commands that arrived, in the order of arrival, none twice and
/// none left out before the subscription closed.
pub proof fn lemma_started_session_forwards<V>(state: SessionState, inputs: Seq<SessionInput<V>>)
    requires
        state != SessionState::Fresh,
    ensures
        forall|i: int|
            0 <= i < emitted(state, inputs).len() ==> (#[trigger] emitted(state, inputs)[i]) is Command,
        carried_commands(emitted(state, inputs)).is_prefix_of(received_commands(inputs)),
    decreases inputs.len(),
{
    let events = emitted(state, inputs);
    if inputs.len() == 0 {
        assert(carried_commands(events) =~= Seq::<MprisCommand<V>>::empty());
    } else {
        let (next, step) = transition(state, inputs.first());
        let rest = emitted(next, inputs.drop_first());
        lemma_started_session_forwards(next, inputs.drop_first());
        match step {
            SessionStep::Emit(event) => {
                assert(events =~= seq![event] + rest);
                assert(events.drop_first() =~= rest);
                assert(events.first() == event);
                assert(carried_commands(events) =~= seq![event->Command_0] + carried_commands(
                    rest,
                ));
            },
            _ => {
                assert(events =~= rest);
                if next == SessionState::Closed {
                    lemma_closed_session_is_silent(inputs.drop_first());
                    assert(carried_commands(events) =~= Seq::<MprisCommand<V>>::empty());
                }
            },
        }
    }
}

/// A closed subscription stays closed and hands out nothing.
pub proof fn lemma_closed_session_is_silent<V>(inputs: Seq<SessionInput<V>>)
    ensures
        emitted(SessionState::Closed, inputs).len() == 0,
    decreases inputs.len(),
{
    if inputs.len() > 0 {
        lemma_closed_session_is_silent(inputs.drop_first());
    }
}

/// On a fresh subscription the first event handed out, if any is, is
/// `Ready`, and every later one is a `Command`.
pub proof fn lemma_ready_comes_first<V>(inputs: Seq<SessionInput<V>>)
    ensures
        emitted(SessionState::Fresh, inputs).len() > 0 ==> emitted(
            SessionState::Fresh,
            inputs,
        )[0] is Ready,
        forall|i: int|
            1 <= i < emitted(SessionState::Fresh, inputs).len() ==> (#[trigger] emitted(
                SessionState::Fresh,
                inputs,
            )[i]) is Command,
{
    let events = emitted(SessionState::Fresh, inputs);
    if inputs.len() > 0 {
        let (next, step) = transition(SessionState::Fresh, inputs.first());
        let rest = emitted(next, inputs.drop_first());
        lemma_started_session_forwards(next, inputs.drop_first());
        match step {
            SessionStep::Emit(event) => {
                assert(events =~= seq![event] + rest);
                assert forall|i: int| 1 <= i < events.len() implies (#[trigger] events[i]) is Command by {
                    assert(events[i] == rest[i - 1]);
                }
            },
            _ => {
                lemma_closed_session_is_silent(inputs.drop_first());
            },
        }
    }
}

} // verus!
