//! The worker: one cooperative scheduler that accepts connections and
//! dispatches each to a service of its own. The decisions are a transition
//! function; whoever runs the scheduler performs the actions and reports back.

use vstd::prelude::*;

verus! {

/// Where a worker stands.
#[derive(Clone, Copy, Debug, PartialEq, Eq, Structural)]
pub enum WorkerState {
    /// The scheduling context is being created.
    Starting,
    /// The worker waits for the listener's next connection.
    Accepting,
    /// A connection was accepted and its exchange is being registered.
    Dispatching,
    /// The accept sequence is over, or the context could not be created.
    Terminated,
}

/// How the exchange over one connection ended.
#[derive(Clone, Copy, Debug, PartialEq, Eq, Structural)]
pub enum Exchange {
    /// The peer was served and the connection closed.
    Completed,
    /// An I/O or protocol failure, or a handler failure that reached the driver.
    Failed,
}

/// What happened on the worker's scheduler. `A` is the type of a remote address.
#[derive(Debug, PartialEq, Eq)]
pub enum Event<A> {
    /// The scheduling context exists.
    ContextCreated,
    /// The scheduling context could not be created.
    ContextFailed,
    /// The listener produced a connection from this remote address.
    Accepted(A),
    /// The exchange of the accepted connection is registered on the scheduler.
    Dispatched,
    /// The exchange over some earlier connection ended.
    ExchangeEnded(Exchange),
    /// The listener failed terminally.
    AcceptFailed,
    /// The listener's sequence ended.
    SequenceEnded,
}

/// What the worker's owner does next.
#[derive(Debug, PartialEq, Eq)]
pub enum Action<A> {
    /// Ask the listener for the next connection.
    AwaitConnection,
    /// Create a service bound to this remote address and register the
    /// exchange on this worker's scheduler.
    Dispatch(A),
    /// Release what the ended exchange held, and nothing else.
    ReleaseConnection,
    /// Abort the worker: there is no scheduler to run.
    Abort,
    /// Leave the accept loop; the worker's thread exits.
    Exit,
    /// The event does not concern the worker in this state.
    Ignore,
}

impl WorkerState {
    /// Whether the worker still takes connections.
    pub open spec fn is_serving(self) -> bool {
        self == WorkerState::Accepting || self == WorkerState::Dispatching
    }

    /// The state after `event`.
    pub open spec fn next_state<A>(self, event: Event<A>) -> WorkerState {
        match (self, event) {
            (WorkerState::Starting, Event::ContextCreated) => WorkerState::Accepting,
            (WorkerState::Starting, Event::ContextFailed) => WorkerState::Terminated,
            (WorkerState::Accepting, Event::Accepted(_)) => WorkerState::Dispatching,
            (WorkerState::Accepting, Event::AcceptFailed) => WorkerState::Terminated,
            (WorkerState::Accepting, Event::SequenceEnded) => WorkerState::Terminated,
            (WorkerState::Dispatching, Event::Dispatched) => WorkerState::Accepting,
            _ => self,
        }
    }

    /// The action that `event` asks for.
    pub open spec fn action<A>(self, event: Event<A>) -> Action<A> {
        match (self, event) {
            (WorkerState::Starting, Event::ContextCreated) => Action::AwaitConnection,
            (WorkerState::Starting, Event::ContextFailed) => Action::Abort,
            (WorkerState::Accepting, Event::Accepted(remote)) => Action::Dispatch(remote),
            (WorkerState::Accepting, Event::AcceptFailed) => Action::Exit,
            (WorkerState::Accepting, Event::SequenceEnded) => Action::Exit,
            (WorkerState::Accepting, Event::ExchangeEnded(_)) => Action::ReleaseConnection,
            (WorkerState::Dispatching, Event::Dispatched) => Action::AwaitConnection,
            (WorkerState::Dispatching, Event::ExchangeEnded(_)) => Action::ReleaseConnection,
            _ => Action::Ignore,
        }
    }

    /// A worker before its scheduling context exists.
    pub fn new() -> (state: WorkerState)
        ensures
            state == WorkerState::Starting,
    {
        WorkerState::Starting
    }

    /// Takes one event: the state that follows and what to do now.
    pub fn step<A>(self, event: Event<A>) -> (out: (WorkerState, Action<A>))
        ensures
            out.0 == self.next_state(event),
            out.1 == self.action(event),
    {
        match self {
            WorkerState::Starting => match event {
                Event::ContextCreated => (WorkerState::Accepting, Action::AwaitConnection),
                Event::ContextFailed => (WorkerState::Terminated, Action::Abort),
                _ => (self, Action::Ignore),
            },
            WorkerState::Accepting => match event {
                Event::Accepted(remote) => (WorkerState::Dispatching, Action::Dispatch(remote)),
                Event::AcceptFailed => (WorkerState::Terminated, Action::Exit),
                Event::SequenceEnded => (WorkerState::Terminated, Action::Exit),
                Event::ExchangeEnded(_) => (self, Action::ReleaseConnection),
                _ => (self, Action::Ignore),
            },
            WorkerState::Dispatching => match event {
                Event::Dispatched => (WorkerState::Accepting, Action::AwaitConnection),
                Event::ExchangeEnded(_) => (self, Action::ReleaseConnection),
                _ => (self, Action::Ignore),
            },
            WorkerState::Terminated => (self, Action::Ignore),
        }
    }
}

/// The end of one connection's exchange, however it ended, costs that
/// connection only: a serving worker stays where it is, and from `Accepting`
/// the next connection is dispatched to a service for its own remote address.
pub proof fn lemma_connection_failure_is_local<A>(state: WorkerState, outcome: Exchange, remote: A)
    requires
        state.is_serving(),
    ensures
        state.next_state(Event::<A>::ExchangeEnded(outcome)) == state,
        state.action(Event::<A>::ExchangeEnded(outcome)) == Action::<A>::ReleaseConnection,
        WorkerState::Accepting.next_state(Event::<A>::ExchangeEnded(outcome)).action(
            Event::Accepted(remote),
        ) == Action::Dispatch(remote),
{
}

/// Accepting never waits for an exchange: after a dispatch is registered the
/// worker asks for the next connection.
pub proof fn lemma_dispatch_returns_to_accepting<A>(remote: A)
    ensures
        WorkerState::Accepting.next_state(Event::Accepted(remote)).next_state(
            Event::<A>::Dispatched,
        ) == WorkerState::Accepting,
        WorkerState::Dispatching.action(Event::<A>::Dispatched) == Action::<A>::AwaitConnection,
{
}

/// A terminated worker is not restarted: no event moves it or asks for work.
pub proof fn lemma_terminated_is_final<A>(event: Event<A>)
    ensures
        WorkerState::Terminated.next_state(event) == WorkerState::Terminated,
        WorkerState::Terminated.action(event) == Action::<A>::Ignore,
{
}

/// Only the creation of the context, the listener's end and its terminal
/// failure end a worker.
pub proof fn lemma_only_fatal_events_terminate<A>(state: WorkerState, event: Event<A>)
    requires
        state != WorkerState::Terminated,
        state.next_state(event) == WorkerState::Terminated,
    ensures
        event is ContextFailed || event is AcceptFailed || event is SequenceEnded,
{
}

} // verus!
