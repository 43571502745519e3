//! Startup and the accept loop, as a state machine.
//!
//! The driver does what the listener asks, one action at a time, and hands
//! back what came of it as an event. The listener asks for the payloads
//! first, for the endpoint only once it has them, and for connections only
//! once the endpoint is bound.

use crate::catalog::{CatalogView, ResponseCatalog};
use crate::job::{Job, JobView};
use std::sync::Arc;
use vstd::prelude::*;

verus! {

/// Why startup failed.
#[derive(Clone, Copy, Debug, PartialEq, Eq, Structural)]
pub enum StartupError {
    /// A payload source could not be read.
    MissingPayload,
    /// The endpoint could not be bound.
    BindFailed,
}

/// Where the listener stands.
#[derive(Clone, Copy, Debug, PartialEq, Eq, Structural)]
pub enum Phase {
    /// Waiting for the payloads.
    Loading,
    /// Waiting for the endpoint to be bound.
    Binding,
    /// Bound: waiting for the next connection.
    Accepting,
    /// The stream of connections has ended.
    Finished,
    /// Startup failed. Nothing was accepted and nothing will be.
    Failed(StartupError),
}

/// What came of the action the listener asked for.
pub enum Event<C> {
    /// The payload sources were read; `None` where either was missing.
    Loaded(Option<ResponseCatalog>),
    /// The endpoint is bound.
    Bound,
    /// The endpoint could not be bound.
    BindFailed,
    /// A connection arrived.
    Accepted(C),
    /// An attempt to accept failed.
    AcceptFailed,
    /// No more connections will arrive.
    Closed,
}

/// What the listener asks of the driver.
pub enum Action<C> {
    /// Read the two payload sources.
    ReadPayloads,
    /// Bind the endpoint.
    Bind,
    /// Wait for the next connection.
    Accept,
    /// Hand this job to the pool, then wait for the next connection.
    Dispatch(Job<C>),
    /// Report the failed attempt, then wait for the next connection.
    Report,
    /// Stop: startup failed.
    Abort(StartupError),
    /// Stop: the stream of connections has ended.
    Finish,
}

/// The abstract value of an action: variant for variant as [`Action`], with
/// the job of a dispatch taken by its view.
pub enum ActionView<C> {
    /// Read the two payload sources.
    ReadPayloads,
    /// Bind the endpoint.
    Bind,
    /// Wait for the next connection.
    Accept,
    /// Hand this job to the pool, then wait for the next connection.
    Dispatch(JobView<C>),
    /// Report the failed attempt, then wait for the next connection.
    Report,
    /// Stop: startup failed.
    Abort(StartupError),
    /// Stop: the stream of connections has ended.
    Finish,
}

impl<C> View for Action<C> {
    type V = ActionView<C>;

    open spec fn view(&self) -> ActionView<C> {
        match *self {
            Action::ReadPayloads => ActionView::ReadPayloads,
            Action::Bind => ActionView::Bind,
            Action::Accept => ActionView::Accept,
            Action::Dispatch(job) => ActionView::Dispatch(job@),
            Action::Report => ActionView::Report,
            Action::Abort(error) => ActionView::Abort(error),
            Action::Finish => ActionView::Finish,
        }
    }
}

/// The abstract state of a listener.
pub struct ListenerState {
    /// Where the listener stands.
    pub phase: Phase,
    /// The payloads, once loaded.
    pub catalog: Option<CatalogView>,
}

impl ListenerState {
    /// The state before anything was done.
    pub open spec fn initial() -> ListenerState {
        ListenerState { phase: Phase::Loading, catalog: None }
    }

    /// A listener that is past loading has its payloads.
    pub open spec fn wf(self) -> bool {
        (self.phase is Binding || self.phase is Accepting) ==> self.catalog is Some
    }

    /// What the listener is waiting for the driver to do.
    pub open spec fn pending<C>(self) -> ActionView<C> {
        match self.phase {
            Phase::Loading => ActionView::ReadPayloads,
            Phase::Binding => ActionView::Bind,
            Phase::Accepting => ActionView::Accept,
            Phase::Finished => ActionView::Finish,
            Phase::Failed(error) => ActionView::Abort(error),
        }
    }

    /// The state after `event`, and the action asked for next. An event that
    /// does not answer the pending action changes nothing, and the pending
    /// action is asked for again.
    pub open spec fn next<C>(self, event: Event<C>) -> (ListenerState, ActionView<C>) {
        match (self.phase, event) {
            (Phase::Loading, Event::Loaded(Some(catalog))) => (
                ListenerState { phase: Phase::Binding, catalog: Some(catalog@) },
                ActionView::Bind,
            ),
            (Phase::Loading, Event::Loaded(None)) => (
                ListenerState {
                    phase: Phase::Failed(StartupError::MissingPayload),
                    catalog: self.catalog,
                },
                ActionView::Abort(StartupError::MissingPayload),
            ),
            (Phase::Binding, Event::Bound) => (
                ListenerState { phase: Phase::Accepting, catalog: self.catalog },
                ActionView::Accept,
            ),
            (Phase::Binding, Event::BindFailed) => (
                ListenerState {
                    phase: Phase::Failed(StartupError::BindFailed),
                    catalog: self.catalog,
                },
                ActionView::Abort(StartupError::BindFailed),
            ),
            (Phase::Accepting, Event::Accepted(connection)) => (
                self,
                ActionView::Dispatch(JobView { connection, catalog: self.catalog->Some_0 }),
            ),
            (Phase::Accepting, Event::AcceptFailed) => (self, ActionView::Report),
            (Phase::Accepting, Event::Closed) => (
                ListenerState { phase: Phase::Finished, catalog: self.catalog },
                ActionView::Finish,
            ),
            _ => (self, self.pending()),
        }
    }

    /// The state after a sequence of events.
    pub open spec fn run<C>(self, events: Seq<Event<C>>) -> ListenerState
        decreases events.len(),
    {
        if events.len() == 0 {
            self
        } else {
            self.run(events.drop_last()).next(events.last()).0
        }
    }

    /// The action asked for after the last of a sequence of events.
    pub open spec fn last_action<C>(self, events: Seq<Event<C>>) -> ActionView<C>
        recommends
            events.len() > 0,
    {
        self.run(events.drop_last()).next(events.last()).1
    }
}

/// Whether an action touches the endpoint: binding it, or taking a
/// connection from it.
pub open spec fn uses_endpoint<C>(action: ActionView<C>) -> bool {
    action is Bind || action is Accept || action is Dispatch || action is Report
}

/// Whatever the events, a listener that is past loading has its payloads.
pub proof fn lemma_run_keeps_payloads<C>(state: ListenerState, events: Seq<Event<C>>)
    requires
        state.wf(),
    ensures
        state.run(events).wf(),
    decreases events.len(),
{
    if events.len() > 0 {
        lemma_run_keeps_payloads(state, events.drop_last());
    }
}

/// A failed startup stays failed: whatever events follow, the state does
/// not change and every action asked for is to stop with the same error.
pub proof fn lemma_failure_is_final<C>(state: ListenerState, events: Seq<Event<C>>)
    requires
        state.phase is Failed,
    ensures
        state.run(events) == state,
        events.len() > 0 ==> state.last_action(events) == ActionView::<C>::Abort(
            state.phase->Failed_0,
        ),
    decreases events.len(),
{
    if events.len() > 0 {
        lemma_failure_is_final(state, events.drop_last());
    }
}

/// Where a payload is missing, the first action asked for is to stop, and
/// so is every later one: the endpoint is never bound and no connection is
/// ever accepted.
pub proof fn lemma_missing_payload_binds_nothing<C>(events: Seq<Event<C>>, n: int)
    requires
        0 < n <= events.len(),
        events.first() matches Event::Loaded(None),
    ensures
        ListenerState::initial().run(events.take(n)).phase == Phase::Failed(
            StartupError::MissingPayload,
        ),
        ListenerState::initial().last_action(events.take(n)) == ActionView::<C>::Abort(
            StartupError::MissingPayload,
        ),
        !uses_endpoint(ListenerState::initial().last_action(events.take(n))),
    decreases n,
{
    let prefix = events.take(n);
    assert(prefix.drop_last() =~= events.take(n - 1));
    assert(prefix.last() == events[n - 1]);
    if n > 1 {
        lemma_missing_payload_binds_nothing(events, n - 1);
    }
}

/// Where the endpoint cannot be bound, every action asked for from then on
/// is to stop: no connection is ever accepted.
pub proof fn lemma_bind_failure_accepts_nothing<C>(
    state: ListenerState,
    events: Seq<Event<C>>,
    n: int,
)
    requires
        state.phase is Binding,
        0 < n <= events.len(),
        events.first() is BindFailed,
    ensures
        state.run(events.take(n)).phase == Phase::Failed(StartupError::BindFailed),
        state.last_action(events.take(n)) == ActionView::<C>::Abort(StartupError::BindFailed),
    decreases n,
{
    let prefix = events.take(n);
    assert(prefix.drop_last() =~= events.take(n - 1));
    assert(prefix.last() == events[n - 1]);
    if n > 1 {
        lemma_bind_failure_accepts_nothing(state, events, n - 1);
    }
}

/// Once connections are accepted, only the end of their stream ends the
/// loop. A failed attempt to accept does not; and what becomes of a
/// connection once it is handed on is no event of the listener at all.
pub proof fn lemma_only_the_end_of_connections_stops<C>(
    state: ListenerState,
    events: Seq<Event<C>>,
)
    requires
        state.phase is Accepting,
        forall|i: int| 0 <= i < events.len() ==> !(#[trigger] events[i] is Closed),
    ensures
        state.run(events) == state,
    decreases events.len(),
{
    if events.len() > 0 {
        lemma_only_the_end_of_connections_stops(state, events.drop_last());
    }
}

/// From the start, the endpoint is touched only with the payloads loaded,
/// and a connection is taken only with the endpoint bound.
pub proof fn lemma_startup_is_ordered<C>(events: Seq<Event<C>>)
    requires
        events.len() > 0,
    ensures
        uses_endpoint(ListenerState::initial().last_action(events))
            ==> ListenerState::initial().run(events).catalog is Some,
        !(ListenerState::initial().last_action(events) is Bind)
            && uses_endpoint(ListenerState::initial().last_action(events))
            ==> ListenerState::initial().run(events).phase is Accepting,
{
    lemma_run_keeps_payloads(ListenerState::initial(), events.drop_last());
    lemma_run_keeps_payloads(ListenerState::initial(), events);
}

/// Decides what the driver of the server does next.
pub struct Listener {
    phase: Phase,
    catalog: Option<Arc<ResponseCatalog>>,
}

impl View for Listener {
    type V = ListenerState;

    closed spec fn view(&self) -> ListenerState {
        ListenerState {
            phase: self.phase,
            catalog: match self.catalog {
                Some(catalog) => Some(catalog@),
                None => None,
            },
        }
    }
}

impl Listener {
    #[verifier::type_invariant]
    spec fn inv(self) -> bool {
        (self.phase is Binding || self.phase is Accepting) ==> self.catalog is Some
    }

    /// A listener that has done nothing yet.
    pub fn new() -> (listener: Listener)
        ensures
            listener@ == ListenerState::initial(),
    {
        Listener { phase: Phase::Loading, catalog: None }
    }

    /// Where the listener stands.
    pub fn phase(&self) -> (phase: Phase)
        ensures
            phase == self@.phase,
            self@.wf(),
    {
        proof {
            use_type_invariant(self);
        }
        self.phase
    }

    /// What the listener is waiting for the driver to do.
    pub fn pending<C>(&self) -> (action: Action<C>)
        ensures
            action@ == self@.pending::<C>(),
    {
        match self.phase {
            Phase::Loading => Action::ReadPayloads,
            Phase::Binding => Action::Bind,
            Phase::Accepting => Action::Accept,
            Phase::Finished => Action::Finish,
            Phase::Failed(error) => Action::Abort(error),
        }
    }

    /// Takes what came of the last action and says what to do next.
    pub fn step<C>(&mut self, event: Event<C>) -> (action: Action<C>)
        ensures
            (final(self)@, action@) == old(self)@.next(event),
    {
        proof {
            use_type_invariant(&*self);
        }
        match self.phase {
            Phase::Loading => match event {
                Event::Loaded(Some(catalog)) => {
                    self.catalog = Some(Arc::new(catalog));
                    self.phase = Phase::Binding;
                    Action::Bind
                },
                Event::Loaded(None) => {
                    self.phase = Phase::Failed(StartupError::MissingPayload);
                    Action::Abort(StartupError::MissingPayload)
                },
                _ => Action::ReadPayloads,
            },
            Phase::Binding => match event {
                Event::Bound => {
                    self.phase = Phase::Accepting;
                    Action::Accept
                },
                Event::BindFailed => {
                    self.phase = Phase::Failed(StartupError::BindFailed);
                    Action::Abort(StartupError::BindFailed)
                },
                _ => Action::Bind,
            },
            Phase::Accepting => match event {
                Event::Accepted(connection) => match &self.catalog {
                    Some(catalog) => Action::Dispatch(Job::new(connection, Arc::clone(catalog))),
                    None => Action::Accept,
                },
                Event::AcceptFailed => Action::Report,
                Event::Closed => {
                    self.phase = Phase::Finished;
                    Action::Finish
                },
                _ => Action::Accept,
            },
            Phase::Finished => Action::Finish,
            Phase::Failed(error) => Action::Abort(error),
        }
    }
}

} // verus!
