//! The confirmation poller: a state machine that follows one submitted transaction
//! until the network settles it.
//!
//! The machine decides; its driver acts. In `Querying` the driver asks the network for
//! the transaction's status and reports what came back; in `Waiting` it lets the retry
//! delay pass and reports that. `Accepted` and `Rejected` are final. A failed query
//! settles nothing: the poller waits and asks again.

use crate::error::ConfirmationError;
use crate::transaction::{Finality, TransactionHandle, TransactionStatus};
use vstd::prelude::*;

verus! {

/// Seconds between a query that settled nothing and the next query.
pub const RETRY_DELAY_SECS: u64 = 3;

/// What one status query came back with.
#[derive(Clone, Copy, Debug, PartialEq, Eq, Structural)]
pub enum QueryOutcome {
    /// The network answered with the transaction's status.
    Answered(TransactionStatus),
    /// The query did not get through: a timeout or a transport failure.
    Failed,
}

/// Where the poller stands.
#[derive(Clone, Copy, Debug, PartialEq, Eq, Structural)]
pub enum PollState {
    /// The next step is a status query.
    Querying,
    /// The next step is to let the retry delay pass.
    Waiting,
    /// The transaction was accepted. Final.
    Accepted,
    /// The transaction was rejected. Final.
    Rejected,
}

/// What the driver reports to the poller.
#[derive(Clone, Copy, Debug, PartialEq, Eq, Structural)]
pub enum PollEvent {
    /// A status query has ended.
    Query(QueryOutcome),
    /// The retry delay has passed.
    DelayElapsed,
}

/// What the poller asks of its driver.
#[derive(Clone, Copy, Debug, PartialEq, Eq)]
pub enum PollAction {
    /// Ask the network for the status of this transaction.
    Query(TransactionHandle),
    /// Let this many seconds pass, without holding up other work.
    Wait(u64),
    /// Stop and hand this result to the caller.
    Finish(Result<TransactionHandle, ConfirmationError>),
}

impl QueryOutcome {
    /// What the outcome means for the wait: a failed query settles nothing.
    pub open spec fn spec_finality(self) -> Finality {
        match self {
            QueryOutcome::Answered(status) => status.spec_finality(),
            QueryOutcome::Failed => Finality::InFlight,
        }
    }

    /// Whether the outcome ends the wait: an answer with a terminal status.
    pub open spec fn spec_is_terminal(self) -> bool {
        self.spec_finality() != Finality::InFlight
    }

    /// What the outcome means for the wait.
    #[verifier::when_used_as_spec(spec_finality)]
    pub fn finality(self) -> (class: Finality)
        ensures
            class == self.spec_finality(),
    {
        match self {
            QueryOutcome::Answered(status) => status.finality(),
            QueryOutcome::Failed => Finality::InFlight,
        }
    }

    /// Whether the outcome ends the wait.
    #[verifier::when_used_as_spec(spec_is_terminal)]
    pub fn is_terminal(self) -> (terminal: bool)
        ensures
            terminal == self.spec_is_terminal(),
    {
        match self.finality() {
            Finality::InFlight => false,
            _ => true,
        }
    }
}

impl PollState {
    /// Whether the state is final.
    pub open spec fn spec_is_terminal(self) -> bool {
        self == PollState::Accepted || self == PollState::Rejected
    }

    /// The transition table. `None` where the event does not fit the state: a delay
    /// that nobody asked for, an answer to a query that was not due, anything after
    /// the end.
    pub open spec fn spec_step(self, event: PollEvent) -> Option<PollState> {
        match (self, event) {
            (PollState::Querying, PollEvent::Query(outcome)) => Some(
                match outcome.spec_finality() {
                    Finality::InFlight => PollState::Waiting,
                    Finality::Accepted => PollState::Accepted,
                    Finality::Rejected => PollState::Rejected,
                },
            ),
            (PollState::Waiting, PollEvent::DelayElapsed) => Some(PollState::Querying),
            _ => None,
        }
    }

    /// The result that a wait for `handle` has in this state: none before the end.
    pub open spec fn spec_outcome(self, handle: TransactionHandle) -> Option<
        Result<TransactionHandle, ConfirmationError>,
    > {
        match self {
            PollState::Accepted => Some(Ok(handle)),
            PollState::Rejected => Some(Err(ConfirmationError::TransactionRejected)),
            _ => None,
        }
    }

    /// What the driver has to do in this state, for the transaction `handle`.
    pub open spec fn spec_action(self, handle: TransactionHandle) -> PollAction {
        match self {
            PollState::Querying => PollAction::Query(handle),
            PollState::Waiting => PollAction::Wait(RETRY_DELAY_SECS),
            PollState::Accepted => PollAction::Finish(Ok(handle)),
            PollState::Rejected => PollAction::Finish(
                Err(ConfirmationError::TransactionRejected),
            ),
        }
    }

    /// Whether the state is final.
    #[verifier::when_used_as_spec(spec_is_terminal)]
    pub fn is_terminal(self) -> (terminal: bool)
        ensures
            terminal == self.spec_is_terminal(),
    {
        match self {
            PollState::Accepted => true,
            PollState::Rejected => true,
            _ => false,
        }
    }

    /// The state after `event`, or `None` where the event does not fit the state.
    #[verifier::when_used_as_spec(spec_step)]
    pub fn step(self, event: PollEvent) -> (next: Option<PollState>)
        ensures
            next == self.spec_step(event),
    {
        match self {
            PollState::Querying => match event {
                PollEvent::Query(outcome) => match outcome.finality() {
                    Finality::InFlight => Some(PollState::Waiting),
                    Finality::Accepted => Some(PollState::Accepted),
                    Finality::Rejected => Some(PollState::Rejected),
                },
                PollEvent::DelayElapsed => None,
            },
            PollState::Waiting => match event {
                PollEvent::DelayElapsed => Some(PollState::Querying),
                PollEvent::Query(_) => None,
            },
            _ => None,
        }
    }

    /// What the driver has to do in this state, for the transaction `handle`.
    #[verifier::when_used_as_spec(spec_action)]
    pub fn action(self, handle: TransactionHandle) -> (action: PollAction)
        ensures
            action == self.spec_action(handle),
    {
        match self {
            PollState::Querying => PollAction::Query(handle),
            PollState::Waiting => PollAction::Wait(RETRY_DELAY_SECS),
            PollState::Accepted => PollAction::Finish(Ok(handle)),
            PollState::Rejected => PollAction::Finish(Err(ConfirmationError::TransactionRejected)),
        }
    }
}

/// A final state takes no event and asks for nothing but to finish: once the poller has
/// a verdict, no further query or delay follows.
pub proof fn lemma_final_state_is_absorbing(
    state: PollState,
    event: PollEvent,
    handle: TransactionHandle,
)
    requires
        state.spec_is_terminal(),
    ensures
        state.spec_step(event) is None,
        state.spec_action(handle) is Finish,
{
}

/// The only way into a final state is a query, made in `Querying`, that came back with
/// a terminal status; the state reached is `Accepted` for an accepted status and
/// `Rejected` for a rejected one.
pub proof fn lemma_final_state_needs_terminal_status(
    state: PollState,
    event: PollEvent,
    next: PollState,
)
    requires
        state.spec_step(event) == Some(next),
        next.spec_is_terminal(),
    ensures
        state == PollState::Querying,
        event matches PollEvent::Query(QueryOutcome::Answered(status))
            && status.spec_is_terminal() && (next == PollState::Accepted
            <==> status.spec_finality() == Finality::Accepted),
{
}

/// A query that failed, or that came back with a status that is not terminal, leads
/// from `Querying` to `Waiting`, and the delay leads back to `Querying`: the poller
/// asks again.
pub proof fn lemma_unsettled_query_is_retried(outcome: QueryOutcome)
    requires
        !outcome.spec_is_terminal(),
    ensures
        PollState::Querying.spec_step(PollEvent::Query(outcome)) == Some(PollState::Waiting),
        PollState::Waiting.spec_step(PollEvent::DelayElapsed) == Some(PollState::Querying),
{
}

/// The poller for one transaction: the handle it was made for and the state it is in.
#[derive(Clone, Copy, Debug, PartialEq, Eq)]
pub struct ConfirmationPoller {
    handle: TransactionHandle,
    state: PollState,
}

impl ConfirmationPoller {
    /// The transaction that the poller follows.
    pub closed spec fn spec_handle(&self) -> TransactionHandle {
        self.handle
    }

    /// The state that the poller is in.
    pub closed spec fn spec_state(&self) -> PollState {
        self.state
    }

    /// A poller for `handle`, about to make its first query.
    pub fn new(handle: TransactionHandle) -> (poller: ConfirmationPoller)
        ensures
            poller.handle() == handle,
            poller.state() == PollState::Querying,
    {
        ConfirmationPoller { handle, state: PollState::Querying }
    }

    /// The transaction that the poller follows.
    #[verifier::when_used_as_spec(spec_handle)]
    pub fn handle(&self) -> (handle: TransactionHandle)
        ensures
            handle == self.spec_handle(),
    {
        self.handle
    }

    /// The state that the poller is in.
    #[verifier::when_used_as_spec(spec_state)]
    pub fn state(&self) -> (state: PollState)
        ensures
            state == self.spec_state(),
    {
        self.state
    }

    /// What the driver has to do next.
    pub fn next_action(&self) -> (action: PollAction)
        ensures
            action == self.state().spec_action(self.handle()),
    {
        self.state.action(self.handle)
    }

    /// The result of the wait, once the poller has reached a final state.
    pub fn outcome(&self) -> (result: Option<Result<TransactionHandle, ConfirmationError>>)
        ensures
            result == self.state().spec_outcome(self.handle()),
    {
        match self.state {
            PollState::Accepted => Some(Ok(self.handle)),
            PollState::Rejected => Some(Err(ConfirmationError::TransactionRejected)),
            _ => None,
        }
    }

    /// Takes one event from the driver. Where the event fits the state the poller moves
    /// on as the transition table says and the call returns `true`; where it does not,
    /// the poller stays as it was and the call returns `false`. The handle never
    /// changes.
    pub fn on_event(&mut self, event: PollEvent) -> (taken: bool)
        ensures
            final(self).handle() == old(self).handle(),
            taken == old(self).state().spec_step(event).is_some(),
            final(self).state() == match old(self).state().spec_step(event) {
                Some(next) => next,
                None => old(self).state(),
            },
    {
        match self.state.step(event) {
            Some(next) => {
                self.state = next;
                true
            },
            None => false,
        }
    }
}

} // verus!
