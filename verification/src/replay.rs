//! The poller run against a recorded sequence of query outcomes.
//!
//! Given what each successive status query would come back with, `replay` drives the
//! poller exactly as a live driver does and reports how the wait ends and what it
//! cost. The result is also stated directly, without the machine: the wait ends at the
//! first outcome that is a terminal status, and nothing else ends it.

use crate::error::ConfirmationError;
use crate::poller::{ConfirmationPoller, PollAction, PollEvent, PollState, QueryOutcome};
use crate::transaction::{Finality, TransactionHandle};
use vstd::prelude::*;

verus! {

/// How a wait ended and what it cost.
#[derive(Clone, Copy, Debug, PartialEq, Eq)]
pub struct PollReport {
    /// The result handed to the caller, or `None` where the recorded outcomes ran out
    /// before the network settled the transaction.
    pub outcome: Option<Result<TransactionHandle, ConfirmationError>>,
    /// Status queries made.
    pub queries: usize,
    /// Retry delays taken.
    pub delays: usize,
}

/// The result that a finality class gives a wait for `handle`: none while in flight.
pub open spec fn verdict(handle: TransactionHandle, class: Finality) -> Option<
    Result<TransactionHandle, ConfirmationError>,
> {
    match class {
        Finality::InFlight => None,
        Finality::Accepted => Some(Ok(handle)),
        Finality::Rejected => Some(Err(ConfirmationError::TransactionRejected)),
    }
}

/// Index of the first outcome that ends the wait, or the length of `outcomes` where
/// none does.
pub open spec fn first_verdict(outcomes: Seq<QueryOutcome>) -> nat
    decreases outcomes.len(),
{
    if outcomes.len() == 0 || outcomes[0].spec_is_terminal() {
        0
    } else {
        1 + first_verdict(outcomes.skip(1))
    }
}

/// The result of a wait whose queries come back with `outcomes`, in this order.
pub open spec fn replay_outcome(handle: TransactionHandle, outcomes: Seq<QueryOutcome>) -> Option<
    Result<TransactionHandle, ConfirmationError>,
> {
    let n = first_verdict(outcomes);
    if n < outcomes.len() {
        verdict(handle, outcomes[n as int].spec_finality())
    } else {
        None
    }
}

/// The number of queries that such a wait makes: up to and including the one that
/// settles it.
pub open spec fn replay_queries(outcomes: Seq<QueryOutcome>) -> nat {
    let n = first_verdict(outcomes);
    if n < outcomes.len() {
        n + 1
    } else {
        n
    }
}

/// The number of retry delays that such a wait takes: one after each query that did
/// not settle it.
pub open spec fn replay_delays(outcomes: Seq<QueryOutcome>) -> nat {
    first_verdict(outcomes)
}

/// `first_verdict` is in range, no outcome before it ends the wait, and the outcome at
/// it, where there is one, does.
pub proof fn lemma_first_verdict(outcomes: Seq<QueryOutcome>)
    ensures
        first_verdict(outcomes) <= outcomes.len(),
        forall|i: int| 0 <= i < first_verdict(outcomes) ==> !(#[trigger] outcomes[i]).spec_is_terminal(),
        first_verdict(outcomes) < outcomes.len() ==> outcomes[first_verdict(
            outcomes,
        ) as int].spec_is_terminal(),
    decreases outcomes.len(),
{
    if outcomes.len() == 0 || outcomes[0].spec_is_terminal() {
    } else {
        let rest = outcomes.skip(1);
        lemma_first_verdict(rest);
        assert forall|i: int| 0 <= i < first_verdict(outcomes) implies !(#[trigger] outcomes[i]).spec_is_terminal() by {
            if i > 0 {
                assert(outcomes[i] == rest[i - 1]);
            }
        }
        if first_verdict(outcomes) < outcomes.len() {
            assert(outcomes[first_verdict(outcomes) as int] == rest[first_verdict(rest) as int]);
        }
    }
}

/// An index with the three properties of `first_verdict` is `first_verdict`.
pub proof fn lemma_first_verdict_unique(outcomes: Seq<QueryOutcome>, n: nat)
    requires
        n <= outcomes.len(),
        forall|i: int| 0 <= i < n ==> !(#[trigger] outcomes[i]).spec_is_terminal(),
        n < outcomes.len() ==> outcomes[n as int].spec_is_terminal(),
    ensures
        first_verdict(outcomes) == n,
{
    lemma_first_verdict(outcomes);
    let m = first_verdict(outcomes);
    if m < n {
        assert(!outcomes[m as int].spec_is_terminal());
    } else if n < m {
        assert(!outcomes[n as int].spec_is_terminal());
    }
}

/// The state that the poller reaches from `state` when its driver reports `events` in
/// this order, or `None` where one of them does not fit the state it meets.
pub open spec fn run(state: PollState, events: Seq<PollEvent>) -> Option<PollState>
    decreases events.len(),
{
    if events.len() == 0 {
        Some(state)
    } else {
        match state.spec_step(events[0]) {
            Some(next) => run(next, events.skip(1)),
            None => None,
        }
    }
}

/// The events that a driver reports while its queries come back with `outcomes`: each
/// outcome in turn, an elapsed delay after each one that settles nothing, and nothing
/// after the one that ends the wait.
pub open spec fn driver_events(outcomes: Seq<QueryOutcome>) -> Seq<PollEvent>
    decreases outcomes.len(),
{
    if outcomes.len() == 0 {
        Seq::empty()
    } else if outcomes[0].spec_is_terminal() {
        seq![PollEvent::Query(outcomes[0])]
    } else {
        seq![PollEvent::Query(outcomes[0]), PollEvent::DelayElapsed] + driver_events(
            outcomes.skip(1),
        )
    }
}

/// The direct statement and the transition table agree. Started in `Querying` and fed
/// the events of a driver whose queries come back with `outcomes`, the poller takes
/// every event, one per query and one per delay, and ends in the state whose result
/// is `replay_outcome`: in a final state where a query came back with a terminal
/// status, and in `Querying`, ready to ask again, where none did.
pub proof fn lemma_machine_agrees_with_replay(
    handle: TransactionHandle,
    outcomes: Seq<QueryOutcome>,
)
    ensures
        driver_events(outcomes).len() == replay_queries(outcomes) + replay_delays(outcomes),
        run(PollState::Querying, driver_events(outcomes)) matches Some(end) && end.spec_outcome(
            handle,
        ) == replay_outcome(handle, outcomes) && (end.spec_is_terminal() || end
            == PollState::Querying),
    decreases outcomes.len(),
{
    let events = driver_events(outcomes);
    if outcomes.len() == 0 {
    } else if outcomes[0].spec_is_terminal() {
        assert(run(PollState::Querying.spec_step(events[0]).unwrap(), events.skip(1)) is Some);
    } else {
        let rest = outcomes.skip(1);
        lemma_machine_agrees_with_replay(handle, rest);
        lemma_first_verdict(rest);
        assert(events.skip(1).skip(1) =~= driver_events(rest));
        assert(run(PollState::Waiting, events.skip(1)) == run(PollState::Querying, driver_events(rest)));
        if first_verdict(rest) < rest.len() {
            assert(outcomes[first_verdict(outcomes) as int] == rest[first_verdict(rest) as int]);
        }
    }
}

/// Once a query has come back with a terminal status, the wait is over: whatever later
/// queries would come back with, the result, the number of queries and the number of
/// delays stay what they were.
pub proof fn lemma_verdict_is_final(
    handle: TransactionHandle,
    outcomes: Seq<QueryOutcome>,
    later: Seq<QueryOutcome>,
)
    requires
        exists|i: int| 0 <= i < outcomes.len() && (#[trigger] outcomes[i]).spec_is_terminal(),
    ensures
        replay_outcome(handle, outcomes + later) == replay_outcome(handle, outcomes),
        replay_outcome(handle, outcomes) is Some,
        replay_queries(outcomes + later) == replay_queries(outcomes),
        replay_delays(outcomes + later) == replay_delays(outcomes),
{
    lemma_first_verdict(outcomes);
    let n = first_verdict(outcomes);
    let all = outcomes + later;
    assert(n < outcomes.len());
    assert forall|i: int| 0 <= i < n implies !(#[trigger] all[i]).spec_is_terminal() by {
        assert(all[i] == outcomes[i]);
    }
    assert(all[n as int] == outcomes[n as int]);
    lemma_first_verdict_unique(all, n);
}

/// The wait ends with a result exactly where some query came back with a terminal
/// status. Statuses that are not terminal, and failed queries, never end it.
pub proof fn lemma_only_terminal_status_ends_wait(
    handle: TransactionHandle,
    outcomes: Seq<QueryOutcome>,
)
    ensures
        replay_outcome(handle, outcomes) is Some <==> exists|i: int|
            0 <= i < outcomes.len() && (#[trigger] outcomes[i]).spec_is_terminal(),
        replay_outcome(handle, outcomes) is None ==> replay_queries(outcomes) == outcomes.len()
            && replay_delays(outcomes) == outcomes.len(),
{
    lemma_first_verdict(outcomes);
}

/// Queries that failed, or that came back with a status that is not terminal, do not
/// mask what follows: when the next query comes back with a terminal status, the wait
/// ends with the result for that status, after one query more than those before it
/// and one delay for each of them.
pub proof fn lemma_failures_do_not_mask_verdict(
    handle: TransactionHandle,
    before: Seq<QueryOutcome>,
    settling: QueryOutcome,
)
    requires
        forall|i: int| 0 <= i < before.len() ==> !(#[trigger] before[i]).spec_is_terminal(),
        settling.spec_is_terminal(),
    ensures
        replay_outcome(handle, before.push(settling)) == verdict(
            handle,
            settling.spec_finality(),
        ),
        replay_outcome(handle, before.push(settling)) is Some,
        replay_queries(before.push(settling)) == before.len() + 1,
        replay_delays(before.push(settling)) == before.len(),
{
    let all = before.push(settling);
    assert forall|i: int| 0 <= i < before.len() implies !(#[trigger] all[i]).spec_is_terminal() by {
        assert(all[i] == before[i]);
    }
    assert(all[before.len() as int] == settling);
    lemma_first_verdict_unique(all, before.len());
}

/// Runs the poller for `handle` against recorded query outcomes: the first query comes
/// back with `outcomes[0]`, the next with `outcomes[1]`, and so on, and every retry
/// delay passes at once. The run stops when the poller finishes, or when it asks for a
/// query and no outcome is left.
pub fn replay(handle: TransactionHandle, outcomes: &[QueryOutcome]) -> (report: PollReport)
    ensures
        report.outcome == replay_outcome(handle, outcomes@),
        report.queries == replay_queries(outcomes@),
        report.delays == replay_delays(outcomes@),
{
    let mut poller = ConfirmationPoller::new(handle);
    let mut queries: usize = 0;
    let mut delays: usize = 0;
    loop
        invariant
            poller.handle() == handle,
            delays <= queries <= outcomes@.len(),
            forall|i: int| 0 <= i < delays ==> !(#[trigger] outcomes@[i]).spec_is_terminal(),
            poller.state() == PollState::Querying ==> queries == delays,
            poller.state() != PollState::Querying ==> queries == delays + 1 && poller.state()
                == PollState::Querying.spec_step(
                PollEvent::Query(outcomes@[delays as int]),
            ).unwrap(),
        decreases 2 * (outcomes@.len() - delays) - (queries - delays),
    {
        match poller.next_action() {
            PollAction::Finish(result) => {
                proof {
                    lemma_first_verdict_unique(outcomes@, delays as nat);
                }
                return PollReport { outcome: Some(result), queries, delays };
            },
            PollAction::Wait(_) => {
                poller.on_event(PollEvent::DelayElapsed);
                delays += 1;
            },
            PollAction::Query(_) => {
                if queries == outcomes.len() {
                    proof {
                        lemma_first_verdict_unique(outcomes@, delays as nat);
                    }
                    return PollReport { outcome: None, queries, delays };
                }
                poller.on_event(PollEvent::Query(outcomes[queries]));
                queries += 1;
            },
        }
    }
}

} // verus!
