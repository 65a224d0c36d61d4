//! A submitted transaction: the handle that names it and the statuses that the
//! network reports for it.

use crate::felt::Felt;
use vstd::prelude::*;

verus! {

/// Names a submitted transaction by its hash. It is the only key of the status queries
/// that follow the submission, and a plain value: copy it freely.
#[derive(Clone, Copy, Debug, PartialEq, Eq)]
pub struct TransactionHandle {
    /// The transaction's hash.
    pub hash: Felt,
}

impl TransactionHandle {
    /// The handle of the transaction with this hash.
    pub fn new(hash: Felt) -> (handle: TransactionHandle)
        ensures
            handle.hash == hash,
    {
        TransactionHandle { hash }
    }
}

/// Status of a transaction as the network reports it.
#[derive(Clone, Copy, Debug, PartialEq, Eq, Structural)]
pub enum TransactionStatus {
    /// The network has not seen the transaction yet.
    NotReceived,
    /// The sequencer has received the transaction.
    Received,
    /// The transaction sits in the pending block.
    Pending,
    /// The transaction is part of a created block.
    AcceptedOnL2,
    /// The transaction is settled on the base layer.
    AcceptedOnL1,
    /// The network refused the transaction.
    Rejected,
}

/// What a status means for somebody who waits for finality.
#[derive(Clone, Copy, Debug, PartialEq, Eq, Structural)]
pub enum Finality {
    /// No decision yet: ask again later.
    InFlight,
    /// The transaction was accepted; no further change is expected.
    Accepted,
    /// The transaction was refused; no further change is expected.
    Rejected,
}

impl TransactionStatus {
    /// The finality class of a status.
    pub open spec fn spec_finality(self) -> Finality {
        match self {
            TransactionStatus::NotReceived
            | TransactionStatus::Received
            | TransactionStatus::Pending => Finality::InFlight,
            TransactionStatus::AcceptedOnL2 | TransactionStatus::AcceptedOnL1 => Finality::Accepted,
            TransactionStatus::Rejected => Finality::Rejected,
        }
    }

    /// A status is terminal when no further change is expected after it.
    pub open spec fn spec_is_terminal(self) -> bool {
        self.spec_finality() != Finality::InFlight
    }

    /// Classifies the status as in flight, accepted or rejected.
    #[verifier::when_used_as_spec(spec_finality)]
    pub fn finality(self) -> (class: Finality)
        ensures
            class == self.spec_finality(),
    {
        match self {
            TransactionStatus::NotReceived => Finality::InFlight,
            TransactionStatus::Received => Finality::InFlight,
            TransactionStatus::Pending => Finality::InFlight,
            TransactionStatus::AcceptedOnL2 => Finality::Accepted,
            TransactionStatus::AcceptedOnL1 => Finality::Accepted,
            TransactionStatus::Rejected => Finality::Rejected,
        }
    }

    /// Whether the status settles the transaction, as accepted or as rejected.
    #[verifier::when_used_as_spec(spec_is_terminal)]
    pub fn is_terminal(self) -> (terminal: bool)
        ensures
            terminal == self.spec_is_terminal(),
            terminal <==> (self == TransactionStatus::AcceptedOnL2 || self
                == TransactionStatus::AcceptedOnL1 || self == TransactionStatus::Rejected),
    {
        match self.finality() {
            Finality::InFlight => false,
            _ => true,
        }
    }
}

} // verus!
