//! The outcome reporter: one terminal result per invocation.
//!
//! A run ends exactly once, either with the ordered sequence of ledger
//! events the dispatcher emitted, or with one descriptive error. The
//! outcome decides the process exit status: zero on success, non-zero on
//! any failure.

use crate::error::TransferError;
use vstd::prelude::*;

verus! {

/// One event emitted by the ledger while the transfer was dispatched,
/// carried through for the success report.
pub struct LedgerEvent {
    pub description: String,
}

impl LedgerEvent {
    pub fn new(description: String) -> (e: Self)
        ensures
            e.description@ == description@,
    {
        LedgerEvent { description }
    }
}

impl Clone for LedgerEvent {
    fn clone(&self) -> (r: Self)
        ensures
            r.description@ == self.description@,
    {
        LedgerEvent { description: self.description.clone() }
    }
}

/// The terminal result of an invocation: the emitted events in order, or
/// one error.
pub enum Outcome {
    Success { events: Vec<LedgerEvent> },
    Failure { error: TransferError },
}

impl Outcome {
    /// Fold a final result into the one terminal outcome of the run.
    pub fn conclude(result: Result<Vec<LedgerEvent>, TransferError>) -> (o: Outcome)
        ensures
            (result matches Ok(events) ==> (o matches Outcome::Success { events: reported }
                && reported == events)),
            (result matches Err(error) ==> (o matches Outcome::Failure { error: reported }
                && reported == error)),
    {
        match result {
            Ok(events) => Outcome::Success { events },
            Err(error) => Outcome::Failure { error },
        }
    }

    pub fn is_success(&self) -> (b: bool)
        ensures
            b == (self is Success),
    {
        match self {
            Outcome::Success { .. } => true,
            Outcome::Failure { .. } => false,
        }
    }

    /// The process exit status the outcome maps to: success exits zero,
    /// every failure exits non-zero.
    pub fn exit_status(&self) -> (code: i32)
        ensures
            self is Success ==> code == 0,
            self is Failure ==> code == 1,
    {
        match self {
            Outcome::Success { .. } => 0,
            Outcome::Failure { .. } => 1,
        }
    }
}

} // verus!
