use vstd::prelude::*;

use crate::types::{AccountId, Balance, Error};

verus! {

/// Outcome of one delegated credit call, as the gateway observes it: the
/// dispatch layer may fail to deliver the call, the ledger may decline it,
/// or the ledger completes it.
#[derive(Clone, Copy, Debug, PartialEq, Eq, Structural)]
pub enum CreditOutcome {
    /// The ledger declared success.
    Completed,
    /// The call reached the ledger and the ledger declared failure.
    Declined,
    /// The call never completed at the dispatch layer.
    DispatchFailed,
}

/// A fully validated mint request: exactly the credit the gateway will
/// delegate to the ledger, the caller as recipient and the amount asked for.
#[derive(Clone, Copy, Debug, PartialEq, Eq, Structural)]
pub struct CreditRequest {
    pub recipient: AccountId,
    pub amount: Balance,
}

/// The one capability the gateway consumes from the asset ledger: credit
/// `recipient` with `amount` units, all or nothing. The host's dispatch and
/// the ledger's own issuance rules decide the outcome, so nothing is promised
/// of the result; the gateway states what it does with every outcome.
pub trait CreditIssuer {
    fn credit(&mut self, recipient: AccountId, amount: Balance) -> CreditOutcome;
}

/// How a gateway reads a delegated credit outcome: only a completed call is
/// success, and both failure causes collapse into one observable error.
pub open spec fn spec_credit_result(outcome: CreditOutcome) -> Result<(), Error> {
    match outcome {
        CreditOutcome::Completed => Ok(()),
        CreditOutcome::Declined => Err(Error::TransactionFailed),
        CreditOutcome::DispatchFailed => Err(Error::TransactionFailed),
    }
}

/// Maps a delegated credit outcome to the result the gateway reports.
pub fn credit_result(outcome: CreditOutcome) -> (r: Result<(), Error>)
    ensures
        r == spec_credit_result(outcome),
{
    match outcome {
        CreditOutcome::Completed => Ok(()),
        CreditOutcome::Declined => Err(Error::TransactionFailed),
        CreditOutcome::DispatchFailed => Err(Error::TransactionFailed),
    }
}

} // verus!
