use vstd::prelude::*;

verus! {

/// Identity of an account on the host ledger, reduced to what the gateway
/// reads from one: a value that can be compared for equality, with zero
/// reserved as the null identifier.
pub type AccountId = u128;

/// An amount denominated in the host ledger's native value unit.
pub type Balance = u128;

/// The reserved null account identifier. A gateway whose ledger reference
/// equals this identifier permits no minting.
pub fn zero_address() -> (r: AccountId)
    ensures
        r == 0,
{
    0
}

/// Every failure a gateway operation can report. All are terminal: the
/// caller receives the error and no state change survives the call.
#[derive(Clone, Copy, Debug, PartialEq, Eq, Structural)]
pub enum Error {
    /// Declared in the taxonomy but produced by no validation path; kept as
    /// a reserved kind.
    BadMintValue,
    /// The ledger reference is the null identifier, so minting is blocked.
    ContractNotSet,
    /// An owner-gated operation was invoked by an account other than the owner.
    NotOwner,
    /// The required payment, unit price times amount, exceeds the native
    /// integer range.
    Overflow,
    /// The attached payment was insufficient, or the delegated credit call
    /// failed; the two causes are deliberately indistinguishable.
    TransactionFailed,
}

} // verus!
