use vstd::prelude::*;

use crate::ledger::{credit_result, CreditIssuer, CreditRequest};
use crate::types::{zero_address, AccountId, Balance, Error};

verus! {

/// A payment-gated minting gateway. It records an owner, a reference to the
/// asset ledger it delegates issuance to, and the current unit price. The
/// owner and the ledger reference are fixed at construction; only the unit
/// price is mutable, and only through the owner-gated setter.
pub struct Manicminter {
    owner: AccountId,
    token_contract: AccountId,
    price: Balance,
}

/// The gateway's entry points. Each operation receives the caller identity
/// and, for minting, the value attached to the invocation, as the host
/// environment hands them in; the delegated credit call goes through the
/// issuer capability the host supplies.
pub trait Minting {
    /// The recorded owner, fixed at construction.
    spec fn spec_owner(&self) -> AccountId;

    /// The recorded ledger reference, fixed at construction.
    spec fn spec_token_contract(&self) -> AccountId;

    /// The current unit price.
    spec fn spec_price(&self) -> Balance;

    /// Mints `amount` units to `caller`, provided the ledger reference is
    /// configured, the required payment does not overflow, and the attached
    /// value covers it; then delegates the credit to the issuer. Validation
    /// runs in that order and the first failing check decides the error; a
    /// request that fails validation leaves the issuer untouched, no credit
    /// call being attempted. Overpayment is accepted and not returned.
    /// Whether a fully validated request succeeds rests with the issuer
    /// alone: any outcome short of declared success is reported as
    /// `TransactionFailed`.
    fn manic_mint<I: CreditIssuer>(
        &mut self,
        issuer: &mut I,
        caller: AccountId,
        amount: Balance,
        transferred_value: Balance,
    ) -> (r: Result<(), Error>)
        ensures
            final(self).spec_owner() == old(self).spec_owner(),
            final(self).spec_token_contract() == old(self).spec_token_contract(),
            final(self).spec_price() == old(self).spec_price(),
            old(self).spec_token_contract() == 0 ==> r == Err::<(), Error>(Error::ContractNotSet),
            old(self).spec_token_contract() == 0 ==> *final(issuer) == *old(issuer),
            old(self).spec_token_contract() != 0 && old(self).spec_price() * amount > u128::MAX
                ==> r == Err::<(), Error>(Error::Overflow),
            old(self).spec_token_contract() != 0 && old(self).spec_price() * amount > u128::MAX
                ==> *final(issuer) == *old(issuer),
            old(self).spec_token_contract() != 0 && old(self).spec_price() * amount <= u128::MAX
                && transferred_value < old(self).spec_price() * amount
                ==> r == Err::<(), Error>(Error::TransactionFailed),
            old(self).spec_token_contract() != 0 && old(self).spec_price() * amount <= u128::MAX
                && transferred_value < old(self).spec_price() * amount
                ==> *final(issuer) == *old(issuer),
            old(self).spec_token_contract() != 0 && old(self).spec_price() * amount <= u128::MAX
                && transferred_value >= old(self).spec_price() * amount
                ==> (r == Ok::<(), Error>(()) || r == Err::<(), Error>(Error::TransactionFailed)),
    ;

    /// Replaces the unit price with `new_price`, any value included, when
    /// `caller` is the owner; otherwise fails with `NotOwner` and changes
    /// nothing.
    fn set_price(&mut self, caller: AccountId, new_price: Balance) -> (r: Result<(), Error>)
        ensures
            final(self).spec_owner() == old(self).spec_owner(),
            final(self).spec_token_contract() == old(self).spec_token_contract(),
            caller == old(self).spec_owner()
                ==> r == Ok::<(), Error>(()) && final(self).spec_price() == new_price,
            caller != old(self).spec_owner()
                ==> r == Err::<(), Error>(Error::NotOwner)
                    && final(self).spec_price() == old(self).spec_price(),
    ;

    /// Reads the current unit price; open to any caller, no payment, no
    /// side effect.
    fn get_price(&self) -> (r: Balance)
        ensures
            r == self.spec_price(),
    ;
}

impl Manicminter {
    /// A gateway is well formed when its owner is not the null identifier;
    /// the host guarantees a well-formed creator identity, and no operation
    /// ever reassigns the owner.
    pub open spec fn wf(&self) -> bool {
        self.spec_owner() != 0
    }

    /// Creates the gateway: the creating caller becomes the owner, the
    /// supplied account is the ledger delegated to, and the unit price
    /// starts at zero.
    pub fn new(caller: AccountId, contract_account: AccountId) -> (s: Self)
        requires
            caller != 0,
        ensures
            s.wf(),
            s.spec_owner() == caller,
            s.spec_token_contract() == contract_account,
            s.spec_price() == 0,
    {
        Self { owner: caller, token_contract: contract_account, price: 0 }
    }

    /// Runs the whole mint validation without touching the ledger: the
    /// configuration check, the overflow-checked price computation and the
    /// payment check, in that order, the first failing check deciding the
    /// error. Exactly when all three pass, it returns the credit request
    /// the gateway is then allowed to delegate.
    pub fn authorize_mint(
        &self,
        caller: AccountId,
        amount: Balance,
        transferred_value: Balance,
    ) -> (r: Result<CreditRequest, Error>)
        ensures
            self.spec_token_contract() == 0 ==> r == Err::<CreditRequest, Error>(
                Error::ContractNotSet,
            ),
            self.spec_token_contract() != 0 && self.spec_price() * amount > u128::MAX
                ==> r == Err::<CreditRequest, Error>(Error::Overflow),
            self.spec_token_contract() != 0 && self.spec_price() * amount <= u128::MAX
                && transferred_value < self.spec_price() * amount
                ==> r == Err::<CreditRequest, Error>(Error::TransactionFailed),
            self.spec_token_contract() != 0 && self.spec_price() * amount <= u128::MAX
                && transferred_value >= self.spec_price() * amount
                ==> r == Ok::<CreditRequest, Error>(
                    (CreditRequest { recipient: caller, amount: amount }),
                ),
    {
        if self.token_contract == zero_address() {
            return Err(Error::ContractNotSet);
        }

        match self.price.checked_mul(amount) {
            Some(value) => {
                if transferred_value < value {
                    return Err(Error::TransactionFailed);
                }
            }
            None => {
                return Err(Error::Overflow);
            }
        }

        Ok(CreditRequest { recipient: caller, amount: amount })
    }
}

impl Minting for Manicminter {
    closed spec fn spec_owner(&self) -> AccountId {
        self.owner
    }

    closed spec fn spec_token_contract(&self) -> AccountId {
        self.token_contract
    }

    closed spec fn spec_price(&self) -> Balance {
        self.price
    }

    fn manic_mint<I: CreditIssuer>(
        &mut self,
        issuer: &mut I,
        caller: AccountId,
        amount: Balance,
        transferred_value: Balance,
    ) -> (r: Result<(), Error>) {
        match self.authorize_mint(caller, amount, transferred_value) {
            Ok(request) => {
                let outcome = issuer.credit(request.recipient, request.amount);
                credit_result(outcome)
            }
            Err(e) => Err(e),
        }
    }

    fn set_price(&mut self, caller: AccountId, new_price: Balance) -> (r: Result<(), Error>) {
        if caller != self.owner {
            return Err(Error::NotOwner);
        }
        self.price = new_price;
        Ok(())
    }

    fn get_price(&self) -> (r: Balance) {
        self.price
    }
}

} // verus!
