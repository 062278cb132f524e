use vstd::prelude::*;

use crate::account::AccountId;
use crate::erc20::{Erc20, Error, LedgerView};

verus! {

/// A facade that forwards every query and operation to the ledger it holds,
/// with no rules of its own.
pub struct Caller {
    token: Erc20,
}

impl View for Caller {
    type V = LedgerView;

    closed spec fn view(&self) -> LedgerView {
        self.token@
    }
}

impl Caller {
    /// The wrapped ledger is in a consistent state.
    pub open spec fn wf(&self) -> bool {
        self@.wf()
    }

    /// A facade over `token`.
    pub fn new(token: Erc20) -> (r: Caller)
        ensures
            r@ == token@,
    {
        Caller { token }
    }

    /// The ledger's total supply.
    pub fn token_total_supply(&self) -> (r: u128)
        ensures
            r == self@.total_supply,
    {
        self.token.total_supply()
    }

    /// What `owner` holds in the ledger.
    pub fn token_balance_of(&self, owner: AccountId) -> (r: u128)
        requires
            self.wf(),
        ensures
            r == self@.balance(owner),
    {
        self.token.balance_of(owner)
    }

    /// Forwards `transfer`.
    pub fn token_transfer(&mut self, caller: AccountId, to: AccountId, value: u128) -> (r: Result<(), Error>)
        requires
            old(self).wf(),
        ensures
            final(self).wf(),
            old(self)@.transfer_post(final(self)@, caller, to, value, r),
    {
        self.token.transfer(caller, to, value)
    }

    /// Forwards `approve`.
    pub fn token_approve(&mut self, caller: AccountId, spender: AccountId, value: u128) -> (r: Result<(), Error>)
        requires
            old(self).wf(),
        ensures
            final(self).wf(),
            old(self)@.approve_post(final(self)@, caller, spender, value, r),
    {
        self.token.approve(caller, spender, value)
    }

    /// Forwards `transfer_from`.
    pub fn token_transfer_from(
        &mut self,
        caller: AccountId,
        from: AccountId,
        to: AccountId,
        value: u128,
    ) -> (r: Result<(), Error>)
        requires
            old(self).wf(),
        ensures
            final(self).wf(),
            old(self)@.transfer_from_post(final(self)@, caller, from, to, value, r),
    {
        self.token.transfer_from(caller, from, to, value)
    }

    /// What `spender` may still move out of `owner`'s balance in the ledger.
    pub fn token_allowance(&self, owner: AccountId, spender: AccountId) -> (r: u128)
        requires
            self.wf(),
        ensures
            r == self@.allowance(owner, spender),
    {
        self.token.allowance(owner, spender)
    }

    /// The facade keeps no address for the ledger it wraps: it reports the
    /// all-zero identity.
    pub fn get_token_address(&self) -> (r: AccountId)
        ensures
            forall|i: int| 0 <= i < 20 ==> r.bytes[i] == 0,
    {
        AccountId::from_bytes([0u8; 20])
    }
}

} // verus!
