use vstd::prelude::*;

use crate::account::AccountId;
use crate::entries::{
    entries_total, find_account, find_pair, keys_unique, lemma_value_at_absent,
    lemma_value_at_index, lemma_value_le_total, store, value_at,
};

verus! {

/// Why an operation on the ledger was refused.
#[derive(Clone, Copy, Debug, PartialEq, Eq, Structural)]
pub enum Error {
    /// The source account holds less than the amount to move.
    InsufficientBalance,
    /// The spender's remaining allowance is less than the amount to move.
    InsufficientAllowance,
    /// A sum would not fit in the amount type.
    ArithmeticOverflow,
}

/// A movement of value. Issuance has no source; burning has no destination.
#[derive(Clone, Copy, Debug, PartialEq, Eq)]
pub struct Transfer {
    pub from: Option<AccountId>,
    pub to: Option<AccountId>,
    pub value: u128,
}

/// `owner` has set what `spender` may still move out of its balance.
#[derive(Clone, Copy, Debug, PartialEq, Eq)]
pub struct Approval {
    pub owner: AccountId,
    pub spender: AccountId,
    pub value: u128,
}

/// One entry of the ledger's event log.
#[derive(Clone, Copy, Debug, PartialEq, Eq)]
pub enum Event {
    Transfer(Transfer),
    Approval(Approval),
}

/// The transfer event with the given fields.
pub open spec fn transfer_event(from: Option<AccountId>, to: Option<AccountId>, value: u128) -> Event {
    Event::Transfer(Transfer { from, to, value })
}

/// The approval event with the given fields.
pub open spec fn approval_event(owner: AccountId, spender: AccountId, value: u128) -> Event {
    Event::Approval(Approval { owner, spender, value })
}

/// The abstract state of a ledger: total supply, the materialized balance and
/// allowance entries, and the event log.
pub struct LedgerView {
    pub total_supply: nat,
    pub balances: Seq<(AccountId, u128)>,
    pub allowances: Seq<((AccountId, AccountId), u128)>,
    pub events: Seq<Event>,
}

impl LedgerView {
    /// What `a` holds; zero for an account without an entry.
    pub open spec fn balance(self, a: AccountId) -> nat {
        value_at(self.balances, a)
    }

    /// What `spender` may still move out of `owner`'s balance; zero by default.
    pub open spec fn allowance(self, owner: AccountId, spender: AccountId) -> nat {
        value_at(self.allowances, (owner, spender))
    }

    /// Each account and each pair has at most one entry, and the total supply
    /// is the sum of all balances.
    pub open spec fn wf(self) -> bool {
        &&& keys_unique(self.balances)
        &&& keys_unique(self.allowances)
        &&& self.total_supply == entries_total(self.balances)
        &&& self.total_supply <= u128::MAX
    }

    /// Every balance is kept.
    pub open spec fn same_balances(self, after: LedgerView) -> bool {
        forall|a: AccountId| #[trigger] after.balance(a) == self.balance(a)
    }

    /// Every allowance is kept.
    pub open spec fn same_allowances(self, after: LedgerView) -> bool {
        forall|o: AccountId, s: AccountId| #[trigger] after.allowance(o, s) == self.allowance(o, s)
    }

    /// Every balance but those of `from` and `to` is kept; `value` leaves `from`
    /// and arrives at `to`.
    pub open spec fn moved(self, after: LedgerView, from: AccountId, to: AccountId, value: nat) -> bool {
        forall|a: AccountId| #[trigger]
            after.balance(a) == if a == from && a == to {
                self.balance(a) as int
            } else if a == from {
                self.balance(a) - value
            } else if a == to {
                (self.balance(a) + value) as int
            } else {
                self.balance(a) as int
            }
    }

    /// Every allowance but that of `(owner, spender)` is kept, which becomes `value`.
    pub open spec fn allowance_set(
        self,
        after: LedgerView,
        owner: AccountId,
        spender: AccountId,
        value: nat,
    ) -> bool {
        forall|o: AccountId, s: AccountId| #[trigger]
            after.allowance(o, s) == if o == owner && s == spender {
                value
            } else {
                self.allowance(o, s)
            }
    }

    /// The effect of a successful move of `value` from `from` to `to`: the
    /// balances move, supply and allowances stay, one transfer event is logged.
    pub open spec fn transferred(self, after: LedgerView, from: AccountId, to: AccountId, value: u128) -> bool {
        &&& self.moved(after, from, to, value as nat)
        &&& after.total_supply == self.total_supply
        &&& self.same_allowances(after)
        &&& after.events == self.events.push(transfer_event(Some(from), Some(to), value))
    }

    /// Outcome of `transfer(caller, to, value)`: it succeeds exactly when
    /// `caller` holds at least `value`; a refusal changes nothing.
    pub open spec fn transfer_post(
        self,
        after: LedgerView,
        caller: AccountId,
        to: AccountId,
        value: u128,
        r: Result<(), Error>,
    ) -> bool {
        if self.balance(caller) < value {
            r == Err::<(), Error>(Error::InsufficientBalance) && after == self
        } else {
            r == Ok::<(), Error>(()) && self.transferred(after, caller, to, value)
        }
    }

    /// Outcome of `approve(caller, spender, value)`: the allowance of
    /// `(caller, spender)` is overwritten with `value` and the approval logged.
    pub open spec fn approve_post(
        self,
        after: LedgerView,
        caller: AccountId,
        spender: AccountId,
        value: u128,
        r: Result<(), Error>,
    ) -> bool {
        &&& r == Ok::<(), Error>(())
        &&& self.allowance_set(after, caller, spender, value as nat)
        &&& self.same_balances(after)
        &&& after.total_supply == self.total_supply
        &&& after.events == self.events.push(approval_event(caller, spender, value))
    }

    /// Outcome of `transfer_from(caller, from, to, value)`. Unless `caller` is
    /// `from`, it needs an allowance of at least `value`, which it spends; then
    /// `from` must hold at least `value`. A refusal changes nothing.
    pub open spec fn transfer_from_post(
        self,
        after: LedgerView,
        caller: AccountId,
        from: AccountId,
        to: AccountId,
        value: u128,
        r: Result<(), Error>,
    ) -> bool {
        if caller != from && self.allowance(from, caller) < value {
            r == Err::<(), Error>(Error::InsufficientAllowance) && after == self
        } else if self.balance(from) < value {
            r == Err::<(), Error>(Error::InsufficientBalance) && after == self
        } else {
            &&& r == Ok::<(), Error>(())
            &&& self.moved(after, from, to, value as nat)
            &&& after.total_supply == self.total_supply
            &&& after.events == self.events.push(transfer_event(Some(from), Some(to), value))
            &&& if caller != from {
                self.allowance_set(after, from, caller, (self.allowance(from, caller) - value) as nat)
            } else {
                self.same_allowances(after)
            }
        }
    }

    /// Outcome of `increase_allowance(caller, spender, delta)`: a no-op for
    /// oneself or a zero delta, refused where the sum would overflow, else the
    /// allowance grows by `delta` and the new value is logged.
    pub open spec fn increase_allowance_post(
        self,
        after: LedgerView,
        caller: AccountId,
        spender: AccountId,
        delta: u128,
        r: Result<(), Error>,
    ) -> bool {
        let v = self.allowance(caller, spender) + delta;
        if caller == spender || delta == 0 {
            r == Ok::<(), Error>(()) && after == self
        } else if v > u128::MAX {
            r == Err::<(), Error>(Error::ArithmeticOverflow) && after == self
        } else {
            &&& r == Ok::<(), Error>(())
            &&& self.allowance_set(after, caller, spender, v as nat)
            &&& self.same_balances(after)
            &&& after.total_supply == self.total_supply
            &&& after.events == self.events.push(approval_event(caller, spender, v as u128))
        }
    }

    /// Outcome of `decrease_allowance(caller, spender, delta)`: a no-op for
    /// oneself or a zero delta, refused where the allowance is below `delta`,
    /// else the allowance shrinks by `delta` and the new value is logged.
    pub open spec fn decrease_allowance_post(
        self,
        after: LedgerView,
        caller: AccountId,
        spender: AccountId,
        delta: u128,
        r: Result<(), Error>,
    ) -> bool {
        let v = self.allowance(caller, spender) - delta;
        if caller == spender || delta == 0 {
            r == Ok::<(), Error>(()) && after == self
        } else if v < 0 {
            r == Err::<(), Error>(Error::InsufficientAllowance) && after == self
        } else {
            &&& r == Ok::<(), Error>(())
            &&& self.allowance_set(after, caller, spender, v as nat)
            &&& self.same_balances(after)
            &&& after.total_supply == self.total_supply
            &&& after.events == self.events.push(approval_event(caller, spender, v as u128))
        }
    }

    /// Outcome of `mint(caller, amount)`: a no-op for zero, refused where the
    /// supply would overflow, else supply and `caller`'s balance grow by
    /// `amount` and an issuance is logged.
    pub open spec fn mint_post(self, after: LedgerView, caller: AccountId, amount: u128, r: Result<(), Error>) -> bool {
        if amount == 0 {
            r == Ok::<(), Error>(()) && after == self
        } else if self.total_supply + amount > u128::MAX {
            r == Err::<(), Error>(Error::ArithmeticOverflow) && after == self
        } else {
            &&& r == Ok::<(), Error>(())
            &&& after.total_supply == self.total_supply + amount
            &&& forall|a: AccountId| #[trigger]
                after.balance(a) == if a == caller {
                    (self.balance(a) + amount) as nat
                } else {
                    self.balance(a)
                }
            &&& self.same_allowances(after)
            &&& after.events == self.events.push(transfer_event(None, Some(caller), amount))
        }
    }

    /// Outcome of `burn(caller, amount)`: a no-op for zero, refused where
    /// `caller` holds less, else supply and `caller`'s balance shrink by
    /// `amount` and the burn is logged.
    pub open spec fn burn_post(self, after: LedgerView, caller: AccountId, amount: u128, r: Result<(), Error>) -> bool {
        if amount == 0 {
            r == Ok::<(), Error>(()) && after == self
        } else if self.balance(caller) < amount {
            r == Err::<(), Error>(Error::InsufficientBalance) && after == self
        } else {
            &&& r == Ok::<(), Error>(())
            &&& after.total_supply == self.total_supply - amount
            &&& forall|a: AccountId| #[trigger]
                after.balance(a) == if a == caller {
                    self.balance(a) - amount
                } else {
                    self.balance(a) as int
                }
            &&& self.same_allowances(after)
            &&& after.events == self.events.push(transfer_event(Some(caller), None, amount))
        }
    }
}

/// A ledger of balances and allowances with its event log.
pub struct Erc20 {
    total_supply: u128,
    balances: Vec<(AccountId, u128)>,
    allowances: Vec<((AccountId, AccountId), u128)>,
    events: Vec<Event>,
}

impl View for Erc20 {
    type V = LedgerView;

    closed spec fn view(&self) -> LedgerView {
        LedgerView {
            total_supply: self.total_supply as nat,
            balances: self.balances@,
            allowances: self.allowances@,
            events: self.events@,
        }
    }
}

impl Default for Erc20 {
    /// An empty ledger: no supply, no entries, no events.
    fn default() -> (r: Erc20)
        ensures
            r.wf(),
            r@.total_supply == 0,
            forall|a: AccountId| #[trigger] r@.balance(a) == 0,
            forall|o: AccountId, s: AccountId| #[trigger] r@.allowance(o, s) == 0,
            r@.events.len() == 0,
    {
        Erc20 { total_supply: 0, balances: Vec::new(), allowances: Vec::new(), events: Vec::new() }
    }
}

impl Erc20 {
    /// The ledger is in a consistent state.
    pub open spec fn wf(&self) -> bool {
        self@.wf()
    }

    /// A ledger whose whole supply `total_supply` belongs to `caller`; its log
    /// holds the issuance.
    pub fn new(caller: AccountId, total_supply: u128) -> (r: Erc20)
        ensures
            r.wf(),
            r@.total_supply == total_supply,
            forall|a: AccountId| #[trigger]
                r@.balance(a) == if a == caller {
                    total_supply as nat
                } else {
                    0
                },
            forall|o: AccountId, s: AccountId| #[trigger] r@.allowance(o, s) == 0,
            r@.events == seq![transfer_event(None, Some(caller), total_supply)],
    {
        let mut balances: Vec<(AccountId, u128)> = Vec::new();
        store(&mut balances, None, caller, total_supply);
        let mut events: Vec<Event> = Vec::new();
        events.push(Event::Transfer(Transfer { from: None, to: Some(caller), value: total_supply }));
        let r = Erc20 { total_supply, balances, allowances: Vec::new(), events };
        proof {
            assert(r.events@ =~= seq![transfer_event(None, Some(caller), total_supply)]);
        }
        r
    }

    /// The total supply.
    pub fn total_supply(&self) -> (r: u128)
        ensures
            r == self@.total_supply,
    {
        self.total_supply
    }

    /// What `owner` holds; zero for an unknown account.
    pub fn balance_of(&self, owner: AccountId) -> (r: u128)
        requires
            self.wf(),
        ensures
            r == self@.balance(owner),
    {
        self.balance_of_impl(&owner)
    }

    fn balance_of_impl(&self, owner: &AccountId) -> (r: u128)
        requires
            keys_unique(self@.balances),
        ensures
            r == self@.balance(*owner),
    {
        match find_account(&self.balances, owner) {
            Some(i) => {
                proof {
                    lemma_value_at_index(self.balances@, i as int);
                }
                self.balances[i].1
            },
            None => {
                proof {
                    lemma_value_at_absent(self.balances@, *owner);
                }
                0
            },
        }
    }

    /// What `spender` may still move out of `owner`'s balance; zero by default.
    pub fn allowance(&self, owner: AccountId, spender: AccountId) -> (r: u128)
        requires
            self.wf(),
        ensures
            r == self@.allowance(owner, spender),
    {
        self.allowance_impl(&owner, &spender)
    }

    fn allowance_impl(&self, owner: &AccountId, spender: &AccountId) -> (r: u128)
        requires
            keys_unique(self@.allowances),
        ensures
            r == self@.allowance(*owner, *spender),
    {
        match find_pair(&self.allowances, owner, spender) {
            Some(i) => {
                proof {
                    lemma_value_at_index(self.allowances@, i as int);
                }
                self.allowances[i].1
            },
            None => {
                proof {
                    lemma_value_at_absent(self.allowances@, (*owner, *spender));
                }
                0
            },
        }
    }

    /// The event log, oldest first.
    pub fn events(&self) -> (r: &Vec<Event>)
        ensures
            r@ == self@.events,
    {
        &self.events
    }

    /// `caller` moves `value` of its own balance to `to`. A zero amount or a
    /// transfer to oneself gets no shortcut: the balance check applies and the
    /// transfer is logged like any other.
    pub fn transfer(&mut self, caller: AccountId, to: AccountId, value: u128) -> (r: Result<(), Error>)
        requires
            old(self).wf(),
        ensures
            final(self).wf(),
            old(self)@.transfer_post(final(self)@, caller, to, value, r),
    {
        self.transfer_from_to(&caller, &to, value)
    }

    /// Overwrites the allowance of `(owner, spender)`; nothing is logged.
    fn set_allowance(&mut self, owner: &AccountId, spender: &AccountId, value: u128)
        requires
            old(self).wf(),
        ensures
            final(self).wf(),
            old(self)@.allowance_set(final(self)@, *owner, *spender, value as nat),
            final(self)@.balances == old(self)@.balances,
            final(self)@.total_supply == old(self)@.total_supply,
            final(self)@.events == old(self)@.events,
    {
        let pos = find_pair(&self.allowances, owner, spender);
        store(&mut self.allowances, pos, (*owner, *spender), value);
    }

    /// Overwrites the allowance of `(owner, spender)` and logs the approval.
    fn approve_impl(&mut self, owner: AccountId, spender: AccountId, value: u128)
        requires
            old(self).wf(),
        ensures
            final(self).wf(),
            old(self)@.allowance_set(final(self)@, owner, spender, value as nat),
            final(self)@.balances == old(self)@.balances,
            final(self)@.total_supply == old(self)@.total_supply,
            final(self)@.events == old(self)@.events.push(approval_event(owner, spender, value)),
    {
        self.set_allowance(&owner, &spender, value);
        let ghost mid = self@;
        self.events.push(Event::Approval(Approval { owner, spender, value }));
        proof {
            assert forall|o: AccountId, s: AccountId| #[trigger]
                self@.allowance(o, s) == mid.allowance(o, s) by {}
        }
    }

    /// `caller` lets `spender` move up to `value` out of its balance, replacing
    /// any earlier allowance (it does not add to it). Changing a nonzero
    /// allowance this way races with a spender who spends the old one first;
    /// `increase_allowance` and `decrease_allowance` adjust it safely.
    pub fn approve(&mut self, caller: AccountId, spender: AccountId, value: u128) -> (r: Result<(), Error>)
        requires
            old(self).wf(),
        ensures
            final(self).wf(),
            old(self)@.approve_post(final(self)@, caller, spender, value, r),
    {
        self.approve_impl(caller, spender, value);
        Ok(())
    }

    /// `caller` moves `value` from `from` to `to`, spending its allowance from
    /// `from` unless it is `from` itself. All or nothing.
    pub fn transfer_from(&mut self, caller: AccountId, from: AccountId, to: AccountId, value: u128) -> (r: Result<(), Error>)
        requires
            old(self).wf(),
        ensures
            final(self).wf(),
            old(self)@.transfer_from_post(final(self)@, caller, from, to, value, r),
    {
        if caller == from {
            return self.transfer_from_to(&from, &to, value);
        }
        let allowance = self.allowance_impl(&from, &caller);
        if allowance < value {
            return Err(Error::InsufficientAllowance);
        }
        match self.transfer_from_to(&from, &to, value) {
            Ok(()) => {},
            Err(e) => {
                return Err(e);
            },
        }
        let ghost mid = self@;
        self.set_allowance(&from, &caller, allowance - value);
        proof {
            assert forall|a: AccountId| #[trigger] self@.balance(a) == mid.balance(a) by {}
        }
        Ok(())
    }

    /// `caller` raises what `spender` may move out of its balance by `delta`.
    pub fn increase_allowance(&mut self, caller: AccountId, spender: AccountId, delta: u128) -> (r: Result<(), Error>)
        requires
            old(self).wf(),
        ensures
            final(self).wf(),
            old(self)@.increase_allowance_post(final(self)@, caller, spender, delta, r),
    {
        if caller == spender || delta == 0 {
            return Ok(());
        }
        let current = self.allowance_impl(&caller, &spender);
        match current.checked_add(delta) {
            None => Err(Error::ArithmeticOverflow),
            Some(value) => {
                self.approve_impl(caller, spender, value);
                Ok(())
            },
        }
    }

    /// `caller` lowers what `spender` may move out of its balance by `delta`.
    pub fn decrease_allowance(&mut self, caller: AccountId, spender: AccountId, delta: u128) -> (r: Result<(), Error>)
        requires
            old(self).wf(),
        ensures
            final(self).wf(),
            old(self)@.decrease_allowance_post(final(self)@, caller, spender, delta, r),
    {
        if caller == spender || delta == 0 {
            return Ok(());
        }
        let current = self.allowance_impl(&caller, &spender);
        match current.checked_sub(delta) {
            None => Err(Error::InsufficientAllowance),
            Some(value) => {
                self.approve_impl(caller, spender, value);
                Ok(())
            },
        }
    }

    /// Issues `amount` new units to `caller`.
    pub fn mint(&mut self, caller: AccountId, amount: u128) -> (r: Result<(), Error>)
        requires
            old(self).wf(),
        ensures
            final(self).wf(),
            old(self)@.mint_post(final(self)@, caller, amount, r),
    {
        if amount == 0 {
            return Ok(());
        }
        let total = match self.total_supply.checked_add(amount) {
            None => {
                return Err(Error::ArithmeticOverflow);
            },
            Some(t) => t,
        };
        proof {
            lemma_value_le_total(self.balances@, caller);
        }
        let balance = self.balance_of_impl(&caller);
        let pos = find_account(&self.balances, &caller);
        store(&mut self.balances, pos, caller, balance + amount);
        self.total_supply = total;
        self.events.push(Event::Transfer(Transfer { from: None, to: Some(caller), value: amount }));
        Ok(())
    }

    /// Destroys `amount` units of `caller`'s balance.
    pub fn burn(&mut self, caller: AccountId, amount: u128) -> (r: Result<(), Error>)
        requires
            old(self).wf(),
        ensures
            final(self).wf(),
            old(self)@.burn_post(final(self)@, caller, amount, r),
    {
        if amount == 0 {
            return Ok(());
        }
        let balance = self.balance_of_impl(&caller);
        if balance < amount {
            return Err(Error::InsufficientBalance);
        }
        proof {
            lemma_value_le_total(self.balances@, caller);
        }
        let pos = find_account(&self.balances, &caller);
        store(&mut self.balances, pos, caller, balance - amount);
        self.total_supply = self.total_supply - amount;
        self.events.push(Event::Transfer(Transfer { from: Some(caller), to: None, value: amount }));
        Ok(())
    }

    /// Moves `value` from `from` to `to` and logs it, or refuses when `from`
    /// holds less.
    fn transfer_from_to(&mut self, from: &AccountId, to: &AccountId, value: u128) -> (r: Result<(), Error>)
        requires
            old(self).wf(),
        ensures
            final(self).wf(),
            old(self)@.transfer_post(final(self)@, *from, *to, value, r),
    {
        let from_balance = self.balance_of_impl(from);
        if from_balance < value {
            return Err(Error::InsufficientBalance);
        }
        let pos = find_account(&self.balances, from);
        store(&mut self.balances, pos, *from, from_balance - value);
        proof {
            lemma_value_le_total(self.balances@, *to);
        }
        let to_balance = self.balance_of_impl(to);
        let pos = find_account(&self.balances, to);
        store(&mut self.balances, pos, *to, to_balance + value);
        self.events.push(Event::Transfer(Transfer { from: Some(*from), to: Some(*to), value }));
        Ok(())
    }
}

} // verus!
