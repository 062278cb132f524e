use vstd::prelude::*;

use crate::account::AccountId;
use crate::entries::{entries_total, lemma_value_at_absent, lemma_value_at_index};
use crate::erc20::{Error, LedgerView};

verus! {

/// The accounts that hold a balance entry, in the order of their entries.
pub open spec fn accounts(l: LedgerView) -> Seq<AccountId> {
    l.balances.map_values(|e: (AccountId, u128)| e.0)
}

/// The sum of the balances of `accs`.
pub open spec fn sum_balances(l: LedgerView, accs: Seq<AccountId>) -> nat
    decreases accs.len(),
{
    if accs.len() == 0 {
        0
    } else {
        sum_balances(l, accs.drop_last()) + l.balance(accs.last())
    }
}

proof fn lemma_sum_prefix(l: LedgerView, n: int)
    requires
        l.wf(),
        0 <= n <= l.balances.len(),
    ensures
        sum_balances(l, accounts(l).subrange(0, n)) == entries_total(l.balances.subrange(0, n)),
    decreases n,
{
    if n > 0 {
        let accs = accounts(l).subrange(0, n);
        let es = l.balances.subrange(0, n);
        assert(accs.drop_last() =~= accounts(l).subrange(0, n - 1));
        assert(es.drop_last() =~= l.balances.subrange(0, n - 1));
        lemma_sum_prefix(l, n - 1);
        lemma_value_at_index(l.balances, n - 1);
    }
}

/// Conservation: in every consistent state (which every operation keeps), the
/// total supply is the sum of the balances of all accounts that hold an
/// entry, and every other account holds nothing.
pub proof fn lemma_conservation(l: LedgerView)
    requires
        l.wf(),
    ensures
        l.total_supply == sum_balances(l, accounts(l)),
        forall|a: AccountId| !accounts(l).contains(a) ==> #[trigger] l.balance(a) == 0,
{
    lemma_sum_prefix(l, l.balances.len() as int);
    assert(accounts(l).subrange(0, l.balances.len() as int) =~= accounts(l));
    assert(l.balances.subrange(0, l.balances.len() as int) =~= l.balances);
    assert forall|a: AccountId| !accounts(l).contains(a) implies #[trigger] l.balance(a) == 0 by {
        if exists|i: int| 0 <= i < l.balances.len() && l.balances[i].0 == a {
            let i = choose|i: int| 0 <= i < l.balances.len() && l.balances[i].0 == a;
            assert(accounts(l)[i] == a);
        }
        lemma_value_at_absent(l.balances, a);
    }
}

/// A refused `transfer`, `transfer_from` or `burn` leaves every balance, every
/// allowance and the event log as they were.
pub proof fn lemma_failure_changes_nothing(
    before: LedgerView,
    after: LedgerView,
    caller: AccountId,
    from: AccountId,
    to: AccountId,
    value: u128,
    r: Result<(), Error>,
)
    requires
        r is Err,
        before.transfer_post(after, caller, to, value, r)
            || before.transfer_from_post(after, caller, from, to, value, r)
            || before.burn_post(after, caller, value, r),
    ensures
        forall|a: AccountId| #[trigger] after.balance(a) == before.balance(a),
        forall|o: AccountId, s: AccountId| #[trigger]
            after.allowance(o, s) == before.allowance(o, s),
        after.total_supply == before.total_supply,
        after.events == before.events,
{
}

/// A successful `transfer_from` by a spender other than the owner lowers that
/// spender's allowance from the owner by exactly the amount moved.
pub proof fn lemma_transfer_from_spends_allowance(
    before: LedgerView,
    after: LedgerView,
    spender: AccountId,
    owner: AccountId,
    to: AccountId,
    amount: u128,
    r: Result<(), Error>,
)
    requires
        spender != owner,
        r is Ok,
        before.transfer_from_post(after, spender, owner, to, amount, r),
    ensures
        after.allowance(owner, spender) + amount == before.allowance(owner, spender),
{
}

/// Two successive approvals of one pair leave the second value, not the sum.
pub proof fn lemma_approve_overwrites(
    l0: LedgerView,
    l1: LedgerView,
    l2: LedgerView,
    owner: AccountId,
    spender: AccountId,
    v1: u128,
    v2: u128,
    r1: Result<(), Error>,
    r2: Result<(), Error>,
)
    requires
        l0.approve_post(l1, owner, spender, v1, r1),
        l1.approve_post(l2, owner, spender, v2, r2),
    ensures
        l2.allowance(owner, spender) == v2,
{
}

} // verus!
