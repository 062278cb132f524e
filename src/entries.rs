use vstd::prelude::*;

use crate::account::AccountId;

verus! {

/// The amount stored under `k` in a list of entries, zero where `k` has no entry.
pub open spec fn value_at<K>(s: Seq<(K, u128)>, k: K) -> nat
    decreases s.len(),
{
    if s.len() == 0 {
        0
    } else if s.last().0 == k {
        s.last().1 as nat
    } else {
        value_at(s.drop_last(), k)
    }
}

/// No key has two entries.
pub open spec fn keys_unique<K>(s: Seq<(K, u128)>) -> bool {
    forall|i: int, j: int| 0 <= i < j < s.len() ==> s[i].0 != s[j].0
}

/// `k` has an entry.
pub open spec fn has_key<K>(s: Seq<(K, u128)>, k: K) -> bool {
    exists|i: int| 0 <= i < s.len() && s[i].0 == k
}

/// The sum of all amounts stored in a list of entries.
pub open spec fn entries_total<K>(s: Seq<(K, u128)>) -> nat
    decreases s.len(),
{
    if s.len() == 0 {
        0
    } else {
        entries_total(s.drop_last()) + s.last().1 as nat
    }
}

/// The amount of an entry is what `value_at` reads for its key.
pub proof fn lemma_value_at_index<K>(s: Seq<(K, u128)>, i: int)
    requires
        keys_unique(s),
        0 <= i < s.len(),
    ensures
        value_at(s, s[i].0) == s[i].1 as nat,
    decreases s.len(),
{
    if i < s.len() - 1 {
        assert(s.drop_last()[i] == s[i]);
        lemma_value_at_index(s.drop_last(), i);
    }
}

/// A key without an entry reads as zero.
pub proof fn lemma_value_at_absent<K>(s: Seq<(K, u128)>, k: K)
    requires
        !has_key(s, k),
    ensures
        value_at(s, k) == 0,
    decreases s.len(),
{
    if s.len() > 0 {
        assert(!has_key(s.drop_last(), k)) by {
            if has_key(s.drop_last(), k) {
                let i = choose|i: int| 0 <= i < s.len() - 1 && s.drop_last()[i].0 == k;
                assert(s[i].0 == k);
            }
        }
        lemma_value_at_absent(s.drop_last(), k);
    }
}

/// Replacing the amount of one entry changes what its key reads and the sum, nothing else.
pub proof fn lemma_update<K>(s: Seq<(K, u128)>, i: int, v: u128)
    requires
        keys_unique(s),
        0 <= i < s.len(),
    ensures
        keys_unique(s.update(i, (s[i].0, v))),
        forall|k: K| #[trigger]
            value_at(s.update(i, (s[i].0, v)), k) == if k == s[i].0 {
                v as nat
            } else {
                value_at(s, k)
            },
        entries_total(s.update(i, (s[i].0, v))) + s[i].1 == entries_total(s) + v,
    decreases s.len(),
{
    let t = s.update(i, (s[i].0, v));
    assert(t.len() == s.len());
    assert(keys_unique(t)) by {
        assert forall|a: int, b: int| 0 <= a < b < t.len() implies t[a].0 != t[b].0 by {
            assert(t[a].0 == s[a].0 && t[b].0 == s[b].0);
        }
    }
    if i == s.len() - 1 {
        assert(t.drop_last() =~= s.drop_last());
        assert forall|k: K| #[trigger] value_at(t, k) == if k == s[i].0 {
            v as nat
        } else {
            value_at(s, k)
        } by {
        }
    } else {
        let d = s.drop_last();
        assert(d[i] == s[i]);
        assert(t.drop_last() =~= d.update(i, (d[i].0, v)));
        lemma_update(d, i, v);
        assert forall|k: K| #[trigger] value_at(t, k) == if k == s[i].0 {
            v as nat
        } else {
            value_at(s, k)
        } by {
            assert(t.last() == s.last());
            assert(s.last().0 != s[i].0);
            assert(value_at(t.drop_last(), k) == if k == s[i].0 {
                v as nat
            } else {
                value_at(d, k)
            });
        }
    }
}

/// Appending an entry for a key without one.
pub proof fn lemma_push<K>(s: Seq<(K, u128)>, k: K, v: u128)
    requires
        keys_unique(s),
        !has_key(s, k),
    ensures
        keys_unique(s.push((k, v))),
        forall|q: K| #[trigger]
            value_at(s.push((k, v)), q) == if q == k {
                v as nat
            } else {
                value_at(s, q)
            },
        entries_total(s.push((k, v))) == entries_total(s) + v,
{
    let t = s.push((k, v));
    assert(t.drop_last() =~= s);
    assert(keys_unique(t)) by {
        assert forall|a: int, b: int| 0 <= a < b < t.len() implies t[a].0 != t[b].0 by {
            if b == s.len() {
                assert(s[a].0 != k);
            }
        }
    }
}

/// No single amount exceeds the sum of all amounts.
pub proof fn lemma_value_le_total<K>(s: Seq<(K, u128)>, k: K)
    ensures
        value_at(s, k) <= entries_total(s),
    decreases s.len(),
{
    if s.len() > 0 {
        lemma_value_le_total(s.drop_last(), k);
    }
}

/// Where the entry of `a` stands, if it has one.
pub(crate) fn find_account(s: &Vec<(AccountId, u128)>, a: &AccountId) -> (r: Option<usize>)
    ensures
        match r {
            Some(i) => i < s@.len() && s@[i as int].0 == *a,
            None => !has_key(s@, *a),
        },
{
    let mut i: usize = 0;
    while i < s.len()
        invariant
            i <= s@.len(),
            forall|j: int| 0 <= j < i ==> s@[j].0 != *a,
        decreases s@.len() - i,
    {
        if s[i].0 == *a {
            return Some(i);
        }
        i = i + 1;
    }
    None
}

/// Where the entry of the pair `(owner, spender)` stands, if it has one.
pub(crate) fn find_pair(
    s: &Vec<((AccountId, AccountId), u128)>,
    owner: &AccountId,
    spender: &AccountId,
) -> (r: Option<usize>)
    ensures
        match r {
            Some(i) => i < s@.len() && s@[i as int].0 == (*owner, *spender),
            None => !has_key(s@, (*owner, *spender)),
        },
{
    let mut i: usize = 0;
    while i < s.len()
        invariant
            i <= s@.len(),
            forall|j: int| 0 <= j < i ==> s@[j].0 != (*owner, *spender),
        decreases s@.len() - i,
    {
        let key = &s[i].0;
        if key.0 == *owner && key.1 == *spender {
            return Some(i);
        }
        i = i + 1;
    }
    None
}

/// Stores `v` under `k`, given where the entry of `k` stands. An absent key that
/// would read zero gets no entry.
pub(crate) fn store<K>(s: &mut Vec<(K, u128)>, pos: Option<usize>, k: K, v: u128)
    requires
        keys_unique(old(s)@),
        match pos {
            Some(i) => i < old(s)@.len() && old(s)@[i as int].0 == k,
            None => !has_key(old(s)@, k),
        },
    ensures
        keys_unique(final(s)@),
        forall|q: K| #[trigger]
            value_at(final(s)@, q) == if q == k {
                v as nat
            } else {
                value_at(old(s)@, q)
            },
        entries_total(final(s)@) + value_at(old(s)@, k) == entries_total(old(s)@) + v,
{
    proof {
        match pos {
            Some(i) => {
                lemma_update(old(s)@, i as int, v);
                lemma_value_at_index(old(s)@, i as int);
            },
            None => {
                lemma_push(old(s)@, k, v);
                lemma_value_at_absent(old(s)@, k);
            },
        }
    }
    match pos {
        Some(i) => {
            s.set(i, (k, v));
        },
        None => {
            if v != 0 {
                s.push((k, v));
            }
        },
    }
}

} // verus!
