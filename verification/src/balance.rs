//! The balance table of one ledger.
//!
//! Each principal's holding is a non-negative amount; a principal without an
//! entry holds zero. The table also carries the ledger's total supply, the
//! sum of all entries, so that contracts can state that moving value around
//! conserves it.

use vstd::prelude::*;

verus! {

/// Balances keyed by principal. Entries have pairwise-distinct principals
/// and non-negative amounts.
pub struct Balances {
    entries: Vec<(u64, i128)>,
}

/// The amount recorded for `id`, zero when `id` has no entry.
pub open spec fn entry_bal(s: Seq<(u64, i128)>, id: u64) -> int
    decreases s.len(),
{
    if s.len() == 0 {
        0
    } else if s.last().0 == id {
        s.last().1 as int
    } else {
        entry_bal(s.drop_last(), id)
    }
}

/// The sum of all recorded amounts.
pub open spec fn entry_sum(s: Seq<(u64, i128)>) -> int
    decreases s.len(),
{
    if s.len() == 0 {
        0
    } else {
        entry_sum(s.drop_last()) + s.last().1
    }
}

/// No principal appears in two entries.
pub open spec fn distinct_ids(s: Seq<(u64, i128)>) -> bool {
    forall|i: int, j: int| 0 <= i < j < s.len() ==> (#[trigger] s[i]).0 != (#[trigger] s[j]).0
}

/// Every recorded amount is non-negative.
pub open spec fn nonnegative_amounts(s: Seq<(u64, i128)>) -> bool {
    forall|i: int| 0 <= i < s.len() ==> (#[trigger] s[i]).1 >= 0
}

proof fn lemma_bal_absent(s: Seq<(u64, i128)>, id: u64)
    requires
        forall|i: int| 0 <= i < s.len() ==> (#[trigger] s[i]).0 != id,
    ensures
        entry_bal(s, id) == 0,
    decreases s.len(),
{
    if s.len() > 0 {
        assert(s.last() == s[s.len() - 1]);
        lemma_bal_absent(s.drop_last(), id);
    }
}

proof fn lemma_bal_indexed(s: Seq<(u64, i128)>, id: u64, i: int)
    requires
        distinct_ids(s),
        0 <= i < s.len(),
        s[i].0 == id,
    ensures
        entry_bal(s, id) == s[i].1,
    decreases s.len(),
{
    if i == s.len() - 1 {
        assert(s.last() == s[s.len() - 1]);
    } else {
        assert(s.last() == s[s.len() - 1]);
        assert(s.drop_last()[i] == s[i]);
        lemma_bal_indexed(s.drop_last(), id, i);
    }
}

proof fn lemma_bal_nonneg(s: Seq<(u64, i128)>, id: u64)
    requires
        nonnegative_amounts(s),
    ensures
        entry_bal(s, id) >= 0,
    decreases s.len(),
{
    if s.len() > 0 {
        assert(s.last() == s[s.len() - 1]);
        lemma_bal_nonneg(s.drop_last(), id);
    }
}

proof fn lemma_bal_bounded(s: Seq<(u64, i128)>, id: u64)
    ensures
        entry_bal(s, id) <= i128::MAX,
    decreases s.len(),
{
    if s.len() > 0 {
        lemma_bal_bounded(s.drop_last(), id);
    }
}

proof fn lemma_bal_update(s: Seq<(u64, i128)>, i: int, v: i128)
    requires
        distinct_ids(s),
        0 <= i < s.len(),
    ensures
        forall|id: u64|
            entry_bal(s.update(i, (s[i].0, v)), id) == if id == s[i].0 {
                v as int
            } else {
                entry_bal(s, id)
            },
        entry_sum(s.update(i, (s[i].0, v))) == entry_sum(s) - s[i].1 + v,
        distinct_ids(s.update(i, (s[i].0, v))),
        nonnegative_amounts(s) && v >= 0 ==> nonnegative_amounts(s.update(i, (s[i].0, v))),
    decreases s.len(),
{
    let t = s.update(i, (s[i].0, v));
    assert(s.last() == s[s.len() - 1]);
    assert(t.last() == t[t.len() - 1]);
    if i == s.len() - 1 {
        assert(t.drop_last() =~= s.drop_last());
        assert forall|id: u64|
            entry_bal(t, id) == if id == s[i].0 {
                v as int
            } else {
                entry_bal(s, id)
            } by {
            if id != s[i].0 {
                assert(entry_bal(t, id) == entry_bal(t.drop_last(), id));
                assert(entry_bal(s, id) == entry_bal(s.drop_last(), id));
            }
        }
    } else {
        assert(t.drop_last() =~= s.drop_last().update(i, (s[i].0, v)));
        assert(s.drop_last()[i] == s[i]);
        lemma_bal_update(s.drop_last(), i, v);
        assert forall|id: u64|
            entry_bal(t, id) == if id == s[i].0 {
                v as int
            } else {
                entry_bal(s, id)
            } by {
            if t.last().0 == id {
                assert(s[i].0 != s[s.len() - 1].0);
            } else {
                assert(entry_bal(t, id) == entry_bal(t.drop_last(), id));
                assert(entry_bal(s, id) == entry_bal(s.drop_last(), id));
            }
        }
    }
}

proof fn lemma_bal_push(s: Seq<(u64, i128)>, id: u64, v: i128)
    requires
        forall|i: int| 0 <= i < s.len() ==> (#[trigger] s[i]).0 != id,
    ensures
        forall|id2: u64|
            entry_bal(s.push((id, v)), id2) == if id2 == id {
                v as int
            } else {
                entry_bal(s, id2)
            },
        entry_sum(s.push((id, v))) == entry_sum(s) + v,
        distinct_ids(s) ==> distinct_ids(s.push((id, v))),
        nonnegative_amounts(s) && v >= 0 ==> nonnegative_amounts(s.push((id, v))),
    decreases s.len(),
{
    let t = s.push((id, v));
    assert(t.last() == t[t.len() - 1]);
    assert(t.drop_last() =~= s);
    if distinct_ids(s) {
        assert forall|i: int, j: int| 0 <= i < j < t.len() implies (#[trigger] t[i]).0
            != (#[trigger] t[j]).0 by {
            if j == t.len() - 1 {
                assert(t[i] == s[i]);
            } else {
                assert(t[i] == s[i]);
                assert(t[j] == s[j]);
            }
        }
    }
}

impl Balances {
    /// The well-formedness invariant: one entry per principal, all amounts
    /// non-negative.
    pub closed spec fn wf(self) -> bool {
        distinct_ids(self.entries@) && nonnegative_amounts(self.entries@)
    }

    /// The balance of `id`; zero for a principal without an entry.
    pub closed spec fn bal(self, id: u64) -> int {
        entry_bal(self.entries@, id)
    }

    /// The total supply held in this table.
    pub closed spec fn total(self) -> int {
        entry_sum(self.entries@)
    }

    /// An empty table: every principal holds zero.
    pub fn new() -> (r: Balances)
        ensures
            r.wf(),
            forall|id: u64| r.bal(id) == 0,
            r.total() == 0,
    {
        let r = Balances { entries: Vec::new() };
        proof {
            assert forall|id: u64| r.bal(id) == 0 by {
                lemma_bal_absent(r.entries@, id);
            }
        }
        r
    }

    fn find(&self, id: u64) -> (r: Option<usize>)
        ensures
            match r {
                Some(i) => i < self.entries@.len() && self.entries@[i as int].0 == id,
                None => forall|i: int|
                    0 <= i < self.entries@.len() ==> (#[trigger] self.entries@[i]).0 != id,
            },
    {
        let n = self.entries.len();
        let mut i: usize = 0;
        while i < n
            invariant
                n == self.entries@.len(),
                i <= n,
                forall|j: int| 0 <= j < i ==> (#[trigger] self.entries@[j]).0 != id,
            decreases n - i,
        {
            if self.entries[i].0 == id {
                return Some(i);
            }
            i += 1;
        }
        None
    }

    /// Read the balance of `id`.
    pub fn read(&self, id: u64) -> (r: i128)
        requires
            self.wf(),
        ensures
            r as int == self.bal(id),
            r >= 0,
    {
        match self.find(id) {
            Some(i) => {
                proof {
                    lemma_bal_indexed(self.entries@, id, i as int);
                }
                self.entries[i].1
            },
            None => {
                proof {
                    lemma_bal_absent(self.entries@, id);
                }
                0
            },
        }
    }

    /// Credit `amount` to `id`, leaving every other balance unchanged and
    /// growing the total supply by `amount`.
    pub fn receive(&mut self, id: u64, amount: i128)
        requires
            old(self).wf(),
            0 <= amount,
            old(self).bal(id) + amount <= i128::MAX,
        ensures
            final(self).wf(),
            forall|id2: u64|
                final(self).bal(id2) == old(self).bal(id2) + if id2 == id {
                    amount as int
                } else {
                    0
                },
            final(self).total() == old(self).total() + amount,
    {
        match self.find(id) {
            Some(i) => {
                proof {
                    lemma_bal_indexed(self.entries@, id, i as int);
                }
                let cur = self.entries[i].1;
                proof {
                    lemma_bal_update(self.entries@, i as int, (cur + amount) as i128);
                }
                self.entries[i] = (id, cur + amount);
            },
            None => {
                proof {
                    lemma_bal_absent(self.entries@, id);
                    lemma_bal_push(self.entries@, id, amount);
                }
                self.entries.push((id, amount));
            },
        }
    }

    /// Debit `amount` from `id`, leaving every other balance unchanged and
    /// shrinking the total supply by `amount`. The holding must cover it.
    pub fn spend(&mut self, id: u64, amount: i128)
        requires
            old(self).wf(),
            0 <= amount <= old(self).bal(id),
        ensures
            final(self).wf(),
            forall|id2: u64|
                final(self).bal(id2) == old(self).bal(id2) - if id2 == id {
                    amount as int
                } else {
                    0
                },
            final(self).total() == old(self).total() - amount,
    {
        match self.find(id) {
            Some(i) => {
                proof {
                    lemma_bal_indexed(self.entries@, id, i as int);
                }
                let cur = self.entries[i].1;
                proof {
                    lemma_bal_update(self.entries@, i as int, (cur - amount) as i128);
                }
                self.entries[i] = (id, cur - amount);
            },
            None => {
                proof {
                    lemma_bal_absent(self.entries@, id);
                }
            },
        }
    }

    /// Every balance a well-formed table records is non-negative.
    pub proof fn lemma_nonnegative(self, id: u64)
        requires
            self.wf(),
        ensures
            self.bal(id) >= 0,
    {
        lemma_bal_nonneg(self.entries@, id);
    }

    /// Every balance the table records fits the machine amount type.
    pub proof fn lemma_bounded(self, id: u64)
        ensures
            self.bal(id) <= i128::MAX,
    {
        lemma_bal_bounded(self.entries@, id);
    }
}

} // verus!
