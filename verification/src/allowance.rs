//! The allowance table of one ledger.
//!
//! An allowance is a spending limit one principal (the owner) grants
//! another (the spender), together with an expiration ledger height after
//! which it is void. The table stores the raw records; whether a record is
//! still effective at a given height is decided by the ledger on top of it.

use vstd::prelude::*;

verus! {

/// One allowance record: `owner` lets `spender` move up to `amount` until
/// ledger height `expiration` has passed.
#[derive(Clone, Copy, Debug)]
pub struct AllowanceRecord {
    pub owner: u64,
    pub spender: u64,
    pub amount: i128,
    pub expiration: u32,
}

/// Allowances keyed by (owner, spender). Entries have pairwise-distinct
/// keys and non-negative amounts.
pub struct Allowances {
    entries: Vec<AllowanceRecord>,
}

/// The `(amount, expiration)` recorded for `(owner, spender)`;
/// `(0, 0)` when no record exists.
pub open spec fn entry_allow(s: Seq<AllowanceRecord>, owner: u64, spender: u64) -> (int, u32)
    decreases s.len(),
{
    if s.len() == 0 {
        (0int, 0u32)
    } else if s.last().owner == owner && s.last().spender == spender {
        (s.last().amount as int, s.last().expiration)
    } else {
        entry_allow(s.drop_last(), owner, spender)
    }
}

/// No (owner, spender) pair appears in two entries.
pub open spec fn distinct_pairs(s: Seq<AllowanceRecord>) -> bool {
    forall|i: int, j: int|
        0 <= i < j < s.len() ==> !((#[trigger] s[i]).owner == (#[trigger] s[j]).owner
            && s[i].spender == s[j].spender)
}

/// Every recorded amount is non-negative.
pub open spec fn nonnegative_allowances(s: Seq<AllowanceRecord>) -> bool {
    forall|i: int| 0 <= i < s.len() ==> (#[trigger] s[i]).amount >= 0
}

proof fn lemma_allow_absent(s: Seq<AllowanceRecord>, owner: u64, spender: u64)
    requires
        forall|i: int|
            0 <= i < s.len() ==> !((#[trigger] s[i]).owner == owner && s[i].spender == spender),
    ensures
        entry_allow(s, owner, spender) == (0int, 0u32),
    decreases s.len(),
{
    if s.len() > 0 {
        assert(s.last() == s[s.len() - 1]);
        lemma_allow_absent(s.drop_last(), owner, spender);
    }
}

proof fn lemma_allow_indexed(s: Seq<AllowanceRecord>, owner: u64, spender: u64, i: int)
    requires
        distinct_pairs(s),
        0 <= i < s.len(),
        s[i].owner == owner,
        s[i].spender == spender,
    ensures
        entry_allow(s, owner, spender) == (s[i].amount as int, s[i].expiration),
    decreases s.len(),
{
    assert(s.last() == s[s.len() - 1]);
    if i < s.len() - 1 {
        assert(s.drop_last()[i] == s[i]);
        lemma_allow_indexed(s.drop_last(), owner, spender, i);
    }
}

proof fn lemma_allow_nonneg(s: Seq<AllowanceRecord>, owner: u64, spender: u64)
    requires
        nonnegative_allowances(s),
    ensures
        entry_allow(s, owner, spender).0 >= 0,
    decreases s.len(),
{
    if s.len() > 0 {
        assert(s.last() == s[s.len() - 1]);
        lemma_allow_nonneg(s.drop_last(), owner, spender);
    }
}

proof fn lemma_allow_update(s: Seq<AllowanceRecord>, i: int, v: i128, e: u32)
    requires
        distinct_pairs(s),
        0 <= i < s.len(),
    ensures
        forall|o: u64, p: u64|
            entry_allow(
                s.update(
                    i,
                    AllowanceRecord {
                        owner: s[i].owner,
                        spender: s[i].spender,
                        amount: v,
                        expiration: e,
                    },
                ),
                o,
                p,
            ) == if o == s[i].owner && p == s[i].spender {
                (v as int, e)
            } else {
                entry_allow(s, o, p)
            },
        distinct_pairs(
            s.update(
                i,
                AllowanceRecord {
                    owner: s[i].owner,
                    spender: s[i].spender,
                    amount: v,
                    expiration: e,
                },
            ),
        ),
        nonnegative_allowances(s) && v >= 0 ==> nonnegative_allowances(
            s.update(
                i,
                AllowanceRecord {
                    owner: s[i].owner,
                    spender: s[i].spender,
                    amount: v,
                    expiration: e,
                },
            ),
        ),
    decreases s.len(),
{
    let rec = AllowanceRecord {
        owner: s[i].owner,
        spender: s[i].spender,
        amount: v,
        expiration: e,
    };
    let t = s.update(i, rec);
    assert(s.last() == s[s.len() - 1]);
    assert(t.last() == t[t.len() - 1]);
    if i == s.len() - 1 {
        assert(t.drop_last() =~= s.drop_last());
        assert forall|o: u64, p: u64|
            entry_allow(t, o, p) == if o == s[i].owner && p == s[i].spender {
                (v as int, e)
            } else {
                entry_allow(s, o, p)
            } by {
            if !(o == s[i].owner && p == s[i].spender) {
                assert(entry_allow(t, o, p) == entry_allow(t.drop_last(), o, p));
                assert(entry_allow(s, o, p) == entry_allow(s.drop_last(), o, p));
            }
        }
    } else {
        assert(t.drop_last() =~= s.drop_last().update(i, rec));
        assert(s.drop_last()[i] == s[i]);
        lemma_allow_update(s.drop_last(), i, v, e);
        assert forall|o: u64, p: u64|
            entry_allow(t, o, p) == if o == s[i].owner && p == s[i].spender {
                (v as int, e)
            } else {
                entry_allow(s, o, p)
            } by {
            if t.last().owner == o && t.last().spender == p {
                assert(!(s[i].owner == s[s.len() - 1].owner && s[i].spender == s[s.len()
                    - 1].spender));
            } else {
                assert(entry_allow(t, o, p) == entry_allow(t.drop_last(), o, p));
                assert(entry_allow(s, o, p) == entry_allow(s.drop_last(), o, p));
            }
        }
    }
}

proof fn lemma_allow_push(s: Seq<AllowanceRecord>, owner: u64, spender: u64, v: i128, e: u32)
    requires
        forall|i: int|
            0 <= i < s.len() ==> !((#[trigger] s[i]).owner == owner && s[i].spender == spender),
    ensures
        forall|o: u64, p: u64|
            entry_allow(
                s.push(AllowanceRecord { owner, spender, amount: v, expiration: e }),
                o,
                p,
            ) == if o == owner && p == spender {
                (v as int, e)
            } else {
                entry_allow(s, o, p)
            },
        distinct_pairs(s) ==> distinct_pairs(
            s.push(AllowanceRecord { owner, spender, amount: v, expiration: e }),
        ),
        nonnegative_allowances(s) && v >= 0 ==> nonnegative_allowances(
            s.push(AllowanceRecord { owner, spender, amount: v, expiration: e }),
        ),
{
    let t = s.push(AllowanceRecord { owner, spender, amount: v, expiration: e });
    assert(t.last() == t[t.len() - 1]);
    assert(t.drop_last() =~= s);
    if distinct_pairs(s) {
        assert forall|i: int, j: int| 0 <= i < j < t.len() implies !((#[trigger] t[i]).owner
            == (#[trigger] t[j]).owner && t[i].spender == t[j].spender) by {
            if j == t.len() - 1 {
                assert(t[i] == s[i]);
            } else {
                assert(t[i] == s[i]);
                assert(t[j] == s[j]);
            }
        }
    }
}

impl Allowances {
    /// The well-formedness invariant: one record per (owner, spender) pair,
    /// all amounts non-negative.
    pub closed spec fn wf(self) -> bool {
        distinct_pairs(self.entries@) && nonnegative_allowances(self.entries@)
    }

    /// The recorded amount for `(owner, spender)`, zero without a record.
    pub closed spec fn amount_of(self, owner: u64, spender: u64) -> int {
        entry_allow(self.entries@, owner, spender).0
    }

    /// The recorded expiration for `(owner, spender)`, zero without a record.
    pub closed spec fn expiration_of(self, owner: u64, spender: u64) -> u32 {
        entry_allow(self.entries@, owner, spender).1
    }

    /// An empty table: no allowance is granted.
    pub fn new() -> (r: Allowances)
        ensures
            r.wf(),
            forall|o: u64, p: u64| r.amount_of(o, p) == 0 && r.expiration_of(o, p) == 0,
    {
        let r = Allowances { entries: Vec::new() };
        proof {
            assert forall|o: u64, p: u64| r.amount_of(o, p) == 0 && r.expiration_of(o, p)
                == 0 by {
                lemma_allow_absent(r.entries@, o, p);
            }
        }
        r
    }

    fn find(&self, owner: u64, spender: u64) -> (r: Option<usize>)
        ensures
            match r {
                Some(i) => i < self.entries@.len() && self.entries@[i as int].owner == owner
                    && self.entries@[i as int].spender == spender,
                None => forall|i: int|
                    0 <= i < self.entries@.len() ==> !((#[trigger] self.entries@[i]).owner == owner
                        && self.entries@[i].spender == spender),
            },
    {
        let n = self.entries.len();
        let mut i: usize = 0;
        while i < n
            invariant
                n == self.entries@.len(),
                i <= n,
                forall|j: int|
                    0 <= j < i ==> !((#[trigger] self.entries@[j]).owner == owner
                        && self.entries@[j].spender == spender),
            decreases n - i,
        {
            if self.entries[i].owner == owner && self.entries[i].spender == spender {
                return Some(i);
            }
            i += 1;
        }
        None
    }

    /// Read the raw record for `(owner, spender)`: its amount and its
    /// expiration height, both zero when nothing was recorded.
    pub fn read(&self, owner: u64, spender: u64) -> (r: (i128, u32))
        requires
            self.wf(),
        ensures
            r.0 as int == self.amount_of(owner, spender),
            r.1 == self.expiration_of(owner, spender),
            r.0 >= 0,
    {
        match self.find(owner, spender) {
            Some(i) => {
                proof {
                    lemma_allow_indexed(self.entries@, owner, spender, i as int);
                }
                (self.entries[i].amount, self.entries[i].expiration)
            },
            None => {
                proof {
                    lemma_allow_absent(self.entries@, owner, spender);
                }
                (0, 0)
            },
        }
    }

    /// Overwrite the record for `(owner, spender)` with `(amount,
    /// expiration)`, leaving every other record unchanged.
    pub fn write(&mut self, owner: u64, spender: u64, amount: i128, expiration: u32)
        requires
            old(self).wf(),
            amount >= 0,
        ensures
            final(self).wf(),
            final(self).amount_of(owner, spender) == amount as int,
            final(self).expiration_of(owner, spender) == expiration,
            forall|o: u64, p: u64|
                !(o == owner && p == spender) ==> #[trigger] final(self).amount_of(o, p)
                    == old(self).amount_of(o, p) && final(self).expiration_of(o, p) == old(
                    self,
                ).expiration_of(o, p),
    {
        match self.find(owner, spender) {
            Some(i) => {
                proof {
                    lemma_allow_update(self.entries@, i as int, amount, expiration);
                }
                self.entries[i] = AllowanceRecord { owner, spender, amount, expiration };
            },
            None => {
                proof {
                    lemma_allow_push(self.entries@, owner, spender, amount, expiration);
                }
                self.entries.push(
                    AllowanceRecord { owner, spender, amount, expiration },
                );
            },
        }
    }

    /// Every amount a well-formed table records is non-negative.
    pub proof fn lemma_nonnegative(self, owner: u64, spender: u64)
        requires
            self.wf(),
        ensures
            self.amount_of(owner, spender) >= 0,
    {
        lemma_allow_nonneg(self.entries@, owner, spender);
    }
}

} // verus!
