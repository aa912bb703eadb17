//! The host ledger, modelled as a store of addressed accounts.

use vstd::prelude::*;
use crate::address::Address;
use crate::accounts::Account;

verus! {

/// One keyed slot of the ledger.
struct LedgerEntry {
    key: Address,
    account: Account,
}

/// A store of accounts, one per address. The host serializes every request
/// against it, so a request sees and leaves a single consistent state.
pub struct Ledger {
    entries: Vec<LedgerEntry>,
}

impl Ledger {
    /// The account stored at address `k`, if any.
    pub closed spec fn spec_get(self, k: Seq<u8>) -> Option<Account> {
        Self::assoc(self.entries@, k)
    }

    spec fn assoc(s: Seq<LedgerEntry>, k: Seq<u8>) -> Option<Account>
        decreases s.len(),
    {
        if s.len() == 0 {
            None
        } else if s[0].key@ == k {
            Some(s[0].account)
        } else {
            Self::assoc(s.drop_first(), k)
        }
    }

    proof fn lemma_assoc_skip(s: Seq<LedgerEntry>, k: Seq<u8>, i: int)
        requires
            0 <= i <= s.len(),
            forall|j: int| 0 <= j < i ==> s[j].key@ != k,
        ensures
            Self::assoc(s, k) == Self::assoc(s.skip(i), k),
        decreases i,
    {
        if i == 0 {
            assert(s.skip(0) =~= s);
        } else {
            Self::lemma_assoc_skip(s.drop_first(), k, i - 1);
            assert(s.drop_first().skip(i - 1) =~= s.skip(i));
        }
    }

    proof fn lemma_assoc_push(s: Seq<LedgerEntry>, k: Seq<u8>, e: LedgerEntry)
        ensures
            Self::assoc(s.push(e), k) == (if Self::assoc(s, k) is Some {
                Self::assoc(s, k)
            } else if e.key@ == k {
                Some(e.account)
            } else {
                None
            }),
        decreases s.len(),
    {
        if s.len() == 0 {
            assert(s.push(e)[0] == e);
            assert(s.push(e).drop_first() =~= Seq::<LedgerEntry>::empty());
            assert(Self::assoc(Seq::<LedgerEntry>::empty(), k) is None);
        } else {
            assert(s.push(e)[0] == s[0]);
            if s[0].key@ != k {
                Self::lemma_assoc_push(s.drop_first(), k, e);
                assert(s.push(e).drop_first() =~= s.drop_first().push(e));
            }
        }
    }

    proof fn lemma_assoc_update(s: Seq<LedgerEntry>, i: int, e: LedgerEntry, k: Seq<u8>)
        requires
            0 <= i < s.len(),
            s[i].key@ == e.key@,
            forall|j: int| 0 <= j < i ==> s[j].key@ != e.key@,
        ensures
            Self::assoc(s.update(i, e), k) == (if k == e.key@ {
                Some(e.account)
            } else {
                Self::assoc(s, k)
            }),
        decreases i,
    {
        let t = s.update(i, e);
        if i == 0 {
            assert(t[0] == e);
            if k != e.key@ {
                assert(t.drop_first() =~= s.drop_first());
            }
        } else {
            assert(t[0] == s[0]);
            if s[0].key@ != k {
                assert(t.drop_first() =~= s.drop_first().update(i - 1, e));
                Self::lemma_assoc_update(s.drop_first(), i - 1, e, k);
            }
        }
    }

    /// An empty ledger.
    pub fn new() -> (r: Ledger)
        ensures
            forall|k: Seq<u8>| r.spec_get(k) is None,
    {
        Ledger { entries: Vec::new() }
    }

    fn index_of(&self, key: &Address) -> (r: Option<usize>)
        ensures
            match r {
                Some(i) => i < self.entries@.len() && self.entries@[i as int].key@ == key@
                    && self.spec_get(key@) == Some(self.entries@[i as int].account)
                    && (forall|j: int| 0 <= j < i ==> self.entries@[j].key@ != key@),
                None => self.spec_get(key@) is None,
            },
    {
        let n = self.entries.len();
        let mut i: usize = 0;
        while i < n
            invariant
                n == self.entries@.len(),
                i <= n,
                forall|j: int| 0 <= j < i ==> self.entries@[j].key@ != key@,
            decreases n - i,
        {
            if self.entries[i].key.same_as(key) {
                proof {
                    Self::lemma_assoc_skip(self.entries@, key@, i as int);
                    assert(self.entries@.skip(i as int)[0] == self.entries@[i as int]);
                }
                return Some(i);
            }
            i += 1;
        }
        proof {
            Self::lemma_assoc_skip(self.entries@, key@, n as int);
            assert(self.entries@.skip(n as int) =~= Seq::<LedgerEntry>::empty());
        }
        None
    }

    /// The account at `key`, if any.
    pub fn get(&self, key: &Address) -> (r: Option<&Account>)
        ensures
            match r {
                Some(a) => self.spec_get(key@) == Some(*a),
                None => self.spec_get(key@) is None,
            },
    {
        match self.index_of(key) {
            Some(i) => Some(&self.entries[i].account),
            None => None,
        }
    }

    /// Stores `account` at `key`, creating the slot or replacing what was
    /// there; every other address is untouched.
    pub fn upsert(&mut self, key: Address, account: Account)
        ensures
            final(self).spec_get(key@) == Some(account),
            forall|k: Seq<u8>| k != key@ ==> final(self).spec_get(k) == old(self).spec_get(k),
    {
        let ghost s0 = self.entries@;
        let entry = LedgerEntry { key, account };
        let ghost e = entry;
        match self.index_of(&key) {
            Some(i) => {
                self.entries[i] = entry;
                proof {
                    assert forall|k: Seq<u8>| k != key@ implies Self::assoc(
                        s0.update(i as int, e),
                        k,
                    ) == Self::assoc(s0, k) by {
                        Self::lemma_assoc_update(s0, i as int, e, k);
                    }
                    Self::lemma_assoc_update(s0, i as int, e, key@);
                }
            }
            None => {
                self.entries.push(entry);
                proof {
                    assert forall|k: Seq<u8>| k != key@ implies Self::assoc(s0.push(e), k)
                        == Self::assoc(s0, k) by {
                        Self::lemma_assoc_push(s0, k, e);
                    }
                    Self::lemma_assoc_push(s0, key@, e);
                }
            }
        }
    }
}

} // verus!
