//! The lock record store: at most one record per (depositor, asset) pair.

use vstd::prelude::*;
use crate::identity::Identity;

verus! {

/// The durable record of one active custody hold.
#[derive(Clone, Copy, Debug, PartialEq, Eq)]
pub struct LockAccount {
    /// The depositor, the only identity the asset is released to.
    pub user: Identity,
    /// The asset held.
    pub mint: Identity,
    /// Time of the deposit.
    pub lock_time: i64,
    /// Earliest time at which release may be requested.
    pub unlock_time: i64,
    /// Rent charged per started day, fixed when the lock was made.
    pub rent_per_day: u64,
    /// Seed byte of the record's derived address.
    pub bump: u8,
}

/// What a lock record is stored under: the depositor and the asset.
pub type LockKey = (Seq<u8>, Seq<u8>);

impl LockAccount {
    /// The pair this record is stored under.
    pub open spec fn key(&self) -> LockKey {
        (self.user@, self.mint@)
    }
}

/// The set of active lock records, addressed by (depositor, asset).
pub struct LockStore {
    records: Vec<LockAccount>,
}

impl View for LockStore {
    type V = Map<LockKey, LockAccount>;

    /// The records as a map from (depositor, asset) to the record.
    closed spec fn view(&self) -> Map<LockKey, LockAccount> {
        Map::new(
            |k: LockKey| exists|i: int| 0 <= i < self.records@.len() && self.records@[i].key() == k,
            |k: LockKey|
                self.records@[choose|i: int|
                    0 <= i < self.records@.len() && self.records@[i].key() == k],
        )
    }
}

impl LockStore {
    /// No two stored records share a (depositor, asset) pair.
    pub closed spec fn wf(&self) -> bool {
        forall|i: int, j: int|
            0 <= i < self.records@.len() && 0 <= j < self.records@.len() && i != j
                ==> self.records@[i].key() != self.records@[j].key()
    }

    /// Every record is stored under its own pair, and the store is finite.
    pub proof fn lemma_keyed(&self)
        requires
            self.wf(),
        ensures
            self@.dom().finite(),
            forall|k: LockKey| self@.contains_key(k) ==> (#[trigger] self@[k]).key() == k,
    {
        self.lemma_finite(self.records@.len() as int);
        assert(self@.dom() =~= self.keys_below(self.records@.len() as int));
    }

    spec fn keys_below(&self, n: int) -> Set<LockKey> {
        Set::new(|k: LockKey| exists|i: int| 0 <= i < n && self.records@[i].key() == k)
    }

    proof fn lemma_finite(&self, n: int)
        requires
            0 <= n <= self.records@.len(),
        ensures
            self.keys_below(n).finite(),
        decreases n,
    {
        if n == 0 {
            assert(self.keys_below(0) =~= Set::empty());
        } else {
            self.lemma_finite(n - 1);
            assert(self.keys_below(n) =~= self.keys_below(n - 1).insert(
                self.records@[n - 1].key(),
            ));
        }
    }

    /// The empty store.
    pub fn new() -> (s: LockStore)
        ensures
            s.wf(),
            s@ == Map::<LockKey, LockAccount>::empty(),
    {
        let s = LockStore { records: Vec::new() };
        assert(s@ =~= Map::<LockKey, LockAccount>::empty());
        s
    }

    /// Number of active records.
    pub fn len(&self) -> (n: usize)
        requires
            self.wf(),
        ensures
            n == self@.dom().len(),
    {
        proof {
            self.lemma_len(self.records@.len() as int);
            assert(self@.dom() =~= self.keys_below(self.records@.len() as int));
        }
        self.records.len()
    }

    proof fn lemma_len(&self, n: int)
        requires
            self.wf(),
            0 <= n <= self.records@.len(),
        ensures
            self.keys_below(n).finite(),
            self.keys_below(n).len() == n,
        decreases n,
    {
        if n == 0 {
            assert(self.keys_below(0) =~= Set::empty());
        } else {
            self.lemma_len(n - 1);
            let k = self.records@[n - 1].key();
            assert(!self.keys_below(n - 1).contains(k));
            assert(self.keys_below(n) =~= self.keys_below(n - 1).insert(k));
        }
    }

    fn position(&self, user: &Identity, mint: &Identity) -> (r: Option<usize>)
        requires
            self.wf(),
        ensures
            r.is_some() == self@.contains_key((user@, mint@)),
            r matches Some(i) ==> i < self.records@.len() && self.records@[i as int].key() == (
                user@,
                mint@,
            ) && self@[(user@, mint@)] == self.records@[i as int],
    {
        let mut i: usize = 0;
        while i < self.records.len()
            invariant
                self.wf(),
                i <= self.records@.len(),
                forall|j: int| 0 <= j < i ==> self.records@[j].key() != (user@, mint@),
            decreases self.records@.len() - i,
        {
            if self.records[i].user.same(user) && self.records[i].mint.same(mint) {
                proof {
                    let k = (user@, mint@);
                    assert(self.records@[i as int].key() == k);
                    let c = choose|c: int|
                        0 <= c < self.records@.len() && self.records@[c].key() == k;
                    assert(c == i);
                }
                return Some(i);
            }
            i += 1;
        }
        None
    }

    /// The record stored for the pair, if the pair is locked.
    pub fn find(&self, user: &Identity, mint: &Identity) -> (r: Option<LockAccount>)
        requires
            self.wf(),
        ensures
            r.is_some() == self@.contains_key((user@, mint@)),
            r matches Some(rec) ==> rec == self@[(user@, mint@)] && rec.key() == (user@, mint@),
    {
        match self.position(user, mint) {
            Some(i) => Some(self.records[i]),
            None => None,
        }
    }

    /// Stores a record for a pair that has none. Returns whether it did:
    /// where the pair already has a record the store stays as it is.
    pub fn insert(&mut self, record: LockAccount) -> (stored: bool)
        requires
            old(self).wf(),
        ensures
            final(self).wf(),
            stored == !old(self)@.contains_key(record.key()),
            stored ==> final(self)@ == old(self)@.insert(record.key(), record),
            !stored ==> final(self)@ == old(self)@,
    {
        if self.position(&record.user, &record.mint).is_some() {
            return false;
        }
        self.records.push(record);
        proof {
            let pre = old(self).records@;
            let post = self.records@;
            assert(post =~= pre.push(record));
            assert forall|k: LockKey| #[trigger]
                self@.contains_key(k) == old(self)@.insert(record.key(), record).contains_key(
                    k,
                ) by {
                if k == record.key() {
                    assert(post[pre.len() as int].key() == k);
                } else if old(self)@.contains_key(k) {
                    let i = choose|i: int| 0 <= i < pre.len() && pre[i].key() == k;
                    assert(post[i].key() == k);
                } else if self@.contains_key(k) {
                    let i = choose|i: int| 0 <= i < post.len() && post[i].key() == k;
                    assert(pre[i].key() == k);
                }
            }
            assert forall|k: LockKey| #[trigger] self@.contains_key(k) implies self@[k] == old(
                self,
            )@.insert(record.key(), record)[k] by {
                let i = choose|i: int| 0 <= i < post.len() && post[i].key() == k;
                if k != record.key() {
                    let j = choose|j: int| 0 <= j < pre.len() && pre[j].key() == k;
                    assert(pre[i].key() == k);
                    assert(i == j);
                }
            }
            assert(self@ =~= old(self)@.insert(record.key(), record));
        }
        true
    }

    /// Removes and returns the record stored for the pair, if there is one.
    pub fn remove(&mut self, user: &Identity, mint: &Identity) -> (r: Option<LockAccount>)
        requires
            old(self).wf(),
        ensures
            final(self).wf(),
            r.is_some() == old(self)@.contains_key((user@, mint@)),
            r matches Some(rec) ==> rec == old(self)@[(user@, mint@)],
            final(self)@ == old(self)@.remove((user@, mint@)),
    {
        match self.position(user, mint) {
            Some(i) => {
                let rec = self.records.remove(i);
                proof {
                    let pre = old(self).records@;
                    let post = self.records@;
                    let gone = (user@, mint@);
                    assert(post =~= pre.remove(i as int));
                    assert forall|k: LockKey| #[trigger]
                        self@.contains_key(k) == old(self)@.remove(gone).contains_key(k) by {
                        if self@.contains_key(k) {
                            let j = choose|j: int| 0 <= j < post.len() && post[j].key() == k;
                            let jj = if j < i { j } else { j + 1 };
                            assert(pre[jj].key() == k);
                        }
                        if old(self)@.remove(gone).contains_key(k) {
                            let j = choose|j: int| 0 <= j < pre.len() && pre[j].key() == k;
                            let jj = if j < i { j } else { j - 1 };
                            assert(post[jj].key() == k);
                        }
                    }
                    assert forall|k: LockKey| #[trigger] self@.contains_key(k) implies self@[k]
                        == old(self)@.remove(gone)[k] by {
                        let j = choose|j: int| 0 <= j < post.len() && post[j].key() == k;
                        let jj = if j < i { j } else { j + 1 };
                        let m = choose|m: int| 0 <= m < pre.len() && pre[m].key() == k;
                        assert(pre[jj].key() == k);
                        assert(jj == m);
                    }
                    assert(self@ =~= old(self)@.remove(gone));
                    assert forall|a: int, b: int|
                        0 <= a < post.len() && 0 <= b < post.len() && a != b implies post[a].key()
                        != post[b].key() by {
                        let aa = if a < i { a } else { a + 1 };
                        let bb = if b < i { b } else { b + 1 };
                        assert(pre[aa].key() != pre[bb].key());
                    }
                }
                Some(rec)
            },
            None => {
                assert(self@ =~= old(self)@.remove((user@, mint@)));
                None
            },
        }
    }
}

} // verus!
