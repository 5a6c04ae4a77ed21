//! The claim ledger: at most one claim record per (identity, chain) key.
//!
//! This is the store the claim flow reasons over. It is a map from claim
//! keys to claim records, updated by whole-record overwrite, so the stored
//! value is always one coherent record and never a mix of two writes. Its
//! view is the mathematical map of its entries.

use vstd::prelude::*;
use crate::model::ClaimsData;
use crate::network::TypedChainId;

verus! {

/// The key a claim record is stored under: the identity together with the
/// full typed chain id. Chains of different families never share keys.
#[derive(Clone, Copy, Debug, PartialEq, Eq, Hash, Structural)]
pub struct ClaimKey {
    /// The claiming identity.
    pub identity: u64,
    /// The chain claimed on, family included.
    pub chain: TypedChainId,
}

/// The association list a ledger holds, read as a map. Later entries win,
/// though a well-formed ledger never repeats a key.
pub open spec fn spec_entries_map(s: Seq<(ClaimKey, ClaimsData)>) -> Map<ClaimKey, ClaimsData>
    decreases s.len(),
{
    if s.len() == 0 {
        Map::empty()
    } else {
        spec_entries_map(s.drop_last()).insert(s.last().0, s.last().1)
    }
}

/// No key occurs twice.
pub open spec fn spec_entries_unique(s: Seq<(ClaimKey, ClaimsData)>) -> bool {
    forall|i: int, j: int| 0 <= i < j < s.len() ==> (#[trigger] s[i]).0 != (#[trigger] s[j]).0
}

/// A key is in the entry map exactly when some entry holds it.
proof fn lemma_entries_map_contains(s: Seq<(ClaimKey, ClaimsData)>, k: ClaimKey)
    ensures
        spec_entries_map(s).contains_key(k) <==> exists|i: int| 0 <= i < s.len() && (#[trigger] s[i]).0 == k,
    decreases s.len(),
{
    if s.len() > 0 {
        lemma_entries_map_contains(s.drop_last(), k);
        if spec_entries_map(s).contains_key(k) {
            if s.last().0 == k {
                assert((s[s.len() - 1]).0 == k);
            } else {
                let i = choose|i: int| 0 <= i < s.drop_last().len() && (#[trigger] s.drop_last()[i]).0 == k;
                assert((s[i]).0 == k);
            }
        }
        if exists|i: int| 0 <= i < s.len() && (#[trigger] s[i]).0 == k {
            let i = choose|i: int| 0 <= i < s.len() && (#[trigger] s[i]).0 == k;
            if i < s.len() - 1 {
                assert(s.drop_last()[i] == s[i]);
            }
        }
    }
}

/// In a well-formed list, the map value of each entry's key is that
/// entry's record.
proof fn lemma_entries_map_get(s: Seq<(ClaimKey, ClaimsData)>, i: int)
    requires
        spec_entries_unique(s),
        0 <= i < s.len(),
    ensures
        spec_entries_map(s).contains_key(s[i].0),
        spec_entries_map(s)[s[i].0] == s[i].1,
    decreases s.len(),
{
    if i == s.len() - 1 {
    } else {
        assert(s.drop_last()[i] == s[i]);
        lemma_entries_map_get(s.drop_last(), i);
        assert(s[i].0 != s.last().0);
    }
}

/// Replacing the record under an existing key updates the map at that key
/// alone.
proof fn lemma_entries_map_update(s: Seq<(ClaimKey, ClaimsData)>, i: int, v: ClaimsData)
    requires
        spec_entries_unique(s),
        0 <= i < s.len(),
    ensures
        spec_entries_map(s.update(i, (s[i].0, v))) =~= spec_entries_map(s).insert(s[i].0, v),
    decreases s.len(),
{
    let k = s[i].0;
    let t = s.update(i, (k, v));
    if i == s.len() - 1 {
        assert(t.drop_last() =~= s.drop_last());
        assert(t.last() == (k, v));
    } else {
        assert(t.drop_last() =~= s.drop_last().update(i, (k, v)));
        assert(s.drop_last()[i] == s[i]);
        lemma_entries_map_update(s.drop_last(), i, v);
        assert(t.last() == s.last());
        assert(k != s.last().0);
    }
}

/// Appending a fresh key extends the map at that key alone.
proof fn lemma_entries_map_push(s: Seq<(ClaimKey, ClaimsData)>, k: ClaimKey, v: ClaimsData)
    ensures
        spec_entries_map(s.push((k, v))) =~= spec_entries_map(s).insert(k, v),
{
    assert(s.push((k, v)).drop_last() =~= s);
}

/// What a read of `key` in state `m` returns: the stored record, or
/// `None` when the key has none.
pub open spec fn spec_read_result(m: Map<ClaimKey, ClaimsData>, key: ClaimKey) -> Option<
    ClaimsData,
> {
    if m.contains_key(key) {
        Some(m[key])
    } else {
        None
    }
}

/// The claim ledger. Concurrent requesters share it behind one writer
/// lock, so every read-check-write sequence below runs alone for its key.
#[derive(Clone, Debug)]
pub struct ClaimLedger {
    entries: Vec<(ClaimKey, ClaimsData)>,
}

impl View for ClaimLedger {
    type V = Map<ClaimKey, ClaimsData>;

    closed spec fn view(&self) -> Map<ClaimKey, ClaimsData> {
        spec_entries_map(self.entries@)
    }
}

impl ClaimLedger {
    /// No key occurs twice in the backing entries.
    pub closed spec fn wf(&self) -> bool {
        spec_entries_unique(self.entries@)
    }

    /// An empty ledger: no identity has claimed anywhere.
    pub fn new() -> (r: ClaimLedger)
        ensures
            r.wf(),
            r@ == Map::<ClaimKey, ClaimsData>::empty(),
    {
        let r = ClaimLedger { entries: Vec::new() };
        proof {
            assert(r@ =~= Map::<ClaimKey, ClaimsData>::empty());
        }
        r
    }

    /// The most recent claim record of `identity` on `chain`, or `None`
    /// if that identity never claimed on that chain. Reading leaves the
    /// ledger untouched, so two reads with no write between them return
    /// the same record.
    pub fn get_last_claim(&self, identity: u64, chain: TypedChainId) -> (r: Option<&ClaimsData>)
        requires
            self.wf(),
        ensures
            match r {
                Some(c) => spec_read_result(self@, ClaimKey { identity, chain }) == Some(*c),
                None => spec_read_result(self@, ClaimKey { identity, chain }) is None,
            },
    {
        let key = ClaimKey { identity, chain };
        let n = self.entries.len();
        let mut i: usize = 0;
        while i < n
            invariant
                self.wf(),
                key == (ClaimKey { identity, chain }),
                n == self.entries@.len(),
                i <= n,
                forall|j: int| 0 <= j < i ==> (#[trigger] self.entries@[j]).0 != key,
            decreases n - i,
        {
            if self.entries[i].0.identity == identity && self.entries[i].0.chain == chain {
                proof {
                    assert(self.entries@[i as int].0 == key);
                    lemma_entries_map_get(self.entries@, i as int);
                }
                return Some(&self.entries[i].1);
            }
            i += 1;
        }
        proof {
            lemma_entries_map_contains(self.entries@, key);
        }
        None
    }

    /// Records that `identity` claimed on `chain`: overwrites the record
    /// under that key and no other. The returned timestamp echoes what
    /// was written.
    pub fn put_last_claim(&mut self, identity: u64, chain: TypedChainId, record: ClaimsData) -> (r:
        u64)
        requires
            old(self).wf(),
        ensures
            final(self).wf(),
            final(self)@ == old(self)@.insert(ClaimKey { identity, chain }, record),
            r == record.last_claimed_date,
    {
        let key = ClaimKey { identity, chain };
        let n = self.entries.len();
        let mut i: usize = 0;
        while i < n
            invariant
                self.wf(),
                key == (ClaimKey { identity, chain }),
                n == self.entries@.len(),
                i <= n,
                self.entries@ == old(self).entries@,
                forall|j: int| 0 <= j < i ==> (#[trigger] self.entries@[j]).0 != key,
            decreases n - i,
        {
            if self.entries[i].0.identity == identity && self.entries[i].0.chain == chain {
                proof {
                    assert(self.entries@[i as int].0 == key);
                    lemma_entries_map_update(self.entries@, i as int, record);
                }
                self.entries[i] = (key, record);
                proof {
                    assert(spec_entries_unique(self.entries@)) by {
                        assert forall|p: int, q: int|
                            0 <= p < q < self.entries@.len() implies (#[trigger] self.entries@[p]).0
                            != (#[trigger] self.entries@[q]).0 by {
                            assert(old(self).entries@[p].0 != old(self).entries@[q].0);
                        }
                    }
                }
                return record.last_claimed_date;
            }
            i += 1;
        }
        proof {
            lemma_entries_map_contains(self.entries@, key);
            lemma_entries_map_push(self.entries@, key, record);
        }
        self.entries.push((key, record));
        proof {
            assert(spec_entries_unique(self.entries@)) by {
                assert forall|p: int, q: int|
                    0 <= p < q < self.entries@.len() implies (#[trigger] self.entries@[p]).0
                    != (#[trigger] self.entries@[q]).0 by {
                    if q < self.entries@.len() - 1 {
                        assert(old(self).entries@[p].0 != old(self).entries@[q].0);
                    } else {
                        assert(old(self).entries@[p].0 != key);
                    }
                }
            }
        }
        record.last_claimed_date
    }

    /// Reads are a pure function of the ledger's state: any two reads of
    /// one key with no write between them return identical records.
    pub proof fn lemma_idempotent_read(
        m: Map<ClaimKey, ClaimsData>,
        key: ClaimKey,
        r1: Option<ClaimsData>,
        r2: Option<ClaimsData>,
    )
        requires
            r1 == spec_read_result(m, key),
            r2 == spec_read_result(m, key),
        ensures
            r1 == r2,
    {
    }

    /// A write to one chain's key never touches the record of the same
    /// identity on another chain, nor any other identity's record.
    pub proof fn lemma_chain_independence(
        &self,
        identity: u64,
        chain: TypedChainId,
        record: ClaimsData,
        other: ClaimKey,
    )
        requires
            other != (ClaimKey { identity, chain }),
        ensures
            self@.insert(ClaimKey { identity, chain }, record).contains_key(other)
                == self@.contains_key(other),
            self@.contains_key(other) ==> self@.insert(ClaimKey { identity, chain }, record)[other]
                == self@[other],
    {
    }
}

} // verus!
