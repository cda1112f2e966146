//! The in-memory storage backend.
//!
//! The Store owns one backend exclusively and reaches it through three
//! operations: list the stored keys, read the bytes under a key, write bytes
//! under a key. This backend keeps everything in memory; it is the one the
//! verified actor owns, and the reference for what any backend must do.

use vstd::prelude::*;
use vstd::pervasive::VecAdditionalExecFns;
use crate::codec::copy_bytes;
use crate::key::Key;

verus! {

/// What a backend holds, as contracts see it: stored entries in storage
/// order, each a key and the bytes under it.
pub type EntriesView = Seq<(Seq<u8>, Seq<u8>)>;

/// Whether some entry of `m` bears the key `k`.
pub open spec fn contains_key(m: EntriesView, k: Seq<u8>) -> bool {
    exists|i: int| 0 <= i < m.len() && m[i].0 == k
}

/// The position of the entry bearing `k`; meaningful under `backend_wf`,
/// where at most one entry can bear it.
pub open spec fn key_index(m: EntriesView, k: Seq<u8>) -> int {
    choose|i: int| 0 <= i < m.len() && m[i].0 == k
}

/// The bytes stored under `k`, if any entry bears it.
pub open spec fn lookup(m: EntriesView, k: Seq<u8>) -> Option<Seq<u8>> {
    if contains_key(m, k) {
        Some(m[key_index(m, k)].1)
    } else {
        None
    }
}

/// Well-formedness: no two entries bear the same key.
pub open spec fn backend_wf(m: EntriesView) -> bool {
    forall|i: int, j: int| 0 <= i < j < m.len() ==> m[i].0 != m[j].0
}

/// What a write does: replace the bytes under `k` in place, or append a new
/// entry when no entry bears `k` yet.
pub open spec fn spec_store(m: EntriesView, k: Seq<u8>, v: Seq<u8>) -> EntriesView {
    if contains_key(m, k) {
        m.update(key_index(m, k), (k, v))
    } else {
        m.push((k, v))
    }
}

/// Under `backend_wf`, an entry bearing `k` at position `i` is the one that
/// `key_index` names.
pub proof fn lemma_key_index_unique(m: EntriesView, k: Seq<u8>, i: int)
    requires
        backend_wf(m),
        0 <= i < m.len(),
        m[i].0 == k,
    ensures
        contains_key(m, k),
        key_index(m, k) == i,
{
    assert(contains_key(m, k));
    let j = key_index(m, k);
    if j < i {
        assert(m[j].0 != m[i].0);
    } else if i < j {
        assert(m[i].0 != m[j].0);
    }
}

/// Storing keeps the backend well formed.
pub proof fn lemma_store_preserves_wf(m: EntriesView, k: Seq<u8>, v: Seq<u8>)
    requires
        backend_wf(m),
    ensures
        backend_wf(spec_store(m, k, v)),
{
    let m2 = spec_store(m, k, v);
    if contains_key(m, k) {
        let x = key_index(m, k);
        assert(0 <= x < m.len() && m[x].0 == k);
        assert forall|i: int, j: int| 0 <= i < j < m2.len() implies m2[i].0 != m2[j].0 by {
            assert(m[i].0 != m[j].0);
        }
    } else {
        assert forall|i: int, j: int| 0 <= i < j < m2.len() implies m2[i].0 != m2[j].0 by {
            if j < m.len() {
                assert(m[i].0 != m[j].0);
            } else {
                assert(m2[j].0 == k);
                assert(m[i].0 != k);
            }
        }
    }
}

/// After storing `v` under `k`, some entry bears `k`. This is the write-then-
/// list guarantee: a successful write makes its key appear in every later
/// listing, since entries are only ever replaced in place, never dropped.
pub proof fn lemma_store_then_contains(m: EntriesView, k: Seq<u8>, v: Seq<u8>)
    ensures
        contains_key(spec_store(m, k, v), k),
{
    let m2 = spec_store(m, k, v);
    if contains_key(m, k) {
        let x = key_index(m, k);
        assert(0 <= x < m.len() && m[x].0 == k);
        assert(m2[x].0 == k);
    } else {
        assert(m2[m.len() as int].0 == k);
    }
}

/// After storing `v` under `k`, reading `k` yields exactly `v`.
pub proof fn lemma_store_then_lookup(m: EntriesView, k: Seq<u8>, v: Seq<u8>)
    requires
        backend_wf(m),
    ensures
        lookup(spec_store(m, k, v), k) == Some(v),
{
    let m2 = spec_store(m, k, v);
    lemma_store_preserves_wf(m, k, v);
    if contains_key(m, k) {
        let x = key_index(m, k);
        assert(0 <= x < m.len() && m[x].0 == k);
        assert(m2[x] == (k, v));
        lemma_key_index_unique(m2, k, x);
    } else {
        assert(m2[m.len() as int] == (k, v));
        lemma_key_index_unique(m2, k, m.len() as int);
    }
}

/// Storing under `k` leaves what is stored under every other key unchanged.
pub proof fn lemma_store_preserves_others(m: EntriesView, k: Seq<u8>, v: Seq<u8>, k2: Seq<u8>)
    requires
        backend_wf(m),
        k2 != k,
    ensures
        lookup(spec_store(m, k, v), k2) == lookup(m, k2),
{
    let m2 = spec_store(m, k, v);
    lemma_store_preserves_wf(m, k, v);
    if contains_key(m, k) {
        let x = key_index(m, k);
        assert(0 <= x < m.len() && m[x].0 == k);
        if contains_key(m, k2) {
            let y = key_index(m, k2);
            assert(0 <= y < m.len() && m[y].0 == k2);
            assert(y != x);
            assert(m2[y] == m[y]);
            lemma_key_index_unique(m2, k2, y);
        } else {
            assert forall|i: int| 0 <= i < m2.len() implies m2[i].0 != k2 by {
                if i == x {
                    assert(m2[i].0 == k);
                } else {
                    assert(m2[i].0 == m[i].0);
                }
            }
            assert(!contains_key(m2, k2));
        }
    } else {
        if contains_key(m, k2) {
            let y = key_index(m, k2);
            assert(0 <= y < m.len() && m[y].0 == k2);
            assert(m2[y] == m[y]);
            lemma_key_index_unique(m2, k2, y);
            lemma_key_index_unique(m, k2, y);
        } else {
            assert forall|i: int| 0 <= i < m2.len() implies m2[i].0 != k2 by {
                if i < m.len() {
                    assert(m[i].0 != k2);
                } else {
                    assert(m2[i].0 == k);
                }
            }
            assert(!contains_key(m2, k2));
        }
    }
}

/// The in-memory backend: the stored entries, in storage order.
pub struct MemoryBackend {
    entries: Vec<(Key, Vec<u8>)>,
}

impl View for MemoryBackend {
    type V = EntriesView;

    closed spec fn view(&self) -> EntriesView {
        Seq::new(self.entries@.len(), |i: int| (self.entries@[i].0@, self.entries@[i].1@))
    }
}

impl MemoryBackend {
    /// An empty backend.
    pub fn new() -> (b: MemoryBackend)
        ensures
            b@ == Seq::<(Seq<u8>, Seq<u8>)>::empty(),
            backend_wf(b@),
    {
        let b = MemoryBackend { entries: Vec::new() };
        proof {
            assert(b@ =~= Seq::<(Seq<u8>, Seq<u8>)>::empty());
        }
        b
    }

    /// The position of the entry bearing `key`, if one does.
    fn find(&self, key: &Key) -> (r: Option<usize>)
        ensures
            r matches Some(i) ==> i < self@.len() && self@[i as int].0 == key@,
            r is None ==> !contains_key(self@, key@),
    {
        let mut i: usize = 0;
        while i < self.entries.len()
            invariant
                i <= self@.len(),
                self@.len() == self.entries@.len(),
                forall|j: int| 0 <= j < i ==> self@[j].0 != key@,
            decreases self@.len() - i,
        {
            if self.entries[i].0.same_as(key) {
                return Some(i);
            }
            i = i + 1;
        }
        None
    }

    /// Lists every stored key, in storage order.
    pub fn list(&self) -> (keys: Vec<Key>)
        ensures
            keys@.len() == self@.len(),
            forall|i: int| 0 <= i < self@.len() ==> keys@[i]@ == self@[i].0,
    {
        let mut keys: Vec<Key> = Vec::new();
        let mut i: usize = 0;
        while i < self.entries.len()
            invariant
                i <= self@.len(),
                self@.len() == self.entries@.len(),
                keys@.len() == i,
                forall|j: int| 0 <= j < i ==> keys@[j]@ == self@[j].0,
            decreases self@.len() - i,
        {
            keys.push(self.entries[i].0.clone());
            i = i + 1;
        }
        keys
    }

    /// Reads the bytes stored under `key`: a copy of the entry's bytes, or
    /// nothing when no entry bears the key.
    pub fn read(&self, key: &Key) -> (r: Option<Vec<u8>>)
        requires
            backend_wf(self@),
        ensures
            r is Some <==> contains_key(self@, key@),
            r matches Some(b) ==> lookup(self@, key@) == Some(b@),
    {
        match self.find(key) {
            Some(i) => {
                proof {
                    lemma_key_index_unique(self@, key@, i as int);
                }
                Some(copy_bytes(&self.entries[i].1))
            },
            None => None,
        }
    }

    /// Writes `data` under `key`, replacing whatever the key held. The
    /// in-memory backend always succeeds.
    pub fn write(&mut self, key: &Key, data: Vec<u8>) -> (ok: bool)
        requires
            backend_wf(old(self)@),
        ensures
            ok,
            backend_wf(final(self)@),
            final(self)@ == spec_store(old(self)@, key@, data@),
    {
        match self.find(key) {
            Some(i) => {
                proof {
                    lemma_key_index_unique(old(self)@, key@, i as int);
                    lemma_store_preserves_wf(old(self)@, key@, data@);
                }
                let kcopy = self.entries[i].0.clone();
                self.entries.set(i, (kcopy, data));
                proof {
                    assert(self@ =~= spec_store(old(self)@, key@, data@));
                }
            },
            None => {
                proof {
                    lemma_store_preserves_wf(old(self)@, key@, data@);
                }
                let kcopy = key.clone();
                self.entries.push((kcopy, data));
                proof {
                    assert(self@ =~= spec_store(old(self)@, key@, data@));
                }
            },
        }
        true
    }
}

} // verus!
