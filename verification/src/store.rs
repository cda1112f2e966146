//! The Store actor's core: the command set and the dispatch that executes one
//! command at a time against the backend and the write-admission state.
//!
//! The surrounding process feeds [`Store::process`] commands strictly in
//! arrival order; each call returns the notifications the Store owes for that
//! command. No command overlaps another, so the one-writer invariant of the
//! admission state and the exclusivity of the backend hold by construction.

use vstd::prelude::*;
use vstd::string::StringExecFns;
use crate::admission::{
    Admission, AdmissionView, ZoneId, admission_wf, complete_transition, init_admission,
    request_transition,
};
use crate::backend::{
    EntriesView, MemoryBackend, backend_wf, contains_key, lemma_store_preserves_others,
    lemma_store_then_contains, lemma_store_then_lookup, lookup, spec_store,
};
use crate::codec::{ZoneData, decode, lemma_round_trip, spec_decode, spec_encode};
use crate::error::StoreError;
use crate::key::Key;

verus! {

/// A command sent to the Store. Commands are immutable values, queued by the
/// zones' handles and consumed exactly once by the actor, in arrival order.
#[derive(Debug, PartialEq, Eq)]
pub enum StoreCall {
    /// Enumerate every stored key.
    List,
    /// Read and decode the snapshot under the key, and notify the zone with
    /// the result.
    Load(ZoneId, Key),
    /// Read and decode the snapshot under the key, and reply to the caller.
    LoadData(Key),
    /// Ask for permission to write.
    RequestWrite(ZoneId),
    /// Persist an already-encoded snapshot under the key.
    Write(ZoneId, Key, Vec<u8>),
}

/// A notification or reply the Store owes after executing a command. The
/// surrounding process delivers each to its addressee.
#[derive(Debug, PartialEq, Eq)]
pub enum Notice {
    /// One key of a listing, streamed in storage order.
    KeyListed(Key),
    /// The zone's snapshot, loaded and decoded.
    Loaded(ZoneId, ZoneData),
    /// The zone's load failed: the key was absent, or its bytes were corrupt.
    LoadFailed(ZoneId, StoreError),
    /// The direct reply to a `LoadData` command: the snapshot if present,
    /// absent if the key was never written, a failure if the bytes were
    /// corrupt.
    DataReply(Result<Option<ZoneData>, StoreError>),
    /// The zone may perform its write now; at most one zone holds this grant
    /// at a time.
    WritePermitted(ZoneId),
    /// The outcome of the zone's write.
    WriteResult(ZoneId, Result<(), StoreError>),
}

/// What a `LoadData` reply must be, given backend contents `m` and key `k`:
/// the decoded snapshot when `k` holds a well-formed encoding, absent — not a
/// failure — when `k` was never written, and a read failure when the stored
/// bytes do not decode.
pub open spec fn load_result_ok(
    m: EntriesView,
    k: Seq<u8>,
    r: Result<Option<ZoneData>, StoreError>,
) -> bool {
    match lookup(m, k) {
        Option::None => r == Result::<Option<ZoneData>, StoreError>::Ok(Option::None),
        Option::Some(b) => match spec_decode(b) {
            Option::Some(p) => r matches Ok(o) && o matches Some(d) && d@ == p,
            Option::None => r matches Err(e) && e is ReadError,
        },
    }
}

/// What a `Load` notification must be, given backend contents `m`, the asking
/// zone `z` and key `k`: the decoded snapshot on success, and a load-failed
/// notification — never silence — when the key is absent or its bytes are
/// corrupt.
pub open spec fn load_notice_ok(m: EntriesView, z: ZoneId, k: Seq<u8>, n: Notice) -> bool {
    match lookup(m, k) {
        Option::Some(b) => match spec_decode(b) {
            Option::Some(p) => n matches Notice::Loaded(z2, d) && z2 == z && d@ == p,
            Option::None => n matches Notice::LoadFailed(z2, e) && z2 == z && e is ReadError,
        },
        Option::None => n matches Notice::LoadFailed(z2, e) && z2 == z && e is ReadError,
    }
}

/// Turns a backend read outcome into a `LoadData` reply: absent stays absent
/// and is not a failure; bytes that decode yield the snapshot; bytes that do
/// not decode surface as a read failure, kept distinct from absence.
pub fn classify_read(bytes: Option<Vec<u8>>) -> (r: Result<Option<ZoneData>, StoreError>)
    ensures
        bytes is None ==> r == Result::<Option<ZoneData>, StoreError>::Ok(Option::None),
        bytes matches Some(b) ==> (spec_decode(b@) matches Some(p) ==> (r matches Ok(o)
            && o matches Some(d) && d@ == p)),
        bytes matches Some(b) ==> (spec_decode(b@) is None ==> (r matches Err(e)
            && e is ReadError)),
{
    match bytes {
        Option::None => Result::Ok(Option::None),
        Option::Some(b) => match decode(&b) {
            Option::Some(d) => Result::Ok(Option::Some(d)),
            Option::None => Result::Err(
                StoreError::ReadError(String::from_str("stored bytes do not decode as a snapshot")),
            ),
        },
    }
}

/// The Store's entire state: the backend it owns exclusively, and the
/// write-admission state.
pub struct Store {
    backend: MemoryBackend,
    admission: Admission,
}

/// The Store's state as contracts see it.
#[verifier::ext_equal]
pub ghost struct StoreView {
    pub backend: EntriesView,
    pub adm: AdmissionView,
}

impl View for Store {
    type V = StoreView;

    closed spec fn view(&self) -> StoreView {
        StoreView { backend: self.backend@, adm: self.admission@ }
    }
}

/// Well-formedness of the Store: unique backend keys, and an admission state
/// whose queue holds no zone twice and is empty while the slot is free.
pub open spec fn store_wf(s: StoreView) -> bool {
    &&& backend_wf(s.backend)
    &&& admission_wf(s.adm)
}

impl Store {
    /// A fresh Store: empty backend, free write slot, empty queue.
    pub fn new() -> (s: Store)
        ensures
            s@.backend == Seq::<(Seq<u8>, Seq<u8>)>::empty(),
            s@.adm == init_admission(),
            store_wf(s@),
    {
        Store { backend: MemoryBackend::new(), admission: Admission::new() }
    }

    /// Every stored key, in storage order.
    pub fn list(&self) -> (keys: Vec<Key>)
        ensures
            keys@.len() == self@.backend.len(),
            forall|i: int| 0 <= i < self@.backend.len() ==> keys@[i]@ == self@.backend[i].0,
    {
        self.backend.list()
    }

    /// Loads the snapshot under `key` on behalf of `zone`: the notification
    /// to deliver, a failure — never silence — when the key is absent or its
    /// bytes are corrupt.
    pub fn load(&self, zone: ZoneId, key: &Key) -> (n: Notice)
        requires
            store_wf(self@),
        ensures
            load_notice_ok(self@.backend, zone, key@, n),
    {
        match self.backend.read(key) {
            Option::Some(b) => match decode(&b) {
                Option::Some(d) => Notice::Loaded(zone, d),
                Option::None => Notice::LoadFailed(
                    zone,
                    StoreError::ReadError(
                        String::from_str("stored bytes do not decode as a snapshot"),
                    ),
                ),
            },
            Option::None => Notice::LoadFailed(
                zone,
                StoreError::ReadError(String::from_str("no snapshot under the key")),
            ),
        }
    }

    /// Loads the snapshot under `key` for a direct reply: the snapshot when
    /// present, absent when the key was never written, a read failure when
    /// the stored bytes are corrupt.
    pub fn load_data(&self, key: &Key) -> (r: Result<Option<ZoneData>, StoreError>)
        requires
            store_wf(self@),
        ensures
            load_result_ok(self@.backend, key@, r),
    {
        classify_read(self.backend.read(key))
    }

    /// A zone asks for permission to write: grants immediately when the slot
    /// is free, otherwise queues the zone (at most once).
    pub fn request_write(&mut self, zone: ZoneId) -> (granted: bool)
        requires
            store_wf(old(self)@),
        ensures
            store_wf(final(self)@),
            final(self)@.backend == old(self)@.backend,
            (final(self)@.adm, granted) == request_transition(old(self)@.adm, zone),
    {
        self.admission.request_write(zone)
    }

    /// Performs the backend write, then — whatever the outcome — releases the
    /// write slot and grants the head of the queue, if any. Returns the
    /// outcome and the next grant.
    pub fn write(&mut self, key: &Key, bytes: Vec<u8>) -> (r: (bool, Option<ZoneId>))
        requires
            store_wf(old(self)@),
        ensures
            store_wf(final(self)@),
            r.0,
            final(self)@.backend == spec_store(old(self)@.backend, key@, bytes@),
            (final(self)@.adm, r.1) == complete_transition(old(self)@.adm, r.0),
    {
        let ok = self.backend.write(key, bytes);
        let next = self.admission.complete_write(ok);
        (ok, next)
    }

    /// Executes one command to completion and returns the notifications it
    /// owes, in delivery order. This is the actor's step: the surrounding
    /// process calls it once per dequeued command.
    pub fn process(&mut self, call: StoreCall) -> (notices: Vec<Notice>)
        requires
            store_wf(old(self)@),
        ensures
            store_wf(final(self)@),
            call is List ==> final(self)@ == old(self)@ && notices@.len()
                == old(self)@.backend.len() && (forall|i: int|
                0 <= i < notices@.len() ==> ((#[trigger] notices@[i]) matches Notice::KeyListed(k)
                    && k@ == old(self)@.backend[i].0)),
            call matches StoreCall::Load(z, k) ==> final(self)@ == old(self)@ && notices@.len()
                == 1 && load_notice_ok(old(self)@.backend, z, k@, notices@[0]),
            call matches StoreCall::LoadData(k) ==> final(self)@ == old(self)@ && notices@.len()
                == 1 && (notices@[0] matches Notice::DataReply(r) && load_result_ok(
                old(self)@.backend,
                k@,
                r,
            )),
            call matches StoreCall::RequestWrite(z) ==> {
                let (a2, granted) = request_transition(old(self)@.adm, z);
                &&& final(self)@.backend == old(self)@.backend
                &&& final(self)@.adm == a2
                &&& granted ==> notices@.len() == 1 && notices@[0] == Notice::WritePermitted(z)
                &&& !granted ==> notices@.len() == 0
            },
            call matches StoreCall::Write(z, k, bytes) ==> {
                let (a2, next) = complete_transition(old(self)@.adm, true);
                &&& final(self)@.backend == spec_store(old(self)@.backend, k@, bytes@)
                &&& final(self)@.adm == a2
                &&& notices@.len() >= 1
                &&& notices@[0] == Notice::WriteResult(z, Result::<(), StoreError>::Ok(()))
                &&& next matches Some(zn) ==> notices@.len() == 2 && notices@[1]
                    == Notice::WritePermitted(zn)
                &&& next is None ==> notices@.len() == 1
            },
    {
        match call {
            StoreCall::List => {
                let keys = self.list();
                let mut notices: Vec<Notice> = Vec::new();
                let mut i: usize = 0;
                while i < keys.len()
                    invariant
                        i <= keys@.len(),
                        keys@.len() == self@.backend.len(),
                        forall|j: int| 0 <= j < keys@.len() ==> keys@[j]@ == self@.backend[j].0,
                        notices@.len() == i,
                        forall|j: int|
                            0 <= j < i ==> ((#[trigger] notices@[j]) matches Notice::KeyListed(k)
                                && k@ == self@.backend[j].0),
                    decreases keys@.len() - i,
                {
                    notices.push(Notice::KeyListed(keys[i].clone()));
                    i = i + 1;
                }
                notices
            },
            StoreCall::Load(z, k) => {
                let n = self.load(z, &k);
                let mut notices: Vec<Notice> = Vec::new();
                notices.push(n);
                notices
            },
            StoreCall::LoadData(k) => {
                let r = self.load_data(&k);
                let mut notices: Vec<Notice> = Vec::new();
                notices.push(Notice::DataReply(r));
                notices
            },
            StoreCall::RequestWrite(z) => {
                let granted = self.request_write(z);
                let mut notices: Vec<Notice> = Vec::new();
                if granted {
                    notices.push(Notice::WritePermitted(z));
                }
                notices
            },
            StoreCall::Write(z, k, bytes) => {
                let (ok, next) = self.write(&k, bytes);
                let outcome: Result<(), StoreError> = if ok {
                    Result::Ok(())
                } else {
                    Result::Err(
                        StoreError::WriteError(String::from_str("backend could not persist")),
                    )
                };
                let mut notices: Vec<Notice> = Vec::new();
                notices.push(Notice::WriteResult(z, outcome));
                match next {
                    Option::Some(zn) => {
                        notices.push(Notice::WritePermitted(zn));
                    },
                    Option::None => {},
                }
                notices
            },
        }
    }
}

/// Write-then-load: once a write has stored the encoding of payload `p`
/// under key `k`, a lookup of `k` finds exactly that encoding, decoding it
/// yields `p` again, and therefore every `LoadData` reply the Store may give
/// for `k` is the snapshot that was written.
pub proof fn lemma_write_then_load(m: EntriesView, k: Seq<u8>, p: Seq<u8>)
    requires
        backend_wf(m),
        p.len() <= u64::MAX,
    ensures
        lookup(spec_store(m, k, spec_encode(p)), k) == Some(spec_encode(p)),
        spec_decode(spec_encode(p)) == Some(p),
        forall|r: Result<Option<ZoneData>, StoreError>|
            #[trigger] load_result_ok(spec_store(m, k, spec_encode(p)), k, r) ==> (r matches Ok(o)
                && o matches Some(d) && d@ == p),
{
    lemma_store_then_lookup(m, k, spec_encode(p));
    lemma_round_trip(p);
}

/// Write-then-list: after a write of key `k`, every listing of the resulting
/// backend yields `k` among its keys.
pub proof fn lemma_write_then_list(m: EntriesView, k: Seq<u8>, v: Seq<u8>, keys: Seq<Seq<u8>>)
    requires
        keys.len() == spec_store(m, k, v).len(),
        forall|i: int| 0 <= i < keys.len() ==> keys[i] == spec_store(m, k, v)[i].0,
    ensures
        exists|i: int| 0 <= i < keys.len() && keys[i] == k,
{
    lemma_store_then_contains(m, k, v);
    let m2 = spec_store(m, k, v);
    let w = choose|i: int| 0 <= i < m2.len() && m2[i].0 == k;
    assert(keys[w] == k);
}

/// Absent key: a key that no entry bears looks up to nothing, and every
/// `LoadData` reply the Store may give for it is absent — never a failure.
pub proof fn lemma_absent_key(m: EntriesView, k: Seq<u8>)
    requires
        !contains_key(m, k),
    ensures
        lookup(m, k) is None,
        forall|r: Result<Option<ZoneData>, StoreError>| #[trigger] load_result_ok(m, k, r) ==> r
            == Result::<Option<ZoneData>, StoreError>::Ok(Option::None),
{
}

/// A key other than the one just written keeps its absence: writing `k`
/// cannot make a never-written key `k2` appear.
pub proof fn lemma_write_keeps_others_absent(m: EntriesView, k: Seq<u8>, v: Seq<u8>, k2: Seq<u8>)
    requires
        backend_wf(m),
        k2 != k,
        !contains_key(m, k2),
    ensures
        lookup(spec_store(m, k, v), k2) is None,
{
    lemma_store_preserves_others(m, k, v, k2);
}

} // verus!
