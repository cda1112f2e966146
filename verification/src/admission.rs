//! The write-admission state machine.
//!
//! At most one backend write may be in flight at a time. A zone that wants to
//! write asks for permission first: when the Store is idle the grant is issued
//! immediately and the slot becomes busy; otherwise the zone joins a FIFO
//! queue (at most once). When a write completes — whether it succeeded or
//! failed — the slot is released and the head of the queue, if any, receives
//! the next grant.

use vstd::prelude::*;

verus! {

/// A zone reference, as the admission logic sees it: an opaque identifier
/// under which grant notifications are addressed.
pub type ZoneId = u64;

/// The admission state as contracts see it: the busy flag and the queue of
/// zones waiting for a grant.
#[verifier::ext_equal]
pub ghost struct AdmissionView {
    pub busy: bool,
    pub pending: Seq<ZoneId>,
}

/// Well-formedness: nobody waits while the slot is free, and no zone waits
/// twice.
pub open spec fn admission_wf(s: AdmissionView) -> bool {
    &&& !s.busy ==> s.pending.len() == 0
    &&& s.pending.no_duplicates()
}

/// The state of a Store that has granted nothing and owes nothing.
pub open spec fn init_admission() -> AdmissionView {
    AdmissionView { busy: false, pending: Seq::empty() }
}

/// What a write request does: an immediate grant when the slot is free,
/// otherwise a FIFO queue entry — at most one per zone, a repeated request
/// changes nothing. The returned flag says whether the grant was issued now.
pub open spec fn request_transition(s: AdmissionView, z: ZoneId) -> (AdmissionView, bool) {
    if !s.busy {
        (AdmissionView { busy: true, pending: s.pending }, true)
    } else if s.pending.contains(z) {
        (s, false)
    } else {
        (AdmissionView { busy: s.busy, pending: s.pending.push(z) }, false)
    }
}

/// What completing a write does, whatever its outcome `ok`: release the slot,
/// then grant the head of the queue if one waits (making the slot busy again).
pub open spec fn complete_transition(s: AdmissionView, ok: bool) -> (AdmissionView, Option<ZoneId>) {
    if s.pending.len() > 0 {
        (AdmissionView { busy: true, pending: s.pending.drop_first() }, Some(s.pending[0]))
    } else {
        (AdmissionView { busy: false, pending: s.pending }, None)
    }
}

/// The zone granted by the (n+1)-th completion after state `s`, with no
/// further requests arriving in between.
pub open spec fn nth_grant(s: AdmissionView, n: nat) -> Option<ZoneId>
    decreases n,
{
    if n == 0 {
        complete_transition(s, true).1
    } else {
        nth_grant(complete_transition(s, true).0, (n - 1) as nat)
    }
}

/// The admission state, as the actor holds it.
pub struct Admission {
    busy: bool,
    pending: Vec<ZoneId>,
}

impl View for Admission {
    type V = AdmissionView;

    closed spec fn view(&self) -> AdmissionView {
        AdmissionView { busy: self.busy, pending: self.pending@ }
    }
}

/// Whether `v` holds `z`.
fn contains_zone(v: &Vec<ZoneId>, z: ZoneId) -> (r: bool)
    ensures
        r == v@.contains(z),
{
    let mut i: usize = 0;
    while i < v.len()
        invariant
            i <= v@.len(),
            forall|j: int| 0 <= j < i ==> v@[j] != z,
        decreases v@.len() - i,
    {
        if v[i] == z {
            return true;
        }
        i = i + 1;
    }
    false
}

impl Admission {
    /// A fresh admission state: slot free, queue empty.
    pub fn new() -> (a: Admission)
        ensures
            a@ == init_admission(),
            admission_wf(a@),
    {
        let a = Admission { busy: false, pending: Vec::new() };
        proof {
            assert(a@ =~= init_admission());
        }
        a
    }

    /// Whether a backend write is currently outstanding.
    pub fn busy(&self) -> (b: bool)
        ensures
            b == self@.busy,
    {
        self.busy
    }

    /// How many zones wait for a grant.
    pub fn pending_count(&self) -> (n: usize)
        ensures
            n == self@.pending.len(),
    {
        self.pending.len()
    }

    /// A zone asks for permission to write. Grants immediately when the slot
    /// is free; otherwise queues the zone unless it already waits.
    pub fn request_write(&mut self, z: ZoneId) -> (granted: bool)
        requires
            admission_wf(old(self)@),
        ensures
            admission_wf(final(self)@),
            (final(self)@, granted) == request_transition(old(self)@, z),
    {
        if !self.busy {
            self.busy = true;
            proof {
                assert(self@ =~= request_transition(old(self)@, z).0);
            }
            true
        } else if contains_zone(&self.pending, z) {
            proof {
                assert(self@ =~= request_transition(old(self)@, z).0);
            }
            false
        } else {
            self.pending.push(z);
            proof {
                assert(self@ =~= request_transition(old(self)@, z).0);
            }
            false
        }
    }

    /// A write finished with outcome `ok`. Releases the slot and, if a zone
    /// waits, grants the head of the queue and occupies the slot again.
    pub fn complete_write(&mut self, ok: bool) -> (next: Option<ZoneId>)
        requires
            admission_wf(old(self)@),
        ensures
            admission_wf(final(self)@),
            (final(self)@, next) == complete_transition(old(self)@, ok),
    {
        if self.pending.len() > 0 {
            let z: u64 = self.pending.remove(0);
            self.busy = true;
            proof {
                assert(self@.pending =~= complete_transition(old(self)@, ok).0.pending);
                assert(self@ =~= complete_transition(old(self)@, ok).0);
            }
            Some(z)
        } else {
            self.busy = false;
            proof {
                assert(self@ =~= complete_transition(old(self)@, ok).0);
            }
            None
        }
    }
}

/// Mutual exclusion: when two zones both request the write slot while the
/// Store is idle, exactly one is granted immediately; the other is queued and
/// granted only once the first zone's write completes.
pub proof fn lemma_mutual_exclusion(s: AdmissionView, a: ZoneId, b: ZoneId, ok: bool)
    requires
        admission_wf(s),
        !s.busy,
        a != b,
    ensures
        ({
            let (s1, g1) = request_transition(s, a);
            let (s2, g2) = request_transition(s1, b);
            let (s3, next) = complete_transition(s2, ok);
            &&& g1
            &&& !g2
            &&& next == Some(b)
            &&& s3.pending.len() == 0
        }),
{
    let (s1, g1) = request_transition(s, a);
    let (s2, g2) = request_transition(s1, b);
    assert(s2.pending =~= s.pending.push(b));
    assert(s2.pending[0] == b);
    assert(complete_transition(s2, ok).0.pending.len() == 0);
}

/// Completions grant queued zones in queue order: the (n+1)-th completion
/// after `s` grants the zone at position n of the queue.
pub proof fn lemma_grants_follow_queue(s: AdmissionView, n: nat)
    requires
        n < s.pending.len(),
    ensures
        nth_grant(s, n) == Some(s.pending[n as int]),
    decreases n,
{
    if n > 0 {
        let s2 = complete_transition(s, true).0;
        lemma_grants_follow_queue(s2, (n - 1) as nat);
        assert(s2.pending[n - 1] == s.pending[n as int]);
    }
}

/// FIFO fairness: if zone `c` queues and then zone `d` queues while a write is
/// in progress, `c` is granted strictly before `d`.
pub proof fn lemma_fifo_fairness(s: AdmissionView, c: ZoneId, d: ZoneId)
    requires
        admission_wf(s),
        s.busy,
        c != d,
        !s.pending.contains(c),
        !s.pending.contains(d),
    ensures
        ({
            let (s1, g1) = request_transition(s, c);
            let (s2, g2) = request_transition(s1, d);
            &&& !g1
            &&& !g2
            &&& nth_grant(s2, s.pending.len()) == Some(c)
            &&& nth_grant(s2, s.pending.len() + 1) == Some(d)
        }),
{
    let (s1, g1) = request_transition(s, c);
    let (s2, g2) = request_transition(s1, d);
    assert(s2.pending =~= s.pending.push(c).push(d));
    assert(s2.pending[s.pending.len() as int] == c);
    assert(s2.pending[s.pending.len() as int + 1] == d);
    lemma_grants_follow_queue(s2, s.pending.len());
    lemma_grants_follow_queue(s2, s.pending.len() + 1);
}

/// Failure non-starvation: completing a write releases the slot and advances
/// the queue in exactly the same way whether the backend write succeeded or
/// failed; a failing zone cannot starve the zones behind it.
pub proof fn lemma_failure_non_starvation(s: AdmissionView)
    ensures
        complete_transition(s, true) == complete_transition(s, false),
        s.pending.len() > 0 ==> complete_transition(s, false).1 == Some(s.pending[0])
            && complete_transition(s, false).0.busy,
        s.pending.len() == 0 ==> !complete_transition(s, false).0.busy,
{
}

} // verus!
