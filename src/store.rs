//! The reservation store: an atomic claim-or-observe primitive over a
//! key/value cache whose entries expire.
//!
//! Time is a count of seconds handed in by the caller. An entry written at
//! `now` with a time-to-live of `ttl` is live while the time is below
//! `now + ttl`; afterwards the key reads as absent and can be claimed again.

use vstd::prelude::*;
use crate::response::copy_bytes;

verus! {

/// What a reservation holds: a placeholder while the owner is processing,
/// then the encoded response.
#[derive(Debug)]
pub enum Reservation {
    Pending,
    Complete(Vec<u8>),
}

/// The abstract value of a `Reservation`.
pub enum RecordView {
    Pending,
    Complete(Seq<u8>),
}

impl View for Reservation {
    type V = RecordView;

    open spec fn view(&self) -> RecordView {
        match self {
            Reservation::Pending => RecordView::Pending,
            Reservation::Complete(b) => RecordView::Complete(b@),
        }
    }
}

/// A record and the instant at which it expires.
pub struct Entry {
    pub record: RecordView,
    pub expires_at: u64,
}

/// The abstract state of a store: each key's entry.
pub type StoreView = Map<Seq<char>, Entry>;

/// Outcome of a claim.
#[derive(Debug, Clone, Copy, PartialEq, Eq, Structural)]
pub enum ClaimOutcome {
    /// The caller is now the sole owner of the key.
    Claimed,
    /// A live entry already holds the key.
    AlreadyClaimed,
}

/// Whether `k` holds an entry that has not expired at `now`.
pub open spec fn is_live(m: StoreView, k: Seq<char>, now: u64) -> bool {
    m.contains_key(k) && now < m[k].expires_at
}

/// The store after a claim of `k`, and whether the claim succeeded: it
/// succeeds exactly when `k` holds no live entry, and then writes a
/// placeholder that lives for `ttl` seconds.
pub open spec fn claim_step(m: StoreView, k: Seq<char>, ttl: u64, now: u64) -> (StoreView, bool) {
    if is_live(m, k, now) {
        (m, false)
    } else {
        (m.insert(k, Entry { record: RecordView::Pending, expires_at: (now + ttl) as u64 }), true)
    }
}

/// What a read of `k` at `now` returns.
pub open spec fn read_step(m: StoreView, k: Seq<char>, now: u64) -> Option<RecordView> {
    if is_live(m, k, now) {
        Some(m[k].record)
    } else {
        None
    }
}

/// The store after an unconditional write of `payload` under `k`, living for
/// `ttl` seconds from `now`.
pub open spec fn overwrite_step(
    m: StoreView,
    k: Seq<char>,
    payload: Seq<u8>,
    ttl: u64,
    now: u64,
) -> StoreView {
    m.insert(k, Entry { record: RecordView::Complete(payload), expires_at: (now + ttl) as u64 })
}

/// The outcomes of claims of `k` made one after another at the instants
/// `times`, starting from the store `m`: `true` for each that succeeds.
pub open spec fn claim_outcomes(m: StoreView, k: Seq<char>, ttl: u64, times: Seq<u64>) -> Seq<bool>
    decreases times.len(),
{
    if times.len() == 0 {
        Seq::empty()
    } else {
        let (m2, claimed) = claim_step(m, k, ttl, times[0]);
        seq![claimed] + claim_outcomes(m2, k, ttl, times.drop_first())
    }
}

proof fn lemma_claims_while_live(m: StoreView, k: Seq<char>, ttl: u64, times: Seq<u64>)
    requires
        m.contains_key(k),
        forall|i: int| 0 <= i < times.len() ==> #[trigger] times[i] < m[k].expires_at,
    ensures
        claim_outcomes(m, k, ttl, times).len() == times.len(),
        forall|i: int| 0 <= i < times.len() ==> !claim_outcomes(m, k, ttl, times)[i],
    decreases times.len(),
{
    if times.len() > 0 {
        let rest = times.drop_first();
        lemma_claims_while_live(m, k, ttl, rest);
        let outs = claim_outcomes(m, k, ttl, times);
        assert(outs == seq![false] + claim_outcomes(m, k, ttl, rest));
        assert forall|i: int| 0 <= i < times.len() implies !outs[i] by {
            if i > 0 {
                assert(outs[i] == claim_outcomes(m, k, ttl, rest)[i - 1]);
            }
        }
    }
}

/// Mutual exclusion: of any number of claims of one key, linearized at
/// instants that all fall within the time-to-live of the first, on a store
/// where the key holds no live entry when the first is made, exactly the
/// first succeeds and every other one finds the key already claimed.
pub proof fn lemma_mutual_exclusion(m: StoreView, k: Seq<char>, ttl: u64, times: Seq<u64>)
    requires
        times.len() >= 1,
        !is_live(m, k, times[0]),
        times[0] + ttl <= u64::MAX,
        forall|i: int| 0 <= i < times.len() ==> #[trigger] times[i] < times[0] + ttl,
    ensures
        claim_outcomes(m, k, ttl, times).len() == times.len(),
        claim_outcomes(m, k, ttl, times)[0],
        forall|i: int| 1 <= i < times.len() ==> !claim_outcomes(m, k, ttl, times)[i],
{
    let (m2, claimed) = claim_step(m, k, ttl, times[0]);
    let rest = times.drop_first();
    assert(m2.contains_key(k) && m2[k].expires_at == times[0] + ttl);
    lemma_claims_while_live(m2, k, ttl, rest);
    let outs = claim_outcomes(m, k, ttl, times);
    assert(outs == seq![claimed] + claim_outcomes(m2, k, ttl, rest));
    assert forall|i: int| 1 <= i < times.len() implies !outs[i] by {
        assert(outs[i] == claim_outcomes(m2, k, ttl, rest)[i - 1]);
    }
}

/// Renewal after expiry: a key claimed at `t` with a time-to-live of `ttl`
/// can, from `t + ttl` on, be claimed again, with the same effect as a claim
/// on a store that never held the key.
pub proof fn lemma_claim_after_expiry(
    m: StoreView,
    k: Seq<char>,
    ttl: u64,
    t: u64,
    ttl2: u64,
    now: u64,
)
    requires
        t + ttl <= u64::MAX,
        claim_step(m, k, ttl, t).1,
        t + ttl <= now,
    ensures
        claim_step(claim_step(m, k, ttl, t).0, k, ttl2, now).1,
        claim_step(claim_step(m, k, ttl, t).0, k, ttl2, now).0 == claim_step(
            m.remove(k),
            k,
            ttl2,
            now,
        ).0,
{
    let m1 = claim_step(m, k, ttl, t).0;
    assert(m1.insert(k, Entry { record: RecordView::Pending, expires_at: (now + ttl2) as u64 })
        =~= m.remove(k).insert(
        k,
        Entry { record: RecordView::Pending, expires_at: (now + ttl2) as u64 },
    ));
}

struct Slot {
    key: String,
    record: Reservation,
    expires_at: u64,
}

/// An in-process reservation store.
pub struct ReservationStore {
    slots: Vec<Slot>,
    entries: Ghost<StoreView>,
}

impl View for ReservationStore {
    type V = StoreView;

    closed spec fn view(&self) -> StoreView {
        self.entries@
    }
}

impl Reservation {
    /// A copy of the reservation.
    pub fn duplicate(&self) -> (r: Reservation)
        ensures
            r@ == self@,
    {
        match self {
            Reservation::Pending => Reservation::Pending,
            Reservation::Complete(b) => Reservation::Complete(copy_bytes(b)),
        }
    }

    /// Reads what a cache returned for a key: no value, or empty bytes (the
    /// placeholder), or the encoded response.
    pub fn from_stored_bytes(stored: Option<Vec<u8>>) -> (r: Option<Reservation>)
        ensures
            stored is None ==> r is None,
            stored matches Some(b) ==> (b@.len() == 0 ==> r == Some(Reservation::Pending)),
            stored matches Some(b) ==> (b@.len() > 0 ==> (r matches Some(Reservation::Complete(p))
                && p@ == b@)),
    {
        match stored {
            None => None,
            Some(b) => if b.len() == 0 {
                Some(Reservation::Pending)
            } else {
                Some(Reservation::Complete(b))
            },
        }
    }
}

impl ReservationStore {
    /// The store's internal invariant: slot keys are distinct, and the
    /// slots hold exactly the entries of the view.
    pub closed spec fn wf(&self) -> bool {
        &&& forall|i: int, j: int|
            0 <= i < j < self.slots@.len() ==> self.slots@[i].key@ != self.slots@[j].key@
        &&& forall|i: int|
            0 <= i < self.slots@.len() ==> #[trigger] self.entries@.contains_key(self.slots@[i].key@)
        &&& forall|i: int|
            0 <= i < self.slots@.len() ==> self.entries@[#[trigger] self.slots@[i].key@] == (Entry {
                record: self.slots@[i].record@,
                expires_at: self.slots@[i].expires_at,
            })
        &&& forall|k: Seq<char>|
            #[trigger] self.entries@.contains_key(k) ==> exists|i: int|
                0 <= i < self.slots@.len() && self.slots@[i].key@ == k
    }

    /// An empty store.
    pub fn new() -> (r: ReservationStore)
        ensures
            r.wf(),
            r@ == Map::<Seq<char>, Entry>::empty(),
    {
        ReservationStore { slots: Vec::new(), entries: Ghost(Map::empty()) }
    }

    fn find(&self, key: &String) -> (r: Option<usize>)
        requires
            self.wf(),
        ensures
            r matches Some(i) ==> i < self.slots@.len() && self.slots@[i as int].key@ == key@,
            r is None ==> !self@.contains_key(key@),
    {
        let mut i: usize = 0;
        while i < self.slots.len()
            invariant
                self.wf(),
                i <= self.slots@.len(),
                forall|j: int| 0 <= j < i ==> self.slots@[j].key@ != key@,
            decreases self.slots@.len() - i,
        {
            if self.slots[i].key == *key {
                return Some(i);
            }
            i = i + 1;
        }
        None
    }

    fn put(&mut self, key: String, record: Reservation, expires_at: u64)
        requires
            old(self).wf(),
        ensures
            final(self).wf(),
            final(self)@ == old(self)@.insert(
                key@,
                Entry { record: record@, expires_at },
            ),
    {
        let ghost k = key@;
        let ghost e = Entry { record: record@, expires_at };
        match self.find(&key) {
            Some(i) => {
                self.slots.set(i, Slot { key, record, expires_at });
                self.entries = Ghost(self.entries@.insert(k, e));
                assert forall|k2: Seq<char>| #[trigger] self.entries@.contains_key(k2) implies exists|
                    j: int,
                | 0 <= j < self.slots@.len() && self.slots@[j].key@ == k2 by {
                    if k2 != k {
                        let j = choose|j: int|
                            0 <= j < old(self).slots@.len() && old(self).slots@[j].key@ == k2;
                        assert(self.slots@[j].key@ == k2);
                    } else {
                        assert(self.slots@[i as int].key@ == k2);
                    }
                }
            },
            None => {
                self.slots.push(Slot { key, record, expires_at });
                self.entries = Ghost(self.entries@.insert(k, e));
                assert forall|k2: Seq<char>| #[trigger] self.entries@.contains_key(k2) implies exists|
                    j: int,
                | 0 <= j < self.slots@.len() && self.slots@[j].key@ == k2 by {
                    if k2 != k {
                        let j = choose|j: int|
                            0 <= j < old(self).slots@.len() && old(self).slots@[j].key@ == k2;
                        assert(self.slots@[j].key@ == k2);
                    } else {
                        assert(self.slots@[old(self).slots@.len() as int].key@ == k2);
                    }
                }
            },
        }
    }

    /// Claims `key` when it holds no live entry, writing a placeholder that
    /// lives for `ttl_seconds`; a single conditional write, with no prior read.
    pub fn try_claim(&mut self, key: &str, ttl_seconds: u64, now: u64) -> (r: ClaimOutcome)
        requires
            old(self).wf(),
            now + ttl_seconds <= u64::MAX,
        ensures
            final(self).wf(),
            (final(self)@, r == ClaimOutcome::Claimed) == claim_step(
                old(self)@,
                key@,
                ttl_seconds,
                now,
            ),
    {
        let k = key.to_owned();
        match self.find(&k) {
            Some(i) => {
                if now < self.slots[i].expires_at {
                    return ClaimOutcome::AlreadyClaimed;
                }
            },
            None => {},
        }
        self.put(k, Reservation::Pending, now + ttl_seconds);
        ClaimOutcome::Claimed
    }

    /// Reads the live entry of `key`, if there is one.
    pub fn read(&self, key: &str, now: u64) -> (r: Option<Reservation>)
        requires
            self.wf(),
        ensures
            r matches Some(x) ==> read_step(self@, key@, now) == Some(x@),
            r is None ==> read_step(self@, key@, now) is None,
    {
        let k = key.to_owned();
        match self.find(&k) {
            Some(i) => {
                if now < self.slots[i].expires_at {
                    Some(self.slots[i].record.duplicate())
                } else {
                    None
                }
            },
            None => None,
        }
    }

    /// Writes `payload` under `key` unconditionally, living for `ttl_seconds`
    /// from `now`.
    pub fn overwrite_with_ttl(&mut self, key: &str, payload: Vec<u8>, ttl_seconds: u64, now: u64)
        requires
            old(self).wf(),
            now + ttl_seconds <= u64::MAX,
        ensures
            final(self).wf(),
            final(self)@ == overwrite_step(old(self)@, key@, payload@, ttl_seconds, now),
    {
        self.put(key.to_owned(), Reservation::Complete(payload), now + ttl_seconds);
    }
}

} // verus!
