//! An in-memory rate limiter that keeps one independent bucket per key,
//! e.g. per customer or per IP address.
//!
//! The keyed limiter holds a map from keys to state cells behind a single
//! reader-writer lock. Checks on keys that are already present take the
//! lock for reading and synchronize on the key's own cell, so they do not
//! block checks on other keys; only the first check of a new key, and the
//! expiration sweep, take the map lock for writing. Each key's accounting
//! is fully independent: an operation on one key never touches the cell of
//! another.

use crate::algorithms::{Algorithm, RateLimitState};
use crate::clock::{Clock, MonotonicClock};
use crate::errors::{InconsistentCapacity, NegativeMultiDecision};
use crate::nanos::{sat_sub, Nanos};
use crate::thread_safety::{arc_clone, ThreadsafeWrapper};
use core::marker::PhantomData;
use std::sync::Arc;
use vstd::prelude::*;
use vstd::rwlock::{RwLock, RwLockPredicate};

verus! {

/// One entry of the keyed map: a key and the cell for its bucket.
pub type Entry<A> = (String, ThreadsafeWrapper<A>);

/// Well-formedness of the keyed map's entries: the parameters are
/// well-formed, every cell belongs to them, and no key occurs twice.
pub open spec fn entries_wf<A: Algorithm>(alg: A, s: Seq<Entry<A>>) -> bool {
    &&& alg.wf()
    &&& forall|i: int| 0 <= i < s.len() ==> (#[trigger] s[i]).1.alg() == alg
    &&& forall|i: int, j: int| #![trigger s[i], s[j]] 0 <= i < j < s.len() ==> s[i].0@ != s[j].0@
}

/// Whether some entry of `s` carries the key `k`.
pub open spec fn entries_have_key<A: Algorithm>(s: Seq<Entry<A>>, k: Seq<char>) -> bool {
    exists|i: int| 0 <= i < s.len() && (#[trigger] s[i]).0@ == k
}

/// Whether one of the collected key names is `k`.
pub open spec fn names_have_key(names: Seq<String>, k: Seq<char>) -> bool {
    exists|i: int| 0 <= i < names.len() && (#[trigger] names[i])@ == k
}

/// Whether a bucket state counts as expired at the sweep cutoff: its last
/// relevant instant lies strictly before the cutoff. A state whose last
/// relevant instant cannot be determined is treated as fresh.
pub open spec fn expired_at<A: Algorithm>(alg: A, s: A::BucketState, cutoff: Nanos) -> bool {
    match s.spec_last_touched(alg) {
        Some(x) => x.0 < cutoff.0,
        None => false,
    }
}

/// Whether some well-formed bucket state counts as expired at the cutoff:
/// what a caller of the sweep learns from each reported key, whose
/// observed state it cannot hold onto.
pub open spec fn some_expired_state<A: Algorithm>(alg: A, cutoff: Nanos) -> bool {
    exists|s: A::BucketState| alg.state_wf(s) && expired_at(alg, s, cutoff)
}

/// The lock invariant of the keyed map.
pub struct MapPred<A: Algorithm> {
    /// The algorithm whose buckets the map holds.
    pub alg: A,
}

impl<A: Algorithm> RwLockPredicate<Vec<Entry<A>>> for MapPred<A> {
    open spec fn inv(self, v: Vec<Entry<A>>) -> bool {
        entries_wf(self.alg, v@)
    }
}

/// Finds the entry carrying `key`, if any.
fn find_key<A: Algorithm>(entries: &Vec<Entry<A>>, key: &String) -> (r: Option<usize>)
    ensures
        match r {
            Some(i) => 0 <= i < entries@.len() && entries@[i as int].0@ == key@,
            None => forall|i: int| 0 <= i < entries@.len() ==> (#[trigger] entries@[i]).0@ != key@,
        },
{
    let mut i: usize = 0;
    while i < entries.len()
        invariant
            i <= entries@.len(),
            forall|j: int| 0 <= j < i ==> (#[trigger] entries@[j]).0@ != key@,
        decreases entries@.len() - i,
    {
        if entries[i].0 == *key {
            return Some(i);
        }
        i = i + 1;
    }
    None
}

/// The map transition of one keyed check, performed under the map's write
/// lock: run the decision against the key's cell, creating the entry from
/// a fresh bucket if the key is new. Every other entry — in particular
/// every other key's cell — is left exactly as it was: this is where the
/// keys' independence is stated and proved.
pub fn update_entries<A: Algorithm>(
    alg: &A,
    entries: &mut Vec<Entry<A>>,
    key: String,
    n: u32,
    at: Nanos,
) -> (r: Result<(), NegativeMultiDecision<A::NegativeDecision>>)
    requires
        alg.wf(),
        entries_wf(*alg, old(entries)@),
    ensures
        entries_wf(*alg, final(entries)@),
        forall|i: int|
            0 <= i < old(entries)@.len() ==> final(entries)@[i] == #[trigger] old(entries)@[i],
        final(entries)@.len() == old(entries)@.len() || (final(entries)@.len() == old(
            entries,
        )@.len() + 1 && final(entries)@.last().0@ == key@ && !entries_have_key(
            old(entries)@,
            key@,
        )),
        exists|s: A::BucketState| alg.state_wf(s) && r == alg.spec_result(s, n, at),
        // a key never seen before is decided from a fresh bucket
        !entries_have_key(old(entries)@, key@) ==> r == alg.spec_result(
            alg.spec_default_state(),
            n,
            at,
        ),
        entries_have_key(final(entries)@, key@),
        r matches Err(NegativeMultiDecision::BatchNonConforming(m, _)) ==> m == n,
        r matches Err(NegativeMultiDecision::InsufficientCapacity(m)) ==> m == n,
        (r matches Err(NegativeMultiDecision::InsufficientCapacity(m)) && m == n)
            <==> alg.spec_insufficient(n),
{
    match find_key(entries, &key) {
        Some(i) => {
            let cell = &entries[i].1;
            let r = cell.check_n_at(alg, n, at);
            proof {
                assert(entries@[i as int].0@ == key@);
            }
            r
        },
        None => {
            let mut s = alg.default_state();
            let r = alg.test_n_and_update(&mut s, n, at);
            let cell = ThreadsafeWrapper::new(alg, s);
            entries.push((key, cell));
            proof {
                assert(alg.state_wf(alg.spec_default_state()) && r == alg.spec_result(
                    alg.spec_default_state(),
                    n,
                    at,
                ));
                assert(entries@.last().0@ == key@);
            }
            r
        },
    }
}

/// The rolling invariant of the expiration sweep, after the first `i`
/// entries have been decided: `observed` holds one state observation per
/// decided entry; a decided entry's key has been reported in `removed`
/// exactly when its observed state had expired at the cutoff, and the
/// entry itself stays in `kept`, untouched, exactly when it had not; all
/// kept entries and reported keys come from decided entries, and no key
/// occurs twice on either side.
pub open spec fn sweep_inv<A: Algorithm>(
    alg: A,
    entries: Seq<Entry<A>>,
    kept: Seq<Entry<A>>,
    removed: Seq<String>,
    observed: Seq<A::BucketState>,
    cutoff: Nanos,
    i: int,
) -> bool {
    &&& 0 <= i <= entries.len()
    &&& observed.len() == i
    &&& forall|j: int| 0 <= j < i ==> alg.state_wf(#[trigger] observed[j])
    &&& forall|j: int|
        0 <= j < i ==> (expired_at(alg, #[trigger] observed[j], cutoff) <==> names_have_key(
            removed,
            entries[j].0@,
        ))
    &&& forall|j: int|
        0 <= j < i ==> (!expired_at(alg, #[trigger] observed[j], cutoff) <==> exists|x: int|
            0 <= x < kept.len() && kept[x] == entries[j])
    &&& forall|x: int|
        0 <= x < kept.len() ==> exists|j: int| 0 <= j < i && #[trigger] kept[x] == entries[j]
    &&& forall|x: int|
        0 <= x < removed.len() ==> exists|j: int|
            0 <= j < i && (#[trigger] removed[x])@ == entries[j].0@
    &&& forall|x: int, y: int|
        #![trigger removed[x], removed[y]]
        0 <= x < y < removed.len() ==> removed[x]@ != removed[y]@
    &&& forall|x: int, y: int|
        #![trigger kept[x], kept[y]]
        0 <= x < y < kept.len() ==> kept[x].0@ != kept[y].0@
}

/// The expiration sweep, performed under the map's write lock: partitions
/// the entries into those kept and the keys removed, deciding each entry
/// by one observation of its bucket state. The observations are returned
/// as a ghost sequence, one per input entry, and the contract ties the
/// partition to them: a key is reported removed exactly when the state
/// observed for it had expired at the cutoff, and an entry stays — with
/// its cell untouched — exactly when it had not.
pub fn sweep_entries<A: Algorithm>(alg: &A, entries: Vec<Entry<A>>, cutoff: Nanos) -> (out: (
    Vec<Entry<A>>,
    Vec<String>,
    Ghost<Seq<A::BucketState>>,
))
    requires
        alg.wf(),
        entries_wf(*alg, entries@),
    ensures
        entries_wf(*alg, out.0@),
        sweep_inv(*alg, entries@, out.0@, out.1@, out.2@, cutoff, entries@.len() as int),
        forall|x: int|
            0 <= x < out.1@.len() ==> entries_have_key(entries@, (#[trigger] out.1@[x])@)
                && !entries_have_key(out.0@, out.1@[x]@),
{
    let mut kept: Vec<Entry<A>> = Vec::new();
    let mut removed: Vec<String> = Vec::new();
    let ghost mut observed: Seq<A::BucketState> = Seq::empty();
    let mut i: usize = 0;
    while i < entries.len()
        invariant
            alg.wf(),
            entries_wf(*alg, entries@),
            i <= entries@.len(),
            sweep_inv(*alg, entries@, kept@, removed@, observed, cutoff, i as int),
        decreases entries@.len() - i,
    {
        let ghost kept0 = kept@;
        let ghost removed0 = removed@;
        let ghost observed0 = observed;
        let snapshot = entries[i].1.snapshot();
        let last = snapshot.last_touched(alg);
        let is_expired = match last {
            Some(x) => x.0 < cutoff.0,
            None => false,
        };
        if is_expired {
            let name = entries[i].0.clone();
            removed.push(name);
            proof {
                observed = observed.push(snapshot);
                assert(removed@ == removed0.push(entries@[i as int].0));
                lemma_sweep_removed_step(
                    *alg,
                    entries@,
                    kept0,
                    removed0,
                    observed0,
                    snapshot,
                    cutoff,
                    i as int,
                );
            }
        } else {
            let name = entries[i].0.clone();
            let cell = entries[i].1.clone();
            kept.push((name, cell));
            proof {
                observed = observed.push(snapshot);
                assert(kept@ == kept0.push(entries@[i as int]));
                lemma_sweep_kept_step(
                    *alg,
                    entries@,
                    kept0,
                    removed0,
                    observed0,
                    snapshot,
                    cutoff,
                    i as int,
                );
            }
        }
        i = i + 1;
    }
    proof {
        lemma_sweep_summary(*alg, entries@, kept@, removed@, observed, cutoff);
    }
    (kept, removed, Ghost(observed))
}

/// One removal step of the sweep keeps the rolling invariant: the entry
/// at hand was observed expired, so its key — which no other entry shares
/// — joins the reported keys, and the kept entries stay as they are.
proof fn lemma_sweep_removed_step<A: Algorithm>(
    alg: A,
    entries: Seq<Entry<A>>,
    kept0: Seq<Entry<A>>,
    removed0: Seq<String>,
    observed0: Seq<A::BucketState>,
    snapshot: A::BucketState,
    cutoff: Nanos,
    i: int,
)
    requires
        entries_wf(alg, entries),
        0 <= i < entries.len(),
        alg.state_wf(snapshot),
        expired_at(alg, snapshot, cutoff),
        sweep_inv(alg, entries, kept0, removed0, observed0, cutoff, i),
    ensures
        sweep_inv(
            alg,
            entries,
            kept0,
            removed0.push(entries[i].0),
            observed0.push(snapshot),
            cutoff,
            i + 1,
        ),
{
    let removed1 = removed0.push(entries[i].0);
    let observed1 = observed0.push(snapshot);
    assert forall|j: int| 0 <= j < i + 1 implies alg.state_wf(#[trigger] observed1[j]) by {
        if j < i {
            assert(observed1[j] == observed0[j]);
        } else {
            assert(observed1[j] == snapshot);
        }
    }
    assert forall|j: int| 0 <= j < i + 1 implies (expired_at(alg, #[trigger] observed1[j], cutoff)
        <==> names_have_key(removed1, entries[j].0@)) by {
        if j == i {
            assert(observed1[j] == snapshot);
            assert(removed1[removed0.len() as int]@ == entries[i].0@);
        } else {
            assert(observed1[j] == observed0[j]);
            if expired_at(alg, observed0[j], cutoff) {
                let x = choose|x: int| 0 <= x < removed0.len() && removed0[x]@ == entries[j].0@;
                assert(removed1[x]@ == entries[j].0@);
            }
            if names_have_key(removed1, entries[j].0@) {
                let x = choose|x: int| 0 <= x < removed1.len() && removed1[x]@ == entries[j].0@;
                if x == removed0.len() {
                    // the new name is entry i's key, which entry j cannot
                    // share
                    assert(entries[j].0@ != entries[i].0@);
                    assert(false);
                } else {
                    assert(removed0[x]@ == entries[j].0@);
                }
            }
        }
    }
    assert forall|j: int| 0 <= j < i + 1 implies (!expired_at(alg, #[trigger] observed1[j], cutoff)
        <==> exists|x: int| 0 <= x < kept0.len() && kept0[x] == entries[j]) by {
        if j == i {
            assert(observed1[j] == snapshot);
            if exists|x: int| 0 <= x < kept0.len() && kept0[x] == entries[i] {
                let x = choose|x: int| 0 <= x < kept0.len() && kept0[x] == entries[i];
                let j0 = choose|j0: int| 0 <= j0 < i && #[trigger] kept0[x] == entries[j0];
                assert(entries[j0].0@ != entries[i].0@);
                assert(false);
            }
        } else {
            assert(observed1[j] == observed0[j]);
        }
    }
    assert forall|x: int| 0 <= x < removed1.len() implies exists|j: int|
        0 <= j < i + 1 && (#[trigger] removed1[x])@ == entries[j].0@ by {
        if x < removed0.len() {
            assert(removed1[x] == removed0[x]);
            let j = choose|j: int| 0 <= j < i && (#[trigger] removed0[x])@ == entries[j].0@;
            assert(removed1[x]@ == entries[j].0@);
        } else {
            assert(removed1[x]@ == entries[i].0@);
        }
    }
    assert forall|x: int, y: int|
        #![trigger removed1[x], removed1[y]]
        0 <= x < y < removed1.len() implies removed1[x]@ != removed1[y]@ by {
        if y == removed0.len() {
            assert(removed1[x] == removed0[x]);
            let j = choose|j: int| 0 <= j < i && (#[trigger] removed0[x])@ == entries[j].0@;
            assert(entries[j].0@ != entries[i].0@);
            assert(removed1[y]@ == entries[i].0@);
        } else {
            assert(removed1[x] == removed0[x] && removed1[y] == removed0[y]);
        }
    }
}

/// One keep step of the sweep keeps the rolling invariant: the entry at
/// hand was observed fresh, so it joins the kept entries with its cell
/// untouched, and no other entry gains a match.
proof fn lemma_sweep_kept_step<A: Algorithm>(
    alg: A,
    entries: Seq<Entry<A>>,
    kept0: Seq<Entry<A>>,
    removed0: Seq<String>,
    observed0: Seq<A::BucketState>,
    snapshot: A::BucketState,
    cutoff: Nanos,
    i: int,
)
    requires
        entries_wf(alg, entries),
        0 <= i < entries.len(),
        alg.state_wf(snapshot),
        !expired_at(alg, snapshot, cutoff),
        sweep_inv(alg, entries, kept0, removed0, observed0, cutoff, i),
    ensures
        sweep_inv(
            alg,
            entries,
            kept0.push(entries[i]),
            removed0,
            observed0.push(snapshot),
            cutoff,
            i + 1,
        ),
{
    let kept1 = kept0.push(entries[i]);
    let observed1 = observed0.push(snapshot);
    assert forall|j: int| 0 <= j < i + 1 implies alg.state_wf(#[trigger] observed1[j]) by {
        if j < i {
            assert(observed1[j] == observed0[j]);
        } else {
            assert(observed1[j] == snapshot);
        }
    }
    assert forall|j: int| 0 <= j < i + 1 implies (expired_at(alg, #[trigger] observed1[j], cutoff)
        <==> names_have_key(removed0, entries[j].0@)) by {
        if j == i {
            assert(observed1[j] == snapshot);
            if names_have_key(removed0, entries[i].0@) {
                let x = choose|x: int| 0 <= x < removed0.len() && removed0[x]@ == entries[i].0@;
                let j0 = choose|j0: int|
                    0 <= j0 < i && (#[trigger] removed0[x])@ == entries[j0].0@;
                assert(entries[j0].0@ != entries[i].0@);
                assert(false);
            }
        } else {
            assert(observed1[j] == observed0[j]);
        }
    }
    assert forall|j: int| 0 <= j < i + 1 implies (!expired_at(alg, #[trigger] observed1[j], cutoff)
        <==> exists|x: int| 0 <= x < kept1.len() && kept1[x] == entries[j]) by {
        if j == i {
            assert(observed1[j] == snapshot);
            assert(kept1[kept0.len() as int] == entries[i]);
        } else {
            assert(observed1[j] == observed0[j]);
            if !expired_at(alg, observed0[j], cutoff) {
                let x = choose|x: int| 0 <= x < kept0.len() && kept0[x] == entries[j];
                assert(kept1[x] == entries[j]);
            }
            if exists|x: int| 0 <= x < kept1.len() && kept1[x] == entries[j] {
                let x = choose|x: int| 0 <= x < kept1.len() && kept1[x] == entries[j];
                if x == kept0.len() {
                    assert(entries[j].0@ != entries[i].0@);
                    assert(false);
                } else {
                    assert(kept0[x] == entries[j]);
                }
            }
        }
    }
    assert forall|x: int| 0 <= x < kept1.len() implies exists|j: int|
        0 <= j < i + 1 && #[trigger] kept1[x] == entries[j] by {
        if x < kept0.len() {
            assert(kept1[x] == kept0[x]);
            let j = choose|j: int| 0 <= j < i && #[trigger] kept0[x] == entries[j];
            assert(kept1[x] == entries[j]);
        } else {
            assert(kept1[x] == entries[i]);
        }
    }
    assert forall|x: int, y: int|
        #![trigger kept1[x], kept1[y]]
        0 <= x < y < kept1.len() implies kept1[x].0@ != kept1[y].0@ by {
        if y == kept0.len() {
            assert(kept1[x] == kept0[x]);
            let jx = choose|jx: int| 0 <= jx < i && #[trigger] kept0[x] == entries[jx];
            assert(entries[jx].0@ != entries[i].0@);
            assert(kept1[y] == entries[i]);
        } else {
            assert(kept1[x] == kept0[x] && kept1[y] == kept0[y]);
        }
    }
}

/// What the finished sweep guarantees beyond its rolling invariant: the
/// kept entries are well-formed again, and every reported key was present
/// and has no entry left.
proof fn lemma_sweep_summary<A: Algorithm>(
    alg: A,
    entries: Seq<Entry<A>>,
    kept: Seq<Entry<A>>,
    removed: Seq<String>,
    observed: Seq<A::BucketState>,
    cutoff: Nanos,
)
    requires
        entries_wf(alg, entries),
        sweep_inv(alg, entries, kept, removed, observed, cutoff, entries.len() as int),
    ensures
        entries_wf(alg, kept),
        forall|x: int|
            0 <= x < removed.len() ==> entries_have_key(entries, (#[trigger] removed[x])@)
                && !entries_have_key(kept, removed[x]@),
{
    assert forall|x: int| 0 <= x < kept.len() implies (#[trigger] kept[x]).1.alg() == alg by {
        let j = choose|j: int| 0 <= j < entries.len() && #[trigger] kept[x] == entries[j];
        assert(entries[j].1.alg() == alg);
    }
    assert forall|x: int| 0 <= x < removed.len() implies entries_have_key(
        entries,
        (#[trigger] removed[x])@,
    ) && !entries_have_key(kept, removed[x]@) by {
        let j = choose|j: int| 0 <= j < entries.len() && (#[trigger] removed[x])@ == entries[j].0@;
        assert(entries[j].0@ == removed[x]@);
        assert(names_have_key(removed, entries[j].0@));
        assert(expired_at(alg, observed[j], cutoff));
        if entries_have_key(kept, removed[x]@) {
            let y = choose|y: int| 0 <= y < kept.len() && (#[trigger] kept[y]).0@ == removed[x]@;
            let j2 = choose|j2: int| 0 <= j2 < entries.len() && #[trigger] kept[y] == entries[j2];
            if j2 != j {
                assert(entries[j2].0@ != entries[j].0@);
            }
            assert(j2 == j);
            assert(exists|z: int| 0 <= z < kept.len() && kept[z] == entries[j]);
            assert(!expired_at(alg, observed[j], cutoff));
            assert(false);
        }
    }
}

/// An in-memory rate limiter that regulates one rate envelope over
/// multiple keys.
///
/// Cloning the limiter shares the map: all clones regulate the same set of
/// buckets. Every decision reflects the algorithm's exact transition on
/// some well-formed state the key's cell held while the call ran; the
/// first check of a key runs the transition on a fresh bucket.
pub struct KeyedRateLimiter<A: Algorithm = crate::algorithms::leaky_bucket::LeakyBucket, C: Clock =
    MonotonicClock> {
    algorithm: A,
    map: Arc<RwLock<Vec<Entry<A>>, MapPred<A>>>,
    clock: C,
}

impl<A: Algorithm, C: Clock> KeyedRateLimiter<A, C> {
    /// The map's lock invariant carries the limiter's own parameters.
    #[verifier::type_invariant]
    spec fn type_inv(&self) -> bool {
        (*self.map).pred() == (MapPred { alg: self.algorithm }) && self.algorithm.wf()
    }

    /// The algorithm parameters this limiter enforces on every key.
    pub closed spec fn spec_algorithm(&self) -> A {
        self.algorithm
    }

    /// The clock this limiter reads when no instant is supplied.
    pub closed spec fn spec_clock(&self) -> C {
        self.clock
    }

    /// Constructs a keyed rate limiter that allows `capacity` cells of
    /// weight one per `per_time_unit`, for each key independently.
    pub fn new(capacity: u32, per_time_unit: Nanos) -> (r: KeyedRateLimiter<A, C>) where
        C: Default
        requires
            capacity >= 1,
        ensures
            r.spec_algorithm() == A::spec_params(capacity, 1, per_time_unit),
    {
        let algorithm = match A::construct(capacity, 1, per_time_unit) {
            Ok(a) => a,
            Err(_) => vstd::pervasive::unreached(),
        };
        let entries: Vec<Entry<A>> = Vec::new();
        let ghost pred = MapPred { alg: algorithm };
        KeyedRateLimiter {
            map: Arc::new(RwLock::new(entries, Ghost(pred))),
            algorithm,
            clock: C::default(),
        }
    }

    /// Constructs a keyed rate limiter that allows `capacity` cells per
    /// second, for each key independently.
    pub fn per_second(capacity: u32) -> (r: KeyedRateLimiter<A, C>) where C: Default
        requires
            capacity >= 1,
        ensures
            r.spec_algorithm() == A::spec_params(capacity, 1, Nanos(1000000000)),
    {
        Self::new(capacity, Nanos::from_secs(1))
    }

    /// Returns a builder for a keyed rate limiter with the given capacity.
    pub fn build_with_capacity(capacity: u32) -> (r: Builder<A, C>) where C: Default
        ensures
            r.capacity == capacity,
            r.cell_weight == 1,
            r.per_time_unit.0 == 1000000000,
    {
        Builder {
            capacity,
            cell_weight: 1,
            per_time_unit: Nanos::from_secs(1),
            map_capacity: None,
            clock: C::default(),
            end_result: PhantomData,
        }
    }

    /// Tests whether `n` cells for the given key can be accommodated at
    /// the given instant; on a positive decision the key's state accounts
    /// for all of them. The first check of a key starts from a fresh
    /// bucket; no other key's state is touched.
    pub fn check_n_at(&mut self, key: String, n: u32, at: Nanos) -> (r: Result<
        (),
        NegativeMultiDecision<A::NegativeDecision>,
    >)
        ensures
            *final(self) == *old(self),
            exists|s: A::BucketState|
                old(self).spec_algorithm().state_wf(s) && r == old(
                    self,
                ).spec_algorithm().spec_result(s, n, at),
            r matches Err(NegativeMultiDecision::BatchNonConforming(m, _)) ==> m == n,
            r matches Err(NegativeMultiDecision::InsufficientCapacity(m)) ==> m == n,
            (r matches Err(NegativeMultiDecision::InsufficientCapacity(m)) && m == n) <==> old(
                self,
            ).spec_algorithm().spec_insufficient(n),
    {
        proof {
            use_type_invariant(&*self);
        }
        let read = self.map.acquire_read();
        let found = {
            let entries = read.borrow();
            match find_key(entries, &key) {
                Some(i) => {
                    let cell = &entries[i].1;
                    Some(cell.check_n_at(&self.algorithm, n, at))
                },
                None => None,
            }
        };
        read.release_read();
        match found {
            Some(r) => {
                proof {
                    let a = old(self).spec_algorithm();
                    let s0 = choose|s: A::BucketState|
                        a.state_wf(s) && r == a.spec_result(s, n, at);
                    assert(a.state_wf(s0) && r == a.spec_result(s0, n, at));
                }
                r
            },
            None => {
                let (mut entries, handle) = self.map.acquire_write();
                let r = update_entries(&self.algorithm, &mut entries, key, n, at);
                handle.release_write(entries);
                proof {
                    let a = old(self).spec_algorithm();
                    let s0 = choose|s: A::BucketState|
                        a.state_wf(s) && r == a.spec_result(s, n, at);
                    assert(a.state_wf(s0) && r == a.spec_result(s0, n, at));
                }
                r
            },
        }
    }

    /// Tests whether a single cell for the given key can be accommodated
    /// at the given instant. See [`Self::check_n_at`].
    pub fn check_at(&mut self, key: String, at: Nanos) -> (r: Result<(), A::NegativeDecision>)
        ensures
            *final(self) == *old(self),
            exists|s: A::BucketState|
                old(self).spec_algorithm().state_wf(s) && crate::algorithms::single_decision_for(
                    old(self).spec_algorithm(),
                    s,
                    at,
                    r,
                ),
    {
        proof {
            use_type_invariant(&*self);
            self.algorithm.lemma_single_cell();
        }
        let rn = self.check_n_at(key, 1, at);
        let ghost a = old(self).spec_algorithm();
        let ghost s0 = choose|s: A::BucketState| a.state_wf(s) && rn == a.spec_result(s, 1, at);
        match rn {
            Ok(()) => {
                proof {
                    assert(a.state_wf(s0) && crate::algorithms::single_decision_for(
                        a,
                        s0,
                        at,
                        Ok::<(), A::NegativeDecision>(()),
                    ));
                }
                Ok(())
            },
            Err(NegativeMultiDecision::BatchNonConforming(_, nc)) => {
                proof {
                    assert(a.state_wf(s0) && crate::algorithms::single_decision_for(
                        a,
                        s0,
                        at,
                        Err::<(), A::NegativeDecision>(nc),
                    ));
                }
                Err(nc)
            },
            Err(NegativeMultiDecision::InsufficientCapacity(_)) => {
                // excluded: a batch of one always fits a well-formed bucket
                vstd::pervasive::unreached()
            },
        }
    }

    /// Tests whether a single cell for the given key can be accommodated
    /// at the clock's current reading. See [`Self::check_at`].
    pub fn check(&mut self, key: String) -> (r: Result<(), A::NegativeDecision>)
        ensures
            *final(self) == *old(self),
            exists|t: Nanos, s: A::BucketState|
                old(self).spec_clock().spec_reading(t) && old(self).spec_algorithm().state_wf(s)
                    && crate::algorithms::single_decision_for(old(self).spec_algorithm(), s, t, r),
    {
        let at = self.clock.now();
        let r = self.check_at(key, at);
        proof {
            let a = old(self).spec_algorithm();
            let s0 = choose|s: A::BucketState|
                a.state_wf(s) && crate::algorithms::single_decision_for(a, s, at, r);
            assert(old(self).spec_clock().spec_reading(at) && a.state_wf(s0)
                && crate::algorithms::single_decision_for(a, s0, at, r));
        }
        r
    }

    /// Tests whether `n` cells for the given key can be accommodated at
    /// the clock's current reading. See [`Self::check_n_at`].
    pub fn check_n(&mut self, key: String, n: u32) -> (r: Result<
        (),
        NegativeMultiDecision<A::NegativeDecision>,
    >)
        ensures
            *final(self) == *old(self),
            exists|t: Nanos, s: A::BucketState|
                old(self).spec_clock().spec_reading(t) && old(self).spec_algorithm().state_wf(s)
                    && r == old(self).spec_algorithm().spec_result(s, n, t),
            r matches Err(NegativeMultiDecision::BatchNonConforming(m, _)) ==> m == n,
            r matches Err(NegativeMultiDecision::InsufficientCapacity(m)) ==> m == n,
            (r matches Err(NegativeMultiDecision::InsufficientCapacity(m)) && m == n) <==> old(
                self,
            ).spec_algorithm().spec_insufficient(n),
    {
        let at = self.clock.now();
        let r = self.check_n_at(key, n, at);
        proof {
            let a = old(self).spec_algorithm();
            let s0 = choose|s: A::BucketState| a.state_wf(s) && r == a.spec_result(s, n, at);
            assert(old(self).spec_clock().spec_reading(at) && a.state_wf(s0) && r == a.spec_result(
                s0,
                n,
                at,
            ));
        }
        r
    }

    /// Removes the keys whose buckets can be expired safely at the given
    /// instant and returns them. A key is eligible when the bucket state
    /// observed for it was last relevant more than `min_age` before `at`;
    /// its next check starts from a fresh bucket.
    pub fn cleanup_at(&mut self, min_age: Option<Nanos>, at: Nanos) -> (removed: Vec<String>)
        ensures
            *final(self) == *old(self),
            removed@.len() > 0 ==> some_expired_state(
                old(self).spec_algorithm(),
                Nanos(
                    sat_sub(
                        at.0,
                        match min_age {
                            Some(d) => d.0,
                            None => 0u64,
                        },
                    ),
                ),
            ),
            forall|x: int, y: int|
                #![trigger removed@[x], removed@[y]]
                0 <= x < y < removed@.len() ==> removed@[x]@ != removed@[y]@,
    {
        proof {
            use_type_invariant(&*self);
        }
        let age = match min_age {
            Some(d) => d,
            None => Nanos(0),
        };
        let cutoff = at.saturating_sub(age);
        let (entries, handle) = self.map.acquire_write();
        let ghost entries0 = entries@;
        let (kept, removed, observed) = sweep_entries(&self.algorithm, entries, cutoff);
        handle.release_write(kept);
        proof {
            if removed@.len() > 0 {
                let j = choose|j: int|
                    0 <= j < entries0.len() && (#[trigger] entries0[j]).0@ == removed@[0]@;
                assert(names_have_key(removed@, entries0[j].0@));
                assert(expired_at(old(self).spec_algorithm(), observed@[j], cutoff));
            }
        }
        removed
    }

    /// Removes the keys whose buckets can be expired safely at the
    /// clock's current reading and returns them. See [`Self::cleanup_at`].
    pub fn cleanup(&mut self, min_age: Option<Nanos>) -> (removed: Vec<String>)
        ensures
            *final(self) == *old(self),
            forall|x: int, y: int|
                #![trigger removed@[x], removed@[y]]
                0 <= x < y < removed@.len() ==> removed@[x]@ != removed@[y]@,
            exists|t: Nanos|
                old(self).spec_clock().spec_reading(t) && (removed@.len() > 0
                    ==> some_expired_state(
                    old(self).spec_algorithm(),
                    Nanos(
                        sat_sub(
                            t.0,
                            match min_age {
                                Some(d) => d.0,
                                None => 0u64,
                            },
                        ),
                    ),
                )),
    {
        let at = self.clock.now();
        let removed = self.cleanup_at(min_age, at);
        proof {
            assert(old(self).spec_clock().spec_reading(at));
        }
        removed
    }
}

impl<A: Algorithm + Copy, C: Clock + Clone> Clone for KeyedRateLimiter<A, C> {
    /// Cloning shares the map: the clone regulates the same buckets.
    fn clone(&self) -> (r: Self)
        ensures
            r.spec_algorithm() == self.spec_algorithm(),
    {
        proof {
            use_type_invariant(self);
        }
        KeyedRateLimiter {
            map: arc_clone(&self.map),
            algorithm: self.algorithm,
            clock: self.clock.clone(),
        }
    }
}

/// An incremental constructor for [`KeyedRateLimiter`]s.
pub struct Builder<A: Algorithm, C: Clock> {
    /// The number of cells allowed per time unit, for each key.
    pub capacity: u32,
    /// The weight of each cell checked against a bucket.
    pub cell_weight: u32,
    /// The unit of time within which each bucket drains.
    pub per_time_unit: Nanos,
    /// The initial number of keys the map should make room for.
    pub map_capacity: Option<usize>,
    /// The clock the limiter will read.
    pub clock: C,
    /// Pins the algorithm type the limiter will be built with.
    pub end_result: PhantomData<A>,
}

impl<A: Algorithm, C: Clock + Default> Default for Builder<A, C> {
    /// A builder for one cell of weight one per second.
    fn default() -> (r: Builder<A, C>)
        ensures
            r.capacity == 1,
            r.cell_weight == 1,
            r.per_time_unit.0 == 1000000000,
            r.map_capacity is None,
    {
        Builder {
            capacity: 1,
            cell_weight: 1,
            per_time_unit: Nanos::from_secs(1),
            map_capacity: None,
            clock: C::default(),
            end_result: PhantomData,
        }
    }
}

impl<A: Algorithm, C: Clock> Builder<A, C> {
    /// Sets the weight of each cell being checked against a bucket.
    pub fn with_cell_weight(self, cell_weight: u32) -> (r: Result<
        Builder<A, C>,
        InconsistentCapacity,
    >)
        ensures
            (r is Ok) <==> 1 <= cell_weight <= self.capacity,
            r matches Ok(b) ==> b == (Builder { cell_weight, ..self }),
            r matches Err(e) ==> e == (InconsistentCapacity {
                capacity: self.capacity,
                cell_weight,
            }),
    {
        if cell_weight == 0 || cell_weight > self.capacity {
            return Err(InconsistentCapacity::new(self.capacity, cell_weight));
        }
        Ok(Builder { cell_weight, ..self })
    }

    /// Sets the initial number of keys that the map makes room for.
    pub fn with_map_capacity(self, map_capacity: usize) -> (r: Builder<A, C>)
        ensures
            r == (Builder { map_capacity: Some(map_capacity), ..self }),
    {
        Builder { map_capacity: Some(map_capacity), ..self }
    }

    /// Sets the clock used by the limiter.
    pub fn using_clock(self, clock: C) -> (r: Builder<A, C>)
        ensures
            r == (Builder { clock, ..self }),
    {
        Builder { clock, ..self }
    }

    /// Builds a keyed rate limiter from the accumulated parameters.
    pub fn build(self) -> (r: Result<KeyedRateLimiter<A, C>, InconsistentCapacity>)
        ensures
            (r is Ok) <==> 1 <= self.cell_weight <= self.capacity,
            r matches Ok(l) ==> l.spec_algorithm() == A::spec_params(
                self.capacity,
                self.cell_weight,
                self.per_time_unit,
            ) && l.spec_clock() == self.clock,
            r matches Err(e) ==> e == (InconsistentCapacity {
                capacity: self.capacity,
                cell_weight: self.cell_weight,
            }),
    {
        let algorithm = match A::construct(self.capacity, self.cell_weight, self.per_time_unit) {
            Ok(a) => a,
            Err(e) => {
                return Err(e);
            },
        };
        let entries: Vec<Entry<A>> = match self.map_capacity {
            Some(c) => Vec::with_capacity(c),
            None => Vec::new(),
        };
        let ghost pred = MapPred { alg: algorithm };
        Ok(
            KeyedRateLimiter {
                map: Arc::new(RwLock::new(entries, Ghost(pred))),
                algorithm,
                clock: self.clock,
            },
        )
    }
}

} // verus!
