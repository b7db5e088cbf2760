//! The target cache: a memoizing nearest-entity lookup.
//!
//! A travel action owns one [`CachedFinder`]. The first successful lookup
//! selects the candidate nearest to the agent and remembers it; later
//! lookups return the remembered entity unchanged for as long as it remains
//! in the candidate set — even when a strictly closer candidate appears —
//! so the agent never thrashes between targets mid-travel. When the
//! remembered entity disappears from the set, the lookup falls back to a
//! fresh nearest-candidate search.

use vstd::prelude::*;

use crate::geom::{dist2, distance_squared, Point};

verus! {

/// One entity a travel action may head for: its identity and its position.
#[derive(Clone, Copy, PartialEq, Eq, Structural, Debug)]
pub struct Candidate {
    /// Identity of the location entity.
    pub entity: u64,
    /// Its world position.
    pub position: Point,
}

/// Whether some candidate in `s` is the entity `id`.
pub open spec fn has_entity(s: Seq<Candidate>, id: u64) -> bool {
    exists|i: int| 0 <= i < s.len() && s[i].entity == id
}

/// The index of the candidate that is the entity `id`; meaningful when
/// `has_entity(s, id)` holds and the entities of `s` are distinct.
pub open spec fn entity_index(s: Seq<Candidate>, id: u64) -> int {
    choose|i: int| 0 <= i < s.len() && s[i].entity == id
}

/// Every pair of distinct candidates names distinct entities.
pub open spec fn entities_unique(s: Seq<Candidate>) -> bool {
    forall|i: int, j: int| 0 <= i < j < s.len() ==> s[i].entity != s[j].entity
}

/// With distinct entities, any index whose candidate is `id` is the index
/// that `entity_index` denotes.
pub proof fn lemma_entity_index(s: Seq<Candidate>, id: u64, i: int)
    requires
        entities_unique(s),
        0 <= i < s.len(),
        s[i].entity == id,
    ensures
        has_entity(s, id),
        entity_index(s, id) == i,
{
    assert(has_entity(s, id));
    let j = entity_index(s, id);
    assert(0 <= j < s.len() && s[j].entity == id);
    if i < j {
        assert(s[i].entity != s[j].entity);
    } else if j < i {
        assert(s[j].entity != s[i].entity);
    }
}

/// The index of the candidate nearest to `origin`; among equally near
/// candidates, the earliest in the list.
pub open spec fn nearest_idx(s: Seq<Candidate>, origin: Point) -> int
    decreases s.len(),
{
    if s.len() <= 1 {
        0
    } else {
        let prev = nearest_idx(s.drop_last(), origin);
        if dist2(s.last().position, origin) < dist2(s[prev].position, origin) {
            s.len() - 1
        } else {
            prev
        }
    }
}

/// `nearest_idx` denotes a real index, no candidate is nearer, and every
/// earlier candidate is strictly farther.
pub proof fn lemma_nearest_idx(s: Seq<Candidate>, origin: Point)
    requires
        s.len() > 0,
    ensures
        0 <= nearest_idx(s, origin) < s.len(),
        forall|j: int| 0 <= j < s.len() ==> dist2(s[nearest_idx(s, origin)].position, origin)
            <= dist2(#[trigger] s[j].position, origin),
        forall|j: int| 0 <= j < nearest_idx(s, origin) ==> dist2(#[trigger] s[j].position, origin)
            > dist2(s[nearest_idx(s, origin)].position, origin),
    decreases s.len(),
{
    if s.len() > 1 {
        lemma_nearest_idx(s.drop_last(), origin);
        assert(forall|j: int| 0 <= j < s.len() - 1 ==> s.drop_last()[j] == #[trigger] s[j]);
    }
}

/// The index `find` selects for a given cache state and candidate list:
/// the remembered entity when it is still present, else the nearest
/// candidate, else nothing.
pub open spec fn find_choice(cached: Option<u64>, s: Seq<Candidate>, origin: Point) -> Option<
    int,
> {
    if cached is Some && has_entity(s, cached->0) {
        Some(entity_index(s, cached->0))
    } else if s.len() > 0 {
        Some(nearest_idx(s, origin))
    } else {
        None
    }
}

/// Sticky selection law: once a lookup has selected entity `x`, a later
/// lookup whose candidate list still contains `x` selects `x` again —
/// whatever the two origins are, and however near any other candidate is.
pub proof fn lemma_sticky_target(
    cached: Option<u64>,
    s1: Seq<Candidate>,
    origin1: Point,
    s2: Seq<Candidate>,
    origin2: Point,
)
    requires
        entities_unique(s1),
        entities_unique(s2),
        find_choice(cached, s1, origin1) is Some,
        has_entity(s2, s1[find_choice(cached, s1, origin1)->0].entity),
    ensures
        ({
            let x = s1[find_choice(cached, s1, origin1)->0].entity;
            find_choice(Some(x), s2, origin2) == Some(entity_index(s2, x))
                && s2[find_choice(Some(x), s2, origin2)->0].entity == x
        }),
{
    let x = s1[find_choice(cached, s1, origin1)->0].entity;
    let j = entity_index(s2, x);
    assert(0 <= j < s2.len() && s2[j].entity == x);
}

/// The memoized target of one travel action.
#[derive(Clone, Copy, PartialEq, Eq, Debug)]
pub struct CachedFinder {
    /// The remembered entity, if a lookup has selected one.
    pub target: Option<u64>,
}

impl CachedFinder {
    /// A finder that has not selected any target yet.
    pub fn new() -> (f: CachedFinder)
        ensures
            f.target == None::<u64>,
    {
        CachedFinder { target: None }
    }

    /// The remembered entity, if any.
    pub fn target(&self) -> (r: Option<u64>)
        ensures
            r == self.target,
    {
        self.target
    }

    /// Clears and returns the remembered entity; run when the owning travel
    /// action ends.
    pub fn take_target(&mut self) -> (r: Option<u64>)
        ensures
            r == old(self).target,
            final(self).target == None::<u64>,
    {
        let t = self.target;
        self.target = None;
        t
    }

    /// Resolves the current target among `candidates`: the remembered
    /// entity when still present (sticky selection), else the candidate
    /// nearest to `origin` (ties to the earliest), which is then
    /// remembered. Returns `None`, with the cache unset, exactly when the
    /// candidate list is empty.
    #[verifier::loop_isolation(false)]
    pub fn find(&mut self, candidates: &Vec<Candidate>, origin: Point) -> (r: Option<Candidate>)
        requires
            entities_unique(candidates@),
        ensures
            ({
                let choice = find_choice(old(self).target, candidates@, origin);
                match choice {
                    Some(i) => r == Some(candidates@[i])
                        && final(self).target == Some(candidates@[i].entity),
                    None => r == None::<Candidate> && final(self).target == None::<u64>,
                }
            }),
    {
        let n = candidates.len();
        if let Some(id) = self.target {
            let mut i: usize = 0;
            while i < n
                invariant
                    n == candidates@.len(),
                    i <= n,
                    forall|j: int| 0 <= j < i ==> candidates@[j].entity != id,
                decreases n - i,
            {
                if candidates[i].entity == id {
                    proof {
                        lemma_entity_index(candidates@, id, i as int);
                    }
                    return Some(candidates[i]);
                }
                i += 1;
            }
        }
        if n == 0 {
            self.target = None;
            return None;
        }
        let mut best: usize = 0;
        let mut best_d: u128 = distance_squared(candidates[0].position, origin);
        let mut i: usize = 1;
        proof {
            assert(candidates@.subrange(0, 1).len() == 1);
        }
        while i < n
            invariant
                n == candidates@.len(),
                1 <= i <= n,
                best < i,
                best == nearest_idx(candidates@.subrange(0, i as int), origin),
                best_d == dist2(candidates@[best as int].position, origin),
            decreases n - i,
        {
            let d = distance_squared(candidates[i].position, origin);
            proof {
                let s = candidates@;
                let longer = s.subrange(0, i as int + 1);
                assert(longer.drop_last() =~= s.subrange(0, i as int));
                assert(longer.last() == s[i as int]);
                lemma_nearest_idx(s.subrange(0, i as int), origin);
            }
            if d < best_d {
                best = i;
                best_d = d;
            }
            i += 1;
        }
        proof {
            assert(candidates@.subrange(0, n as int) =~= candidates@);
        }
        let chosen = candidates[best];
        self.target = Some(chosen.entity);
        Some(chosen)
    }
}

} // verus!
