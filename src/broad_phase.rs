//! Sweep and prune: the roster of collidable entities, its order along the
//! sweep axis, and the candidate pairs whose extents meet on that axis.
use vstd::prelude::*;

use crate::entity::Ent;
use crate::sorts::{insertion_sort_by_key, keys_ordered, lemma_neighbours_sorted};

verus! {

/// The axis along which the roster is sorted and pruned.
#[derive(Clone, Copy, Debug, PartialEq, Eq, Structural)]
pub enum SweepAxis {
    X,
    Y,
}

/// The key of a coordinate, read from the bits of an IEEE-754 single: the
/// magnitude bits with the sign applied. For numbers that are not NaN, keys
/// order as the numbers do, and both zeros get the key zero.
pub open spec fn order_key_spec(bits: u32) -> int {
    if bits >= 0x8000_0000 {
        -((bits - 0x8000_0000) as int)
    } else {
        bits as int
    }
}

pub fn order_key(bits: u32) -> (r: i64)
    ensures
        r == order_key_spec(bits),
{
    if bits >= 0x8000_0000 {
        -((bits - 0x8000_0000) as i64)
    } else {
        bits as i64
    }
}

/// Keys keep the order of sign-magnitude numbers: among non-negative ones
/// they follow the bits, among negative ones they reverse them, and a
/// negative one never comes after a non-negative one.
pub proof fn lemma_order_key_monotone(a: u32, b: u32)
    ensures
        a < 0x8000_0000 && b < 0x8000_0000 ==> (order_key_spec(a) < order_key_spec(b) <==> a < b),
        a >= 0x8000_0000 && b >= 0x8000_0000 ==> (order_key_spec(a) < order_key_spec(b) <==> a
            > b),
        a >= 0x8000_0000 && b < 0x8000_0000 ==> order_key_spec(a) <= order_key_spec(b),
{
}

/// One roster entity as the sweep sees it: the keys of its extent on the
/// sweep axis, whether it has an extent at all (`present`), and whether it
/// starts a scan (`candidate`).
#[derive(Clone, Copy, Debug, PartialEq, Eq, Structural)]
pub struct SweepEntry {
    pub ent: Ent,
    pub min: i64,
    pub max: i64,
    pub present: bool,
    pub candidate: bool,
}

pub open spec fn sorted_by_min(s: Seq<SweepEntry>) -> bool {
    forall|a: int, b: int| 0 <= a <= b < s.len() ==> s[a].min <= s[b].min
}

/// Each extent that is present has its minimum at or below its maximum.
pub open spec fn extents_valid(s: Seq<SweepEntry>) -> bool {
    forall|k: int| 0 <= k < s.len() ==> #[trigger] s[k].present ==> s[k].min <= s[k].max
}

/// Closed intervals that share a point.
pub open spec fn extents_meet(a: SweepEntry, b: SweepEntry) -> bool {
    a.min <= b.max && b.min <= a.max
}

/// The pair `(i, j)` that a test of all pairs reports: `i` comes first and
/// starts scans, both have extents, and the extents meet.
pub open spec fn wanted_pair(s: Seq<SweepEntry>, i: int, j: int) -> bool {
    &&& 0 <= i < j < s.len()
    &&& s[i].present
    &&& s[i].candidate
    &&& s[j].present
    &&& extents_meet(s[i], s[j])
}

/// `p` comes before `q` in roster order.
pub open spec fn pair_before(p: (usize, usize), q: (usize, usize)) -> bool {
    p.0 < q.0 || (p.0 == q.0 && p.1 < q.1)
}

/// Sorts the entries by the minimum of their extents.
pub fn sort_for_sweep(entries: &mut [SweepEntry])
    ensures
        final(entries)@.to_multiset() == old(entries)@.to_multiset(),
        sorted_by_min(final(entries)@),
{
    let key = |e: &SweepEntry| -> (k: i64)
        ensures
            k == e.min,
        { e.min };
    insertion_sort_by_key(entries, key);
    proof {
        let s = entries@;
        let mins = s.map_values(|e: SweepEntry| e.min);
        assert forall|k: int| 0 <= k && k + 1 < mins.len() implies #[trigger] mins[k] <= mins[k
            + 1] by {
            assert(keys_ordered(key, s[k], s[k + 1]));
        }
        lemma_neighbours_sorted(mins);
        assert forall|a: int, b: int| 0 <= a <= b < s.len() implies s[a].min <= s[b].min by {
            assert(mins[a] <= mins[b]);
        }
    }
}

/// The candidate pairs of a sorted roster, in roster order. The scan from an
/// entity stops at the first later entity whose extent starts beyond its
/// own: on a sorted roster no later one can meet it.
pub fn sweep_pairs(entries: &[SweepEntry]) -> (r: Vec<(usize, usize)>)
    requires
        sorted_by_min(entries@),
        extents_valid(entries@),
    ensures
        forall|i: usize, j: usize|
            #[trigger] r@.contains((i, j)) <==> wanted_pair(entries@, i as int, j as int),
        forall|a: int, b: int| 0 <= a < b < r@.len() ==> pair_before(r@[a], r@[b]),
{
    let n = entries.len();
    let mut out: Vec<(usize, usize)> = Vec::new();
    let mut i: usize = 0;
    while i < n
        invariant
            n == entries@.len(),
            i <= n,
            sorted_by_min(entries@),
            extents_valid(entries@),
            forall|p: (usize, usize)|
                #[trigger] out@.contains(p) <==> (wanted_pair(entries@, p.0 as int, p.1 as int)
                    && p.0 < i),
            forall|a: int, b: int| 0 <= a < b < out@.len() ==> pair_before(out@[a], out@[b]),
            forall|a: int| 0 <= a < out@.len() ==> out@[a].0 < i,
        decreases n - i,
    {
        let ei = entries[i];
        if ei.present && ei.candidate {
            let mut j: usize = i + 1;
            let mut stop = false;
            while j < n && !stop
                invariant
                    n == entries@.len(),
                    i < n,
                    i < j <= n,
                    ei == entries@[i as int],
                    ei.present && ei.candidate,
                    sorted_by_min(entries@),
                    extents_valid(entries@),
                    forall|p: (usize, usize)|
                        #[trigger] out@.contains(p) <==> (wanted_pair(
                            entries@,
                            p.0 as int,
                            p.1 as int,
                        ) && (p.0 < i || (p.0 == i && p.1 < j))),
                    forall|a: int, b: int|
                        0 <= a < b < out@.len() ==> pair_before(out@[a], out@[b]),
                    forall|a: int| 0 <= a < out@.len() ==> pair_before(out@[a], (i, j)),
                    stop ==> forall|k: int| j <= k < n ==> !wanted_pair(entries@, i as int, k),
                decreases n - j + if stop { 0int } else { 1int },
            {
                let ej = entries[j];
                if ej.present && ej.min > ei.max {
                    stop = true;
                    proof {
                        assert forall|k: int| j <= k < n implies !wanted_pair(
                            entries@,
                            i as int,
                            k,
                        ) by {
                            assert(entries@[j as int].min <= entries@[k].min);
                        }
                    }
                } else {
                    if ej.present {
                        proof {
                            assert(entries@[i as int].min <= entries@[j as int].min);
                        }
                        let ghost before = out@;
                        out.push((i, j));
                        proof {
                            assert forall|p: (usize, usize)| #[trigger]
                                out@.contains(p) <==> (wanted_pair(
                                    entries@,
                                    p.0 as int,
                                    p.1 as int,
                                ) && (p.0 < i || (p.0 == i && p.1 < j + 1))) by {
                                if out@.contains(p) && p != (i, j) {
                                    let a = choose|a: int| 0 <= a < out@.len() && out@[a] == p;
                                    assert(before[a] == p);
                                    assert(before.contains(p));
                                }
                                if p.0 == i && p.1 == j {
                                    assert(out@[before.len() as int] == p);
                                } else if wanted_pair(entries@, p.0 as int, p.1 as int) && (p.0
                                    < i || (p.0 == i && p.1 < j)) {
                                    assert(before.contains(p));
                                    let a = choose|a: int| 0 <= a < before.len() && before[a] == p;
                                    assert(out@[a] == p);
                                }
                            }
                        }
                    }
                    j = j + 1;
                }
            }
            proof {
                assert forall|p: (usize, usize)| #[trigger]
                    out@.contains(p) <==> (wanted_pair(entries@, p.0 as int, p.1 as int) && p.0
                        < i + 1) by {
                    if wanted_pair(entries@, p.0 as int, p.1 as int) && p.0 == i && p.1 >= j {
                        assert(stop);
                    }
                }
            }
        }
        i = i + 1;
    }
    out
}

/// The roster of collidable entities, in the order of the last sweep.
pub struct CollisionSet {
    ents: Vec<Ent>,
}

impl View for CollisionSet {
    type V = Seq<Ent>;

    closed spec fn view(&self) -> Seq<Ent> {
        self.ents@
    }
}

/// `ent` stands at `idx` of `s`, and nowhere before it.
pub open spec fn first_index_of(s: Seq<Ent>, ent: Ent, idx: int) -> bool {
    &&& 0 <= idx < s.len()
    &&& s[idx] == ent
    &&& forall|k: int| 0 <= k < idx ==> s[k] != ent
}

impl CollisionSet {
    pub fn new() -> (r: CollisionSet)
        ensures
            r@ == Seq::<Ent>::empty(),
    {
        CollisionSet { ents: Vec::new() }
    }

    pub fn add(&mut self, ent: Ent)
        ensures
            final(self)@ == old(self)@.push(ent),
    {
        self.ents.push(ent);
    }

    /// Takes the first occurrence of `ent` out of the roster, if there is one.
    pub fn remove(&mut self, ent: Ent)
        ensures
            !old(self)@.contains(ent) ==> final(self)@ == old(self)@,
            old(self)@.contains(ent) ==> exists|idx: int|
                first_index_of(old(self)@, ent, idx) && final(self)@ == old(self)@.remove(idx),
    {
        let n = self.ents.len();
        let mut k: usize = 0;
        while k < n
            invariant
                n == self.ents@.len(),
                k <= n,
                self@ == old(self)@,
                forall|a: int| 0 <= a < k ==> self.ents@[a] != ent,
            decreases n - k,
        {
            if self.ents[k] == ent {
                let ghost before = self.ents@;
                self.ents.remove(k);
                proof {
                    assert(first_index_of(before, ent, k as int));
                }
                return;
            }
            k = k + 1;
        }
        proof {
            assert(!self.ents@.contains(ent));
        }
    }

    /// The roster in its current order.
    pub fn ents(&self) -> (r: &Vec<Ent>)
        ensures
            r@ == self@,
    {
        &self.ents
    }

    /// Sorts `entries`, which describe the roster entity by entity, for the
    /// sweep, and takes their new order as the roster's.
    pub fn sort_entities_for_sweep(&mut self, entries: &mut [SweepEntry])
        requires
            old(entries)@.len() == old(self)@.len(),
            forall|k: int|
                0 <= k < old(self)@.len() ==> #[trigger] old(entries)@[k].ent == old(self)@[k],
        ensures
            final(entries)@.to_multiset() == old(entries)@.to_multiset(),
            sorted_by_min(final(entries)@),
            final(self)@ == final(entries)@.map_values(|e: SweepEntry| e.ent),
    {
        sort_for_sweep(entries);
        let n = entries.len();
        let mut ents: Vec<Ent> = Vec::new();
        let mut k: usize = 0;
        while k < n
            invariant
                n == entries@.len(),
                k <= n,
                ents@ == entries@.subrange(0, k as int).map_values(|e: SweepEntry| e.ent),
            decreases n - k,
        {
            ents.push(entries[k].ent);
            proof {
                let done = entries@.subrange(0, k as int).map_values(|e: SweepEntry| e.ent);
                assert(entries@.subrange(0, k + 1).map_values(|e: SweepEntry| e.ent) =~= done.push(
                    entries@[k as int].ent,
                ));
            }
            k = k + 1;
        }
        proof {
            assert(entries@.subrange(0, n as int) =~= entries@);
        }
        self.ents = ents;
    }
}

} // verus!
