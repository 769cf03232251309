//! Which old recordings to delete so that only the newest ones stay.
//!
//! Recordings are ordered newest first by modification time; recordings with the
//! same time keep the order in which the directory listing gave them (the sort
//! is stable). Everything after the first `keep` in that order is deleted, in
//! that order.

use vstd::prelude::*;

verus! {

/// Recording `a` comes before recording `b` when it is newer, or as new and
/// listed earlier.
pub open spec fn precedes(times: Seq<i128>, a: int, b: int) -> bool {
    times[a] > times[b] || (times[a] == times[b] && a < b)
}

/// `r` lists the recordings to delete among those with modification times
/// `times`, when `keep` are to stay: as many as exceed `keep`, valid and in the
/// newest-first order, and each of them preceded by every recording that stays.
pub open spec fn is_prune_selection(times: Seq<i128>, keep: nat, r: Seq<usize>) -> bool {
    &&& r.len() == (if times.len() > keep { times.len() - keep } else { 0 })
    &&& forall|j: int| 0 <= j < r.len() ==> #[trigger] r[j] < times.len()
    &&& forall|a: int, b: int|
        #![trigger r[a], r[b]]
        0 <= a < b < r.len() ==> precedes(times, r[a] as int, r[b] as int)
    &&& forall|x: usize, j: int|
        #![trigger r[j], r.contains(x)]
        x < times.len() && 0 <= j < r.len() && !r.contains(x) ==> precedes(
            times,
            x as int,
            r[j] as int,
        )
}

/// The order `o` lists each of the first `i` recordings once, newest first.
pub open spec fn sorted_prefix(times: Seq<i128>, o: Seq<usize>, i: int) -> bool {
    &&& o.len() == i
    &&& forall|k: int| 0 <= k < o.len() ==> #[trigger] o[k] < i
    &&& forall|a: int, b: int|
        #![trigger o[a], o[b]]
        0 <= a < b < o.len() ==> precedes(times, o[a] as int, o[b] as int)
    &&& forall|x: int| 0 <= x < i ==> #[trigger] o.contains(x as usize)
}

/// Chooses the recordings to delete, given their modification times in
/// directory-listing order, so that the `keep` newest stay: nothing when there
/// are at most `keep`; otherwise the indices of all the others, newest first.
pub fn select_recordings_to_prune(times: &Vec<i128>, keep: usize) -> (r: Vec<usize>)
    ensures
        is_prune_selection(times@, keep as nat, r@),
{
    let n = times.len();
    let mut order: Vec<usize> = Vec::new();
    let mut i: usize = 0;
    while i < n
        invariant
            n == times.len(),
            i <= n,
            sorted_prefix(times@, order@, i as int),
        decreases n - i,
    {
        let mut p: usize = 0;
        while p < order.len() && times[order[p]] >= times[i]
            invariant
                n == times.len(),
                i < n,
                sorted_prefix(times@, order@, i as int),
                p <= order.len(),
                forall|q: int| 0 <= q < p ==> precedes(times@, #[trigger] order@[q] as int, i as int),
            decreases order.len() - p,
        {
            p += 1;
        }
        let ghost old_order = order@;
        proof {
            assert forall|q: int| p <= q < old_order.len() implies precedes(
                times@,
                i as int,
                #[trigger] old_order[q] as int,
            ) by {
                assert(!precedes(times@, old_order[p as int] as int, i as int));
                if q > p {
                    assert(precedes(times@, old_order[p as int] as int, old_order[q] as int));
                }
            }
        }
        order.insert(p, i);
        proof {
            old_order.insert_ensures(p as int, i);
            let o = order@;
            assert forall|a: int, b: int| 0 <= a < b < o.len() implies precedes(
                times@,
                #[trigger] o[a] as int,
                #[trigger] o[b] as int,
            ) by {
                if b < p {
                } else if b == p {
                } else if a < p {
                    assert(o[b] == old_order[b - 1]);
                } else if a == p {
                    assert(o[b] == old_order[b - 1]);
                } else {
                    assert(o[a] == old_order[a - 1]);
                    assert(o[b] == old_order[b - 1]);
                }
            }
            assert forall|x: int| 0 <= x < i + 1 implies #[trigger] o.contains(x as usize) by {
                if x == i {
                    assert(o[p as int] == i);
                } else {
                    assert(old_order.contains(x as usize));
                    let k = choose|k: int| 0 <= k < old_order.len() && old_order[k] == x as usize;
                    if k < p {
                        assert(o[k] == x as usize);
                    } else {
                        assert(o[k + 1] == x as usize);
                    }
                }
            }
            assert forall|k: int| 0 <= k < o.len() implies #[trigger] o[k] < i + 1 by {
                if k < p {
                } else if k > p {
                    assert(o[k] == old_order[k - 1]);
                }
            }
        }
        i += 1;
    }
    let mut r: Vec<usize> = Vec::new();
    if n > keep {
        let mut k: usize = keep;
        while k < n
            invariant
                n == times.len(),
                keep <= k <= n,
                sorted_prefix(times@, order@, n as int),
                r@ == order@.subrange(keep as int, k as int),
            decreases n - k,
        {
            r.push(order[k]);
            k += 1;
        }
        proof {
            let o = order@;
            assert forall|x: usize, j: int|
                #![trigger r@[j], r@.contains(x)]
                x < n && 0 <= j < r.len() && !r@.contains(x) implies precedes(
                times@,
                x as int,
                r@[j] as int,
            ) by {
                assert(o.contains(x as int as usize));
                let m = choose|m: int| 0 <= m < o.len() && o[m] == x;
                if m >= keep {
                    assert(r@[m - keep] == x);
                }
                assert(r@[j] == o[j + keep]);
            }
        }
    }
    r
}

/// Pruning keeps the newest recordings: no recording is listed twice, and
/// every recording that stays is at least as new as every one that is deleted.
pub proof fn lemma_pruning_keeps_newest(times: Seq<i128>, keep: nat, r: Seq<usize>)
    requires
        is_prune_selection(times, keep, r),
    ensures
        r.no_duplicates(),
        forall|x: usize, j: int|
            #![trigger r[j], r.contains(x)]
            x < times.len() && 0 <= j < r.len() && !r.contains(x) ==> times[x as int] >= times[r[j] as int],
{
    assert forall|a: int, b: int| 0 <= a < r.len() && 0 <= b < r.len() && a != b implies r[a] != r[b] by {
        if a < b {
            assert(precedes(times, r[a] as int, r[b] as int));
        } else {
            assert(precedes(times, r[b] as int, r[a] as int));
        }
    }
}

} // verus!
