//! Selecting positions of a list by a predicate, in order.
use vstd::prelude::*;

verus! {

/// The positions below `n` at which `p` holds, in increasing order.
pub open spec fn positions_where(n: nat, p: spec_fn(int) -> bool) -> Seq<usize>
    decreases n,
{
    if n == 0 {
        seq![]
    } else {
        let prev = positions_where((n - 1) as nat, p);
        if p(n - 1) {
            prev.push((n - 1) as usize)
        } else {
            prev
        }
    }
}

/// A filtered list holds exactly the positions that pass the filter, each
/// once and in their order (and so is never longer than the list).
pub proof fn law_positions_exact(n: nat, p: spec_fn(int) -> bool)
    requires
        n <= usize::MAX + 1,
    ensures
        forall|k: int|
            0 <= k < positions_where(n, p).len() ==> (#[trigger] positions_where(n, p)[k] as int) < n
                && p(positions_where(n, p)[k] as int),
        forall|i: int| 0 <= i < n && #[trigger] p(i) ==> positions_where(n, p).contains(i as usize),
        forall|a: int, b: int|
            0 <= a < b < positions_where(n, p).len() ==> positions_where(n, p)[a]
                < positions_where(n, p)[b],
        positions_where(n, p).len() <= n,
    decreases n,
{
    if n > 0 {
        law_positions_exact((n - 1) as nat, p);
        let prev = positions_where((n - 1) as nat, p);
        let cur = positions_where(n, p);
        assert forall|i: int| 0 <= i < n && #[trigger] p(i) implies cur.contains(i as usize) by {
            if i < n - 1 {
                let k = choose|k: int| 0 <= k < prev.len() && prev[k] == i as usize;
                assert(cur[k] == i as usize);
            } else {
                assert(cur[cur.len() - 1] == i as usize);
            }
        }
    }
}

} // verus!
