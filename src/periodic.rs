//! The periodic replicator's index range: the copies `time + k * period` of
//! a time that fall in a window are those with `k` from the ceiling of
//! `(tmin - time) / period` to the floor of `(tmax - time) / period`.
use vstd::prelude::*;

verus! {

/// The integers from `kmin` to `kmax`, both included, in ascending order;
/// empty when `kmin > kmax`.
pub open spec fn index_range(kmin: i64, kmax: i64) -> Seq<i64> {
    if kmin > kmax {
        Seq::empty()
    } else {
        Seq::new((kmax - kmin + 1) as nat, |j: int| (kmin + j) as i64)
    }
}

/// Lists the copy indices `k` from `kmin` to `kmax`, ascending.
pub fn periodic_indices(kmin: i64, kmax: i64) -> (r: Vec<i64>)
    ensures
        r@ == index_range(kmin, kmax),
{
    let mut r: Vec<i64> = Vec::new();
    if kmin > kmax {
        return r;
    }
    let mut k: i64 = kmin;
    loop
        invariant
            kmin <= k <= kmax,
            r@ == Seq::new((k - kmin) as nat, |j: int| (kmin + j) as i64),
        decreases kmax - k,
    {
        r.push(k);
        if k == kmax {
            assert(r@ =~= index_range(kmin, kmax));
            return r;
        }
        k = k + 1;
        assert(r@ =~= Seq::new((k - kmin) as nat, |j: int| (kmin + j) as i64));
    }
}

} // verus!
