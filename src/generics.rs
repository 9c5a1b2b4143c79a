//! A generic search for the largest element.
use std::cmp::Ordering;
use vstd::std_specs::cmp::PartialOrdSpec;
use vstd::prelude::*;

verus! {

/// The index that a left-to-right scan of the first `n` elements of `a` ends on,
/// when it moves to each element that its current pick compares below.
pub open spec fn scan_pick<T: PartialOrd>(a: Seq<T>, n: int) -> int
    decreases n,
{
    if n <= 1 {
        0
    } else {
        let p = scan_pick(a, n - 1);
        if a[p].partial_cmp_spec(&a[n - 1]) == Some(Ordering::Less) {
            n - 1
        } else {
            p
        }
    }
}

/// The largest element of a non-empty slice: the scan keeps the first element
/// and replaces its pick by every later element that the pick is less than.
/// For a total order this is the first maximum.
pub fn largest<T: PartialOrd>(a: &[T]) -> (r: &T)
    requires
        a@.len() > 0,
    ensures
        a@.contains(*r),
        T::obeys_partial_cmp_spec() ==> *r == a@[scan_pick(a@, a@.len() as int)],
{
    let mut best: usize = 0;
    let mut i: usize = 0;
    while i < a.len()
        invariant
            0 <= i <= a@.len(),
            0 <= best < a@.len(),
            T::obeys_partial_cmp_spec() && i > 0 ==> best == scan_pick(a@, i as int),
            i == 0 ==> best == 0,
        decreases a@.len() - i,
    {
        if a[best] < a[i] {
            best = i;
        }
        i = i + 1;
    }
    &a[best]
}

} // verus!
