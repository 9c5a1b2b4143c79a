//! Mean, median and mode of a list of integers.
use std::collections::HashMap;
use vstd::prelude::*;
use vstd::relations::{sorted_by, total_ordering};

verus! {

broadcast use vstd::std_specs::hash::group_hash_axioms;

/// The sum of the elements.
pub open spec fn sum(s: Seq<i32>) -> int
    decreases s.len(),
{
    if s.len() == 0 {
        0
    } else {
        sum(s.drop_last()) + s.last()
    }
}

/// Whether every running total of `s`, from the left, fits in an `i32`.
pub open spec fn running_sums_fit(s: Seq<i32>) -> bool {
    forall|k: int| 0 <= k <= s.len() ==> i32::MIN <= #[trigger] sum(s.subrange(0, k)) <= i32::MAX
}

/// Integer division rounded toward zero, as `i32` division does it.
pub open spec fn div_toward_zero(a: int, b: int) -> int
    recommends
        b > 0,
{
    if a >= 0 {
        a / b
    } else {
        -((-a) / b)
    }
}

/// The mean of a non-empty list, rounded toward zero. The running total must
/// stay within `i32`, and so must the count.
pub fn mean(numbers: &Vec<i32>) -> (r: i32)
    requires
        0 < numbers@.len() <= i32::MAX,
        running_sums_fit(numbers@),
    ensures
        r == div_toward_zero(sum(numbers@), numbers@.len() as int),
{
    let mut total: i32 = 0;
    let mut i: usize = 0;
    while i < numbers.len()
        invariant
            i <= numbers@.len(),
            running_sums_fit(numbers@),
            total == sum(numbers@.subrange(0, i as int)),
        decreases numbers@.len() - i,
    {
        proof {
            assert(numbers@.subrange(0, i + 1).drop_last() =~= numbers@.subrange(0, i as int));
            assert(i32::MIN <= sum(numbers@.subrange(0, i + 1)) <= i32::MAX);
        }
        total = total + numbers[i];
        i = i + 1;
    }
    proof {
        assert(numbers@.subrange(0, numbers@.len() as int) =~= numbers@);
    }
    total / (numbers.len() as i32)
}

/// The ascending order on `i32`.
pub open spec fn ascending() -> spec_fn(i32, i32) -> bool {
    |x: i32, y: i32| x <= y
}

proof fn lemma_ascending_total()
    ensures
        total_ordering(ascending()),
{
}

/// Relies on `slice::sort`: the slice ends up in ascending order and holds
/// the same elements as before.
#[verifier::external_body]
fn sort_ascending(v: &mut Vec<i32>)
    ensures
        final(v)@.to_multiset() == old(v)@.to_multiset(),
        sorted_by(final(v)@, ascending()),
{
    v.sort();
}

/// The median of a list: the element at position `len / 2` once the list is
/// sorted (for an even length, the upper of the two middle elements), or
/// `None` for an empty list.
pub fn median(numbers: &Vec<i32>) -> (r: Option<i32>)
    ensures
        numbers@.len() == 0 ==> r.is_none(),
        numbers@.len() > 0 ==> r == Some(
            numbers@.sort_by(ascending())[(numbers@.len() / 2) as int],
        ),
{
    if numbers.len() > 0 {
        let mut sorted = numbers.clone();
        proof {
            assert(sorted@ == numbers@);
        }
        sort_ascending(&mut sorted);
        proof {
            let leq = ascending();
            lemma_ascending_total();
            numbers@.lemma_sort_by_ensures(leq);
            vstd::seq_lib::lemma_sorted_unique(sorted@, numbers@.sort_by(leq), leq);
            sorted@.to_multiset_ensures();
            numbers@.to_multiset_ensures();
        }
        Some(sorted[sorted.len() / 2])
    } else {
        None
    }
}

/// How many times `x` occurs in `s`.
pub open spec fn occurrences(s: Seq<i32>, x: i32) -> nat
    decreases s.len(),
{
    if s.len() == 0 {
        0
    } else {
        occurrences(s.drop_last(), x) + if s.last() == x {
            1nat
        } else {
            0nat
        }
    }
}

/// The most frequent value of a list, or `None` for an empty list. Among
/// equally frequent values the one that appears first wins.
pub fn mode(numbers: &Vec<i32>) -> (r: Option<i32>)
    ensures
        numbers@.len() == 0 ==> r.is_none(),
        numbers@.len() > 0 ==> exists|i: int|
            {
                &&& 0 <= i < numbers@.len()
                &&& r == Some(numbers@[i])
                &&& forall|j: int|
                    0 <= j < numbers@.len() ==> occurrences(numbers@, #[trigger] numbers@[j])
                        <= occurrences(numbers@, numbers@[i])
                &&& forall|j: int|
                    0 <= j < i ==> occurrences(numbers@, #[trigger] numbers@[j]) < occurrences(
                        numbers@,
                        numbers@[i],
                    )
            },
{
    if numbers.len() == 0 {
        return None;
    }
    let ghost s = numbers@;
    let mut counters: HashMap<i32, usize> = HashMap::new();
    let mut i: usize = 0;
    while i < numbers.len()
        invariant
            i <= s.len(),
            s == numbers@,
            forall|x: i32| #[trigger]
                counters@.contains_key(x) ==> counters@[x] == occurrences(s.subrange(0, i as int), x),
            forall|x: i32|
                !counters@.contains_key(x) ==> occurrences(#[trigger] s.subrange(0, i as int), x)
                    == 0,
            forall|x: i32| #[trigger] counters@.contains_key(x) ==> counters@[x] <= i,
        decreases s.len() - i,
    {
        let n = numbers[i];
        let c: usize = match counters.get(&n) {
            Some(c) => *c,
            None => 0,
        };
        proof {
            let next = s.subrange(0, i + 1);
            assert(next.drop_last() =~= s.subrange(0, i as int));
            assert(next.last() == n);
            assert(c == occurrences(s.subrange(0, i as int), n));
        }
        counters.insert(n, c + 1);
        i = i + 1;
        proof {
            assert forall|x: i32| #[trigger] counters@.contains_key(x) implies counters@[x]
                == occurrences(s.subrange(0, i as int), x) by {
                assert(s.subrange(0, i as int).drop_last() =~= s.subrange(0, i - 1));
            }
            assert forall|x: i32| !counters@.contains_key(x) implies occurrences(
                #[trigger] s.subrange(0, i as int),
                x,
            ) == 0 by {
                assert(s.subrange(0, i as int).drop_last() =~= s.subrange(0, i - 1));
            }
        }
    }
    proof {
        assert(s.subrange(0, s.len() as int) =~= s);
    }
    let mut best: usize = 0;
    let mut best_count: usize = match counters.get(&numbers[0]) {
        Some(c) => *c,
        None => 0,
    };
    let mut k: usize = 1;
    while k < numbers.len()
        invariant
            1 <= k <= s.len(),
            s == numbers@,
            0 <= best < k,
            best_count == occurrences(s, s[best as int]),
            forall|x: i32| #[trigger]
                counters@.contains_key(x) ==> counters@[x] == occurrences(s, x),
            forall|x: i32| !counters@.contains_key(x) ==> occurrences(s, x) == 0,
            forall|j: int| 0 <= j < k ==> occurrences(s, #[trigger] s[j]) <= best_count,
            forall|j: int| 0 <= j < best ==> occurrences(s, #[trigger] s[j]) < best_count,
        decreases s.len() - k,
    {
        let c: usize = match counters.get(&numbers[k]) {
            Some(c) => *c,
            None => 0,
        };
        if c > best_count {
            best = k;
            best_count = c;
        }
        k = k + 1;
    }
    Some(numbers[best])
}

} // verus!
