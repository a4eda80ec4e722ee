//! The median and the mean of a handful of readings.
use vstd::prelude::*;
use vstd::relations::{sorted_by, total_ordering};
use vstd::seq_lib::lemma_sorted_unique;

verus! {

/// A mean as the fraction `sum / count`.
#[derive(Clone, Copy, Debug, PartialEq, Eq, Structural)]
pub struct Mean {
    pub sum: u64,
    pub count: usize,
}

/// The sum of the values.
pub open spec fn total(values: Seq<u64>) -> nat
    decreases values.len(),
{
    if values.len() == 0 {
        0
    } else {
        total(values.drop_last()) + values.last() as nat
    }
}

/// The order of the numbers, as a relation to sort by.
pub open spec fn at_most() -> spec_fn(u64, u64) -> bool {
    |a: u64, b: u64| a <= b
}

/// The values in ascending order.
pub open spec fn ascending(values: Seq<u64>) -> Seq<u64> {
    values.sort_by(at_most())
}

/// The value in the middle of the ascending order; where two share the middle, their mean,
/// rounded down.
pub open spec fn median(values: Seq<u64>) -> int
    recommends
        values.len() > 0,
{
    let s = ascending(values);
    let mid = s.len() as int / 2;
    if s.len() % 2 == 0 {
        (s[mid] + s[mid - 1]) / 2
    } else {
        s[mid] as int
    }
}

/// Calls `<[u64]>::sort_unstable`. It leaves the same values, in ascending order.
#[verifier::external_body]
fn std_sort_unstable(values: &mut Vec<u64>)
    ensures
        final(values)@.to_multiset() == old(values)@.to_multiset(),
        forall|i: int, j: int|
            0 <= i <= j < final(values)@.len() ==> final(values)@[i] <= final(values)@[j],
{
    values.sort_unstable();
}

/// Whether the sum of the values is a `u64`.
pub fn sum_fits(values: &Vec<u64>) -> (r: bool)
    ensures
        r == (total(values@) <= u64::MAX),
{
    checked_sum(values).is_some()
}

/// The sum of the values, or nothing where it is no `u64`.
fn checked_sum(values: &Vec<u64>) -> (r: Option<u64>)
    ensures
        r == (if total(values@) <= u64::MAX {
            Some(total(values@) as u64)
        } else {
            None
        }),
{
    let mut sum: u64 = 0;
    let mut i: usize = 0;
    while i < values.len()
        invariant
            i <= values@.len(),
            sum == total(values@.take(i as int)),
        decreases values@.len() - i,
    {
        proof {
            assert(values@.take(i + 1).drop_last() =~= values@.take(i as int));
            lemma_total_take(values@, i + 1);
        }
        match sum.checked_add(values[i]) {
            Some(next) => {
                sum = next;
            },
            None => {
                return None;
            },
        }
        i = i + 1;
    }
    assert(values@.take(i as int) =~= values@);
    Some(sum)
}

/// The median and the mean of the values, or nothing where there are none.
pub fn median_and_mean_value(values: Vec<u64>) -> (r: Option<(u64, Mean)>)
    requires
        total(values@) <= u64::MAX,
    ensures
        r is None <==> values@.len() == 0,
        r matches Some((m, mean)) ==> {
            &&& m == median(values@)
            &&& mean.sum == total(values@)
            &&& mean.count == values@.len()
        },
{
    let count: usize = values.len();
    if count == 0 {
        return None;
    }
    let sum: u64 = checked_sum(&values).unwrap();
    let mut sorted = values;
    std_sort_unstable(&mut sorted);
    proof {
        law_ascending_is_unique(values@, sorted@);
        lemma_total_multiset(values@, sorted@);
        sorted@.to_multiset_ensures();
        values@.to_multiset_ensures();
    }
    let median: u64 = if count % 2 == 0 {
        proof {
            lemma_total_two(sorted@, count / 2 - 1, (count / 2) as int);
        }
        (sorted[count / 2] + sorted[count / 2 - 1]) / 2
    } else {
        sorted[count / 2]
    };
    Some((median, Mean { sum, count }))
}

proof fn lemma_at_most_total_ordering()
    ensures
        total_ordering(at_most()),
{
}

/// The same values in ascending order are all that [`ascending`] can be.
pub proof fn law_ascending_is_unique(values: Seq<u64>, sorted: Seq<u64>)
    requires
        sorted.to_multiset() == values.to_multiset(),
        forall|i: int, j: int| 0 <= i <= j < sorted.len() ==> sorted[i] <= sorted[j],
    ensures
        sorted == ascending(values),
{
    lemma_at_most_total_ordering();
    values.lemma_sort_by_ensures(at_most());
    assert(sorted_by(sorted, at_most()));
    lemma_sorted_unique(sorted, ascending(values), at_most());
}

/// Part of the values sum up to no more than all of them.
proof fn lemma_total_take(values: Seq<u64>, n: int)
    requires
        0 <= n <= values.len(),
    ensures
        total(values.take(n)) <= total(values),
    decreases values.len(),
{
    if n == values.len() {
        assert(values.take(n) =~= values);
        if n > 0 {
            lemma_total_take(values.drop_last(), n - 1);
        }
    } else {
        assert(values.take(n) =~= values.drop_last().take(n));
        lemma_total_take(values.drop_last(), n);
    }
}

/// Taking one value out takes it off the sum.
proof fn lemma_total_remove(values: Seq<u64>, i: int)
    requires
        0 <= i < values.len(),
    ensures
        total(values) == total(values.remove(i)) + values[i],
    decreases values.len(),
{
    if i == values.len() - 1 {
        assert(values.remove(i) =~= values.drop_last());
    } else {
        lemma_total_remove(values.drop_last(), i);
        assert(values.remove(i).drop_last() =~= values.drop_last().remove(i));
    }
}

/// The sum does not depend on the order of the values.
proof fn lemma_total_multiset(a: Seq<u64>, b: Seq<u64>)
    requires
        a.to_multiset() == b.to_multiset(),
    ensures
        total(a) == total(b),
    decreases a.len(),
{
    a.to_multiset_ensures();
    b.to_multiset_ensures();
    if a.len() > 0 {
        let x = a.last();
        assert(a.contains(x));
        assert(b.to_multiset().count(x) > 0);
        assert(b.contains(x));
        let i = choose|i: int| 0 <= i < b.len() && b[i] == x;
        lemma_total_remove(b, i);
        assert(a.remove(a.len() - 1) =~= a.drop_last());
        assert(b.remove(i).to_multiset() =~= b.to_multiset().remove(x));
        assert(a.drop_last().to_multiset() =~= a.to_multiset().remove(x));
        lemma_total_multiset(a.drop_last(), b.remove(i));
    }
}

/// Two of the values sum up to no more than all of them.
proof fn lemma_total_two(values: Seq<u64>, i: int, j: int)
    requires
        0 <= i < j < values.len(),
    ensures
        values[i] + values[j] <= total(values),
{
    lemma_total_remove(values, j);
    let rest = values.remove(j);
    assert(rest[i] == values[i]);
    lemma_total_remove(rest, i);
}

proof fn lemma_total_bounds(values: Seq<u64>, lo: u64, hi: u64)
    requires
        forall|i: int| 0 <= i < values.len() ==> lo <= #[trigger] values[i] <= hi,
    ensures
        values.len() * lo <= total(values) <= values.len() * hi,
    decreases values.len(),
{
    if values.len() > 0 {
        let rest = values.drop_last();
        assert forall|i: int| 0 <= i < rest.len() implies lo <= #[trigger] rest[i] <= hi by {
            assert(rest[i] == values[i]);
        }
        lemma_total_bounds(rest, lo, hi);
        assert(values.len() * lo == rest.len() * lo + lo) by (nonlinear_arith)
            requires
                values.len() == rest.len() + 1,
        ;
        assert(values.len() * hi == rest.len() * hi + hi) by (nonlinear_arith)
            requires
                values.len() == rest.len() + 1,
        ;
    }
}

/// The median and the sum depend on which values there are, not on their order.
pub proof fn law_statistics_ignore_order(a: Seq<u64>, b: Seq<u64>)
    requires
        a.to_multiset() == b.to_multiset(),
    ensures
        median(a) == median(b),
        total(a) == total(b),
        a.len() == b.len(),
{
    lemma_at_most_total_ordering();
    a.lemma_sort_by_ensures(at_most());
    b.lemma_sort_by_ensures(at_most());
    lemma_sorted_unique(ascending(a), ascending(b), at_most());
    lemma_total_multiset(a, b);
    a.to_multiset_ensures();
    b.to_multiset_ensures();
}

/// Where every value lies between two bounds, so do the median and the mean.
pub proof fn law_statistics_within_bounds(values: Seq<u64>, lo: u64, hi: u64)
    requires
        values.len() > 0,
        forall|i: int| 0 <= i < values.len() ==> lo <= #[trigger] values[i] <= hi,
    ensures
        lo <= median(values) <= hi,
        values.len() * lo <= total(values) <= values.len() * hi,
{
    lemma_total_bounds(values, lo, hi);
    lemma_at_most_total_ordering();
    values.lemma_sort_by_ensures(at_most());
    let s = ascending(values);
    s.to_multiset_ensures();
    values.to_multiset_ensures();
    assert forall|i: int| 0 <= i < s.len() implies lo <= #[trigger] s[i] <= hi by {
        assert(s.contains(s[i]));
        assert(values.contains(s[i]));
    }
}

/// At least half of the values are no greater than the median, and at least half are no
/// less: in ascending order, those up to the middle lie at or below it and those from the
/// middle on lie at or above it.
pub proof fn law_median_splits(values: Seq<u64>)
    requires
        values.len() > 0,
    ensures
        ascending(values).to_multiset() == values.to_multiset(),
        ascending(values).len() == values.len(),
        forall|i: int|
            0 <= i && 2 * i < values.len() ==> #[trigger] ascending(values)[i] <= median(values),
        forall|i: int|
            i < values.len() && values.len() <= 2 * i + 1 ==> median(values) <= #[trigger] ascending(
                values,
            )[i],
{
    lemma_at_most_total_ordering();
    values.lemma_sort_by_ensures(at_most());
    let s = ascending(values);
    s.to_multiset_ensures();
    values.to_multiset_ensures();
    assert forall|i: int, j: int| 0 <= i <= j < s.len() implies s[i] <= s[j] by {
        if i < j {
            assert(at_most()(s[i], s[j]));
        }
    }
}

/// However the values are put in ascending order, the median is the one in the middle; where
/// two share the middle, it is half of their sum, rounded down.
pub proof fn law_median_is_the_middle(values: Seq<u64>, sorted: Seq<u64>)
    requires
        values.len() > 0,
        sorted.to_multiset() == values.to_multiset(),
        forall|i: int, j: int| 0 <= i <= j < sorted.len() ==> sorted[i] <= sorted[j],
    ensures
        sorted.len() == values.len(),
        sorted.len() % 2 == 1 ==> median(values) == sorted[sorted.len() as int / 2],
        sorted.len() % 2 == 0 ==> {
            let two = sorted[sorted.len() as int / 2 - 1] + sorted[sorted.len() as int / 2];
            two == 2 * median(values) || two == 2 * median(values) + 1
        },
{
    law_ascending_is_unique(values, sorted);
    sorted.to_multiset_ensures();
    values.to_multiset_ensures();
}

/// The sum of no values is zero, each further value adds itself, and so the sum is what adding
/// the values up from left to right gives.
pub proof fn law_total_is_the_sum(values: Seq<u64>)
    ensures
        total(values) == values.fold_left(0int, |sum: int, v: u64| sum + v),
        forall|v: u64| #[trigger] total(values.push(v)) == total(values) + v,
    decreases values.len(),
{
    if values.len() > 0 {
        law_total_is_the_sum(values.drop_last());
    }
    assert forall|v: u64| #[trigger] total(values.push(v)) == total(values) + v by {
        assert(values.push(v).drop_last() =~= values);
    }
}

/// The statistics of some values, from the values in ascending order, however they were put in
/// it: there are none of no values; else the count is how many there are, the sum is what they
/// add up to, and the median is the one in the middle or, where two share the middle, half of
/// their sum, rounded down. All that is asked for is that the sum is a `u64`.
pub proof fn law_median_and_mean_of_values(
    values: Vec<u64>,
    r: Option<(u64, Mean)>,
    sorted: Seq<u64>,
)
    requires
        call_ensures(median_and_mean_value, (values,), r),
        sorted.to_multiset() == values@.to_multiset(),
        forall|i: int, j: int| 0 <= i <= j < sorted.len() ==> sorted[i] <= sorted[j],
    ensures
        r is Some <==> sorted.len() > 0,
        r matches Some((m, mean)) ==> {
            &&& mean.count == sorted.len()
            &&& mean.sum == sorted.fold_left(0int, |sum: int, v: u64| sum + v)
            &&& sorted.len() % 2 == 1 ==> m == sorted[sorted.len() as int / 2]
            &&& sorted.len() % 2 == 0 ==> {
                let two = sorted[sorted.len() as int / 2 - 1] + sorted[sorted.len() as int / 2];
                two == 2 * m || two == 2 * m + 1
            }
        },
        values@.fold_left(0int, |sum: int, v: u64| sum + v) <= 0xFFFF_FFFF_FFFF_FFFF
            ==> call_requires(median_and_mean_value, (values,)),
{
    sorted.to_multiset_ensures();
    values@.to_multiset_ensures();
    law_total_is_the_sum(sorted);
    law_total_is_the_sum(values@);
    if values@.len() > 0 {
        law_median_is_the_middle(values@, sorted);
        law_statistics_ignore_order(values@, sorted);
    }
}

/// A sum fits exactly when adding the values up gives a `u64`.
pub proof fn law_sum_fits(values: Vec<u64>, r: bool)
    requires
        call_ensures(sum_fits, (&values,), r),
    ensures
        r <==> values@.fold_left(0int, |sum: int, v: u64| sum + v) <= 0xFFFF_FFFF_FFFF_FFFF,
{
    law_total_is_the_sum(values@);
}

} // verus!
