//! Arithmetic on month-indexed series of amounts, and the date a number of
//! months ahead.
//!
//! A series holds one amount per month; index 0 is the month of the
//! reference date it was built for.
use vstd::prelude::*;
use crate::amount::{
    amount_difference, amount_sum, difference_of, is_negative, spec_is_negative, sum_of, ZERO,
};
use crate::calendar::{
    checked_date_after_months, spec_date_after_months, spec_date_exists_after, Date,
};

verus! {

/// The first `count` amounts of `v` added up from the left, starting from
/// zero.
pub open spec fn spec_running_total(v: Seq<u64>, count: int) -> u64
    decreases count,
{
    if count <= 0 {
        ZERO
    } else {
        amount_sum(spec_running_total(v, count - 1), v[count - 1])
    }
}

/// The series of running totals: entry `i` is the total of `v[0]` to `v[i]`.
pub open spec fn spec_cum_sum(v: Seq<u64>) -> Seq<u64> {
    Seq::new(v.len(), |i: int| spec_running_total(v, i + 1))
}

/// The sum of two series, month by month. The result is as long as the
/// longer one; where only one of them has a month, its amount is taken
/// unchanged. Where both have it, the amount of the shorter series is added
/// to that of the longer one (to that of `b` when they are equally long).
pub open spec fn spec_add(a: Seq<u64>, b: Seq<u64>) -> Seq<u64> {
    if a.len() > b.len() {
        Seq::new(
            a.len(),
            |i: int|
                if i < b.len() {
                    amount_sum(a[i], b[i])
                } else {
                    a[i]
                },
        )
    } else {
        Seq::new(
            b.len(),
            |i: int|
                if i < a.len() {
                    amount_sum(b[i], a[i])
                } else {
                    b[i]
                },
        )
    }
}

/// The difference of two equally long series, month by month.
pub open spec fn spec_minus(a: Seq<u64>, b: Seq<u64>) -> Seq<u64> {
    Seq::new(a.len(), |i: int| amount_difference(a[i], b[i]))
}

/// Whether no balance of the series is below zero.
pub open spec fn spec_balances_valid(balances: Seq<u64>) -> bool {
    forall|i: int| 0 <= i < balances.len() ==> !spec_is_negative(#[trigger] balances[i])
}

/// Running totals of a series: entry `i` of the result is the total of the
/// entries 0 to `i` of `vec`.
pub fn cum_sum(vec: &Vec<u64>) -> (res: Vec<u64>)
    ensures
        res@ == spec_cum_sum(vec@),
{
    let mut res: Vec<u64> = Vec::new();
    let mut total: u64 = ZERO;
    let mut i: usize = 0;
    while i < vec.len()
        invariant
            i <= vec.len(),
            res.len() == i,
            total == spec_running_total(vec@, i as int),
            forall|j: int| 0 <= j < i ==> res[j] == spec_running_total(vec@, j + 1),
        decreases vec.len() - i,
    {
        total = sum_of(total, vec[i]);
        res.push(total);
        i += 1;
    }
    assert(res@ =~= spec_cum_sum(vec@));
    res
}

/// Adds two series month by month; see [`spec_add`] for months that only
/// one of them has.
pub fn add(vec1: &Vec<u64>, vec2: &Vec<u64>) -> (res: Vec<u64>)
    ensures
        res@ == spec_add(vec1@, vec2@),
{
    let first_is_longer = vec1.len() > vec2.len();
    let (base, other) = if first_is_longer {
        (vec1, vec2)
    } else {
        (vec2, vec1)
    };
    let mut res: Vec<u64> = Vec::new();
    let mut i: usize = 0;
    while i < base.len()
        invariant
            i <= base.len(),
            other.len() <= base.len(),
            res.len() == i,
            forall|j: int|
                0 <= j < i ==> res[j] == if j < other.len() {
                    amount_sum(base[j], other[j])
                } else {
                    base[j]
                },
        decreases base.len() - i,
    {
        if i < other.len() {
            res.push(sum_of(base[i], other[i]));
        } else {
            res.push(base[i]);
        }
        i += 1;
    }
    assert(res@ =~= spec_add(vec1@, vec2@));
    res
}

/// Subtracts `vec2` from `vec1` month by month.
pub fn minus(vec1: &Vec<u64>, vec2: &Vec<u64>) -> (res: Vec<u64>)
    requires
        vec1.len() == vec2.len(),
    ensures
        res@ == spec_minus(vec1@, vec2@),
{
    let mut res: Vec<u64> = Vec::new();
    let mut i: usize = 0;
    while i < vec1.len()
        invariant
            i <= vec1.len(),
            vec1.len() == vec2.len(),
            res.len() == i,
            forall|j: int| 0 <= j < i ==> res[j] == amount_difference(vec1[j], vec2[j]),
        decreases vec1.len() - i,
    {
        res.push(difference_of(vec1[i], vec2[i]));
        i += 1;
    }
    assert(res@ =~= spec_minus(vec1@, vec2@));
    res
}

/// Whether no balance of the series is below zero.
pub fn are_balances_valid(balances: &Vec<u64>) -> (r: bool)
    ensures
        r == spec_balances_valid(balances@),
{
    let mut i: usize = 0;
    while i < balances.len()
        invariant
            i <= balances.len(),
            forall|j: int| 0 <= j < i ==> !spec_is_negative(#[trigger] balances[j]),
        decreases balances.len() - i,
    {
        if is_negative(balances[i]) {
            return false;
        }
        i += 1;
    }
    true
}

/// The date `months` calendar months after `current_date`, on the same day
/// of the month. A year is added for each December passed.
pub fn date_after_months(current_date: &Date, months: i16) -> (r: Date)
    requires
        spec_date_exists_after(current_date@, months as int),
    ensures
        r@ == spec_date_after_months(current_date@, months as int),
{
    match checked_date_after_months(current_date, months) {
        Some(date) => date,
        None => unreached(),
    }
}

/// Whether four amounts can be regrouped without a change in rounding:
/// whether `(w + x) + (y + z)` is `(w + y) + (x + z)`.
pub open spec fn spec_regroups(w: u64, x: u64, y: u64, z: u64) -> bool {
    amount_sum(amount_sum(w, x), amount_sum(y, z)) == amount_sum(
        amount_sum(w, y),
        amount_sum(x, z),
    )
}

/// Whether in month `i` of two equally long series it makes no difference
/// to rounding if the two amounts of the month are added to each other and
/// then to the totals so far, or each to the total of its own series first.
pub open spec fn spec_month_regroups(a: Seq<u64>, b: Seq<u64>, i: int) -> bool {
    if i == 0 {
        amount_sum(ZERO, amount_sum(b[0], a[0])) == amount_sum(
            amount_sum(ZERO, b[0]),
            amount_sum(ZERO, a[0]),
        )
    } else {
        spec_regroups(spec_running_total(b, i), spec_running_total(a, i), b[i], a[i])
    }
}

/// The total of the first `count` months of the sum of two equally long
/// series is the sum of their two totals, if every one of these months
/// regroups.
proof fn lemma_running_total_of_add(a: Seq<u64>, b: Seq<u64>, count: int)
    requires
        a.len() == b.len(),
        1 <= count <= a.len(),
        forall|i: int| 0 <= i < count ==> spec_month_regroups(a, b, i),
    ensures
        spec_running_total(spec_add(a, b), count) == amount_sum(
            spec_running_total(b, count),
            spec_running_total(a, count),
        ),
    decreases count,
{
    assert(spec_month_regroups(a, b, count - 1));
    if count > 1 {
        lemma_running_total_of_add(a, b, count - 1);
    } else {
        assert(spec_running_total(spec_add(a, b), 0) == ZERO);
        assert(spec_running_total(a, 0) == ZERO);
        assert(spec_running_total(b, 0) == ZERO);
    }
}

/// For two equally long series, the running totals of their sum are the
/// sum of their running totals exactly when every month regroups. With
/// amounts that are rounded this is not so for all series.
pub proof fn lemma_cum_sum_of_add(a: Seq<u64>, b: Seq<u64>)
    requires
        a.len() == b.len(),
    ensures
        (spec_cum_sum(spec_add(a, b)) == spec_add(spec_cum_sum(a), spec_cum_sum(b))) <==> (forall|
            i: int,
        |
            0 <= i < a.len() ==> spec_month_regroups(a, b, i)),
{
    let of_sum = spec_cum_sum(spec_add(a, b));
    let sum_of = spec_add(spec_cum_sum(a), spec_cum_sum(b));
    if forall|i: int| 0 <= i < a.len() ==> spec_month_regroups(a, b, i) {
        assert forall|i: int| 0 <= i < a.len() implies of_sum[i] == sum_of[i] by {
            lemma_running_total_of_add(a, b, i + 1);
        }
        assert(of_sum =~= sum_of);
    }
    if of_sum == sum_of {
        assert forall|i: int| 0 <= i < a.len() implies spec_month_regroups(a, b, i) by {
            let sum = spec_add(a, b);
            assert(of_sum[i] == sum_of[i]);
            assert(of_sum[i] == amount_sum(spec_running_total(sum, i), sum[i]));
            assert(sum[i] == amount_sum(b[i], a[i]));
            assert(sum_of[i] == amount_sum(
                spec_running_total(b, i + 1),
                spec_running_total(a, i + 1),
            ));
            assert(spec_running_total(b, i + 1) == amount_sum(spec_running_total(b, i), b[i]));
            assert(spec_running_total(a, i + 1) == amount_sum(spec_running_total(a, i), a[i]));
            if i > 0 {
                assert(of_sum[i - 1] == sum_of[i - 1]);
                assert(of_sum[i - 1] == spec_running_total(sum, i));
                assert(sum_of[i - 1] == amount_sum(
                    spec_running_total(b, i),
                    spec_running_total(a, i),
                ));
            } else {
                assert(spec_running_total(sum, 0) == ZERO);
                assert(spec_running_total(a, 0) == ZERO);
                assert(spec_running_total(b, 0) == ZERO);
            }
        }
    }
}

/// Running totals cover the months of the series, and a sum covers the
/// months of the longer of the two series.
pub proof fn lemma_series_lengths(a: Seq<u64>, b: Seq<u64>)
    ensures
        spec_cum_sum(a).len() == a.len(),
        spec_add(a, b).len() == if a.len() > b.len() {
            a.len()
        } else {
            b.len()
        },
        spec_add(a, b).len() == spec_add(b, a).len(),
{
}

/// The sum of two series of different lengths does not depend on their
/// order. That of two equally long series does not depend on it exactly
/// when the rounded sum of the two amounts of each month does not.
pub proof fn lemma_add_order(a: Seq<u64>, b: Seq<u64>)
    ensures
        a.len() != b.len() ==> spec_add(a, b) == spec_add(b, a),
        a.len() == b.len() ==> (spec_add(a, b) == spec_add(b, a) <==> forall|i: int|
            0 <= i < a.len() ==> amount_sum(a[i], b[i]) == amount_sum(b[i], a[i])),
{
    if a.len() != b.len() {
        assert(spec_add(a, b) =~= spec_add(b, a));
    } else {
        if forall|i: int| 0 <= i < a.len() ==> amount_sum(a[i], b[i]) == amount_sum(b[i], a[i]) {
            assert(spec_add(a, b) =~= spec_add(b, a));
        }
        if spec_add(a, b) == spec_add(b, a) {
            assert forall|i: int| 0 <= i < a.len() implies amount_sum(a[i], b[i]) == amount_sum(
                b[i],
                a[i],
            ) by {
                assert(spec_add(a, b)[i] == amount_sum(b[i], a[i]));
                assert(spec_add(b, a)[i] == amount_sum(a[i], b[i]));
            }
        }
    }
}

/// A series added to a series of no months stays as it is.
pub proof fn lemma_add_empty(a: Seq<u64>)
    ensures
        spec_add(a, Seq::empty()) == a,
        spec_add(Seq::empty(), a) == a,
{
    assert(spec_add(a, Seq::empty()) =~= a);
    assert(spec_add(Seq::empty(), a) =~= a);
}

} // verus!
