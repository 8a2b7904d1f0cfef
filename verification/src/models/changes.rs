//! Changes to cash, assets and liabilities month by month, and how they
//! are merged.
use vstd::prelude::*;
use crate::amount::ZERO;
use crate::utils::{lemma_add_empty, spec_add};

verus! {

/// Three month-indexed series of amounts, as mathematical sequences: the
/// view of a [`FinancialStateChanges`].
pub struct Changes {
    pub cashflow: Seq<u64>,
    pub assets_delta: Seq<u64>,
    pub liabilities_delta: Seq<u64>,
}

impl Changes {
    /// The changes that change nothing: three series of no months.
    pub open spec fn empty() -> Changes {
        Changes { cashflow: Seq::empty(), assets_delta: Seq::empty(), liabilities_delta: Seq::empty() }
    }

    /// The sum of two sets of changes, series by series.
    pub open spec fn merge(self, other: Changes) -> Changes {
        Changes {
            cashflow: spec_add(self.cashflow, other.cashflow),
            assets_delta: spec_add(self.assets_delta, other.assets_delta),
            liabilities_delta: spec_add(self.liabilities_delta, other.liabilities_delta),
        }
    }

    /// Whether assets and liabilities cover the same months, so that net
    /// worth can be taken month by month.
    pub open spec fn is_aligned(self) -> bool {
        self.assets_delta.len() == self.liabilities_delta.len()
    }
}

/// The views of a sequence of changes.
pub open spec fn spec_views(changes: Seq<FinancialStateChanges>) -> Seq<Changes> {
    Seq::new(changes.len(), |i: int| changes[i]@)
}

/// All the changes of a sequence merged from the left, starting from the
/// empty changes.
pub open spec fn spec_merge_changes(changes: Seq<Changes>) -> Changes
    decreases changes.len(),
{
    if changes.len() == 0 {
        Changes::empty()
    } else {
        spec_merge_changes(changes.drop_last()).merge(changes.last())
    }
}

/// How some event changes a person's finances month by month: what it adds
/// to cash, to the value of assets and to liabilities. Index 0 of each series
/// is the month of the reference date the changes were made for.
///
/// Buying a house worth 100000 with a deposit of 10000, paying the mortgage
/// off at 10000 a month while the house gains 1000 a month, and selling it
/// after six months reads, as amounts:
///
/// ```text
/// cashflow:          -10000 -10000 -10000 -10000 -10000 -10000   65000
/// assets_delta:      100000   1000   1000   1000   1000   1000 -105000
/// liabilities_delta:  90000 -10000 -10000 -10000 -10000 -10000  -40000
/// ```
#[derive(Debug, PartialEq)]
pub struct FinancialStateChanges {
    pub cashflow: Vec<u64>,
    pub assets_delta: Vec<u64>,
    pub liabilities_delta: Vec<u64>,
}

impl View for FinancialStateChanges {
    type V = Changes;

    open spec fn view(&self) -> Changes {
        Changes {
            cashflow: self.cashflow@,
            assets_delta: self.assets_delta@,
            liabilities_delta: self.liabilities_delta@,
        }
    }
}

impl Clone for FinancialStateChanges {
    fn clone(&self) -> (r: Self)
        ensures
            r@ == self@,
    {
        FinancialStateChanges {
            cashflow: self.cashflow.clone(),
            assets_delta: self.assets_delta.clone(),
            liabilities_delta: self.liabilities_delta.clone(),
        }
    }
}

impl FinancialStateChanges {
    /// Changes that change nothing.
    pub fn new() -> (r: Self)
        ensures
            r@ == Changes::empty(),
    {
        Self::empty()
    }

    /// Changes that change nothing.
    pub fn empty() -> (r: Self)
        ensures
            r@ == Changes::empty(),
    {
        FinancialStateChanges {
            cashflow: Vec::new(),
            assets_delta: Vec::new(),
            liabilities_delta: Vec::new(),
        }
    }

    /// Merges all the changes of `changes`, from the first to the last.
    pub fn merge_changes(changes: &Vec<FinancialStateChanges>) -> (r: FinancialStateChanges)
        ensures
            r@ == spec_merge_changes(spec_views(changes@)),
    {
        let mut merged_changes = FinancialStateChanges::empty();
        let mut i: usize = 0;
        while i < changes.len()
            invariant
                i <= changes.len(),
                merged_changes@ == spec_merge_changes(spec_views(changes@).take(i as int)),
            decreases changes.len() - i,
        {
            proof {
                let views = spec_views(changes@);
                assert(views.take(i + 1).drop_last() =~= views.take(i as int));
            }
            merged_changes = merged_changes.merge(&changes[i]);
            i += 1;
        }
        assert(spec_views(changes@).take(i as int) =~= spec_views(changes@));
        merged_changes
    }

    /// The sum of these changes and `other`, series by series. Each series
    /// of the result is as long as the longer of the two it comes from.
    pub fn merge(&self, other: &FinancialStateChanges) -> (r: FinancialStateChanges)
        ensures
            r@ == self@.merge(other@),
    {
        FinancialStateChanges {
            cashflow: crate::utils::add(&self.cashflow, &other.cashflow),
            assets_delta: crate::utils::add(&self.assets_delta, &other.assets_delta),
            liabilities_delta: crate::utils::add(&self.liabilities_delta, &other.liabilities_delta),
        }
    }
}

/// Merging with the empty changes, on either side, changes nothing.
pub proof fn lemma_merge_empty(changes: Changes)
    ensures
        Changes::empty().merge(changes) == changes,
        changes.merge(Changes::empty()) == changes,
{
    lemma_add_empty(changes.cashflow);
    lemma_add_empty(changes.assets_delta);
    lemma_add_empty(changes.liabilities_delta);
}

/// Each series of a merge is as long as the longer of the two it comes
/// from; merging aligned changes gives aligned changes.
pub proof fn lemma_merge_lengths(a: Changes, b: Changes)
    ensures
        a.merge(b).cashflow.len() == if a.cashflow.len() > b.cashflow.len() {
            a.cashflow.len()
        } else {
            b.cashflow.len()
        },
        a.merge(b).assets_delta.len() == if a.assets_delta.len() > b.assets_delta.len() {
            a.assets_delta.len()
        } else {
            b.assets_delta.len()
        },
        a.merge(b).liabilities_delta.len() == if a.liabilities_delta.len()
            > b.liabilities_delta.len() {
            a.liabilities_delta.len()
        } else {
            b.liabilities_delta.len()
        },
        a.is_aligned() && b.is_aligned() ==> a.merge(b).is_aligned(),
{
}

/// A series of `months` zeros; of no months when `months` is not positive.
pub open spec fn spec_zeros(months: int) -> Seq<u64> {
    if months <= 0 {
        Seq::empty()
    } else {
        Seq::new(months as nat, |i: int| ZERO)
    }
}

/// A series of `months` months that is zero in all but the last, which
/// holds `amount`; of no months when `months` is not positive.
pub open spec fn spec_single_payment(months: int, amount: u64) -> Seq<u64> {
    if months <= 0 {
        Seq::empty()
    } else {
        Seq::new(
            months as nat,
            |i: int|
                if i == months - 1 {
                    amount
                } else {
                    ZERO
                },
        )
    }
}

/// A series of `months` months that holds `amount` in every month after
/// month `start` and zero up to and in month `start`; of no months when
/// `months` is not positive.
pub open spec fn spec_monthly_payments(months: int, start: int, amount: u64) -> Seq<u64> {
    if months <= 0 {
        Seq::empty()
    } else {
        Seq::new(
            months as nat,
            |i: int|
                if i > start {
                    amount
                } else {
                    ZERO
                },
        )
    }
}

/// Builds [`spec_zeros`].
pub fn zeros(months: i32) -> (r: Vec<u64>)
    ensures
        r@ == spec_zeros(months as int),
{
    let mut r: Vec<u64> = Vec::new();
    let mut i: i32 = 0;
    while i < months
        invariant
            0 <= i,
            i <= months || i == 0,
            r.len() == i,
            forall|j: int| 0 <= j < i ==> r[j] == ZERO,
        decreases months - i,
    {
        r.push(ZERO);
        i += 1;
    }
    assert(r@ =~= spec_zeros(months as int));
    r
}

/// Builds [`spec_single_payment`].
pub fn single_payment(months: i32, amount: u64) -> (r: Vec<u64>)
    ensures
        r@ == spec_single_payment(months as int, amount),
{
    let mut r: Vec<u64> = Vec::new();
    let mut i: i32 = 0;
    while i < months
        invariant
            0 <= i,
            i <= months || i == 0,
            r.len() == i,
            forall|j: int|
                0 <= j < i ==> r[j] == if j == months - 1 {
                    amount
                } else {
                    ZERO
                },
        decreases months - i,
    {
        if i == months - 1 {
            r.push(amount);
        } else {
            r.push(ZERO);
        }
        i += 1;
    }
    assert(r@ =~= spec_single_payment(months as int, amount));
    r
}

/// Builds [`spec_monthly_payments`].
pub fn monthly_payments(months: i32, start: i32, amount: u64) -> (r: Vec<u64>)
    ensures
        r@ == spec_monthly_payments(months as int, start as int, amount),
{
    let mut r: Vec<u64> = Vec::new();
    let mut i: i32 = 0;
    while i < months
        invariant
            0 <= i,
            i <= months || i == 0,
            r.len() == i,
            forall|j: int|
                0 <= j < i ==> r[j] == if j > start {
                    amount
                } else {
                    ZERO
                },
        decreases months - i,
    {
        if i > start {
            r.push(amount);
        } else {
            r.push(ZERO);
        }
        i += 1;
    }
    assert(r@ =~= spec_monthly_payments(months as int, start as int, amount));
    r
}

} // verus!
