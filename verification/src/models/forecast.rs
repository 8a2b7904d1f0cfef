//! The forecast: cash and net worth month by month, the findings on the
//! spending goals, and the date of financial independence.
use vstd::prelude::*;
use crate::amount::{less_than, spec_less_than};
use crate::calendar::{
    checked_date_after_months, spec_date_after_months, spec_date_exists_after, Date, Ymd,
};
use crate::models::goals::ProcessedSpendingGoal;
use crate::utils::{
    are_balances_valid, cum_sum, date_after_months, spec_balances_valid, spec_cum_sum,
};

verus! {

/// Whether the running totals of `deltas` are below zero in some month.
pub open spec fn spec_contains_overdraft(deltas: Seq<u64>) -> bool {
    !spec_balances_valid(spec_cum_sum(deltas))
}

/// Whether the last of `balances` is strictly above the last of
/// `reference`. Balances of no months have no last one: they are above
/// nothing, and any last balance is above them.
pub open spec fn spec_ends_above(balances: Seq<u64>, reference: Seq<u64>) -> bool {
    if balances.len() == 0 {
        false
    } else if reference.len() == 0 {
        true
    } else {
        spec_less_than(reference.last(), balances.last())
    }
}

/// Whether a forecast with the cashflow `candidate` improves on one with
/// the cashflow `reference`: its cash balance is in no month below zero,
/// and it ends strictly above that of the other.
pub open spec fn spec_improves_on(candidate: Seq<u64>, reference: Seq<u64>) -> bool {
    !spec_contains_overdraft(candidate) && spec_ends_above(
        spec_cum_sum(candidate),
        spec_cum_sum(reference),
    )
}

/// A forecast as mathematical values: the view of a [`FinancialForecast`].
pub struct Forecast {
    pub spending_goals: Seq<ProcessedSpendingGoal>,
    pub monthly_cashflow_deltas: Seq<u64>,
    pub monthly_networth: Seq<u64>,
    pub financial_independence_date: Ymd,
    pub all_spending_goals_achievable: bool,
}

/// What simulating all that is known of a person's finances gives: how cash
/// and net worth move month by month, which spending goals can be afforded,
/// and the date from which the undesirable incomes are no longer needed.
#[derive(Debug, PartialEq)]
pub struct FinancialForecast {
    pub spending_goals: Vec<ProcessedSpendingGoal>,
    pub monthly_cashflow_deltas: Vec<u64>,
    pub monthly_networth: Vec<u64>,
    pub financial_independence_date: Date,
    pub all_spending_goals_achievable: bool,
}

impl View for FinancialForecast {
    type V = Forecast;

    open spec fn view(&self) -> Forecast {
        Forecast {
            spending_goals: self.spending_goals@,
            monthly_cashflow_deltas: self.monthly_cashflow_deltas@,
            monthly_networth: self.monthly_networth@,
            financial_independence_date: self.financial_independence_date@,
            all_spending_goals_achievable: self.all_spending_goals_achievable,
        }
    }
}

impl FinancialForecast {
    /// Whether the dates of [`FinancialForecast::dates_series`] from
    /// `current_date` all exist: there are at most 32768 months, and the
    /// day of `current_date` exists in each of them.
    pub open spec fn dates_exist_from(&self, current_date: Ymd) -> bool {
        &&& self.monthly_cashflow_deltas.len() <= 32768
        &&& forall|i: int|
            1 <= i < self.monthly_cashflow_deltas.len() ==> #[trigger] spec_date_exists_after(
                current_date,
                i,
            )
    }

    /// The cash balance of each month: the running totals of the monthly
    /// cashflow.
    pub fn cash_balances(&self) -> (r: Vec<u64>)
        ensures
            r@ == spec_cum_sum(self.monthly_cashflow_deltas@),
    {
        cum_sum(&self.monthly_cashflow_deltas)
    }

    /// Whether the dates of [`FinancialForecast::dates_series`] from
    /// `current_date` all exist.
    pub fn can_give_dates_from(&self, current_date: &Date) -> (r: bool)
        ensures
            r == self.dates_exist_from(current_date@),
    {
        if self.monthly_cashflow_deltas.len() > 32768 {
            return false;
        }
        let mut i: usize = 1;
        while i < self.monthly_cashflow_deltas.len()
            invariant
                1 <= i,
                self.monthly_cashflow_deltas.len() <= 32768,
                forall|j: int| 1 <= j < i ==> #[trigger] spec_date_exists_after(current_date@, j),
            decreases self.monthly_cashflow_deltas.len() - i,
        {
            if checked_date_after_months(current_date, i as i16).is_none() {
                return false;
            }
            i += 1;
        }
        true
    }

    /// The date of each month of the forecast: `current_date`, then the
    /// same day one month later, and so on. A forecast of no months still
    /// gives `current_date`.
    pub fn dates_series(&self, current_date: &Date) -> (r: Vec<Date>)
        requires
            self.dates_exist_from(current_date@),
        ensures
            r.len() == if self.monthly_cashflow_deltas.len() == 0 {
                1
            } else {
                self.monthly_cashflow_deltas.len()
            },
            r[0] == *current_date,
            forall|i: int|
                1 <= i < r.len() ==> (#[trigger] r[i])@ == spec_date_after_months(
                    current_date@,
                    i,
                ),
    {
        let mut dates: Vec<Date> = Vec::new();
        dates.push(*current_date);
        let mut i: usize = 1;
        while i < self.monthly_cashflow_deltas.len()
            invariant
                1 <= i,
                i <= self.monthly_cashflow_deltas.len() || i == 1,
                self.dates_exist_from(current_date@),
                dates.len() == i,
                dates[0] == *current_date,
                forall|j: int|
                    1 <= j < i ==> (#[trigger] dates[j])@ == spec_date_after_months(
                        current_date@,
                        j,
                    ),
            decreases self.monthly_cashflow_deltas.len() - i,
        {
            assert(spec_date_exists_after(current_date@, i as int));
            dates.push(date_after_months(current_date, i as i16));
            i += 1;
        }
        dates
    }

    /// Whether the cash balance is below zero in some month.
    pub fn contains_period_of_overdraft(&self) -> (r: bool)
        ensures
            r == spec_contains_overdraft(self.monthly_cashflow_deltas@),
    {
        let cash_balances = self.cash_balances();
        !are_balances_valid(&cash_balances)
    }

    /// Whether `other` is the better forecast: its cash balance is in no
    /// month below zero, and it ends strictly above the cash balance of this
    /// one. A forecast that is overdrawn in some month is never the better
    /// one, whatever it ends with.
    pub fn was_improved_by(&self, other: &FinancialForecast) -> (r: bool)
        ensures
            r == spec_improves_on(other.monthly_cashflow_deltas@, self.monthly_cashflow_deltas@),
    {
        let current_cash_balances = self.cash_balances();
        let other_cash_balances = other.cash_balances();
        if other.contains_period_of_overdraft() {
            return false;
        }
        if other_cash_balances.len() == 0 {
            false
        } else if current_cash_balances.len() == 0 {
            true
        } else {
            less_than(
                current_cash_balances[current_cash_balances.len() - 1],
                other_cash_balances[other_cash_balances.len() - 1],
            )
        }
    }
}

} // verus!
