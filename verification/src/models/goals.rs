//! Spending goals, and the finding whether a goal can be afforded.
use vstd::prelude::*;
use crate::amount::{is_negative, spec_is_negative};
use crate::calendar::{Date, Ymd};
use crate::models::changes::{Changes, FinancialStateChanges};
use crate::models::purchases::Purchase;
use crate::models::sources::FinancialStateInfluencer;
use crate::utils::{cum_sum, spec_add, spec_cum_sum};

verus! {

/// Something one hopes to buy, if the money is there when the time comes.
#[derive(Debug, PartialEq)]
pub struct SpendingGoal {
    pub name: String,
    pub date: Date,
    pub item_purchased: Purchase,
}

impl Clone for SpendingGoal {
    fn clone(&self) -> (r: Self)
        ensures
            r == *self,
    {
        SpendingGoal {
            name: self.name.clone(),
            date: self.date,
            item_purchased: self.item_purchased.clone(),
        }
    }
}

impl FinancialStateInfluencer for SpendingGoal {
    open spec fn renders_at(&self, current_date: Ymd) -> bool {
        self.item_purchased.renders_at(current_date)
    }

    /// The changes of the item to be bought.
    open spec fn changes_at(&self, current_date: Ymd) -> Changes {
        self.item_purchased.changes_at(current_date)
    }

    fn generate_financial_state_changes(&self, current_date: &Date) -> (r: FinancialStateChanges) {
        self.item_purchased.generate_financial_state_changes(current_date)
    }
}

impl SpendingGoal {
    /// Whether the goal can be laid out from `current_date`.
    pub fn can_render_at(&self, current_date: &Date) -> (r: bool)
        ensures
            r == self.renders_at(current_date@),
    {
        self.item_purchased.can_render_at(current_date)
    }
}

/// Whether a goal with the cashflow `goal_cashflow` can be afforded on top
/// of the cash balances `cash_balance`: the running totals of the goal's
/// cashflow are added to the balances, and in no month that both the goal
/// and the balances cover may the result be below zero.
pub open spec fn spec_is_affordable(goal_cashflow: Seq<u64>, cash_balance: Seq<u64>) -> bool {
    forall|i: int|
        0 <= i < goal_cashflow.len() && i < cash_balance.len() ==> !spec_is_negative(
            #[trigger] spec_add(cash_balance, spec_cum_sum(goal_cashflow))[i],
        )
}

/// A spending goal together with the finding whether it can be afforded.
#[derive(Debug, PartialEq)]
pub struct ProcessedSpendingGoal {
    pub is_achieveable: bool,
    pub original_spending_goal: SpendingGoal,
}

impl Clone for ProcessedSpendingGoal {
    fn clone(&self) -> (r: Self)
        ensures
            r == *self,
    {
        ProcessedSpendingGoal {
            is_achieveable: self.is_achieveable,
            original_spending_goal: self.original_spending_goal.clone(),
        }
    }
}

impl ProcessedSpendingGoal {
    /// Finds out whether `spending_goal` can be afforded on top of the cash
    /// balances `cash_balance_vec`, which start in the month of
    /// `current_date`. Months that the goal does not reach, and months
    /// beyond the balances, do not count against it.
    pub fn from_spending_goal(
        spending_goal: &SpendingGoal,
        cash_balance_vec: &Vec<u64>,
        current_date: &Date,
    ) -> (r: Self)
        requires
            spending_goal.renders_at(current_date@),
        ensures
            r.is_achieveable == spec_is_affordable(
                spending_goal.changes_at(current_date@).cashflow,
                cash_balance_vec@,
            ),
            r.original_spending_goal == *spending_goal,
    {
        let fin_state_changes = spending_goal.generate_financial_state_changes(current_date);
        let is_achievable = balances_with_goal(
            &fin_state_changes.cashflow,
            cash_balance_vec,
        ).is_some();
        ProcessedSpendingGoal {
            is_achieveable: is_achievable,
            original_spending_goal: spending_goal.clone(),
        }
    }
}

/// The cash balances with a goal taken in: the running totals of the goal's
/// cashflow added to `cash_balance`. `None` if the goal cannot be afforded.
pub fn balances_with_goal(goal_cashflow: &Vec<u64>, cash_balance: &Vec<u64>) -> (r: Option<
    Vec<u64>,
>)
    ensures
        r.is_some() == spec_is_affordable(goal_cashflow@, cash_balance@),
        r.is_some() ==> r.unwrap()@ == spec_add(cash_balance@, spec_cum_sum(goal_cashflow@)),
{
    let combined = crate::utils::add(cash_balance, &cum_sum(goal_cashflow));
    let mut i: usize = 0;
    while i < goal_cashflow.len() && i < cash_balance.len()
        invariant
            combined@ == spec_add(cash_balance@, spec_cum_sum(goal_cashflow@)),
            forall|j: int| 0 <= j < i ==> !spec_is_negative(#[trigger] combined[j]),
        decreases goal_cashflow.len() - i,
    {
        if is_negative(combined[i]) {
            return None;
        }
        i += 1;
    }
    Some(combined)
}

/// Whether a goal can be afforded depends on the balances of the months
/// that the goal covers only: balances of equally many months that are the
/// same in those months give the same finding.
pub proof fn lemma_affordable_within_horizon(
    goal_cashflow: Seq<u64>,
    cash_balance: Seq<u64>,
    other_balance: Seq<u64>,
)
    requires
        cash_balance.len() == other_balance.len(),
        forall|i: int|
            0 <= i < goal_cashflow.len() && i < cash_balance.len() ==> cash_balance[i]
                == other_balance[i],
    ensures
        spec_is_affordable(goal_cashflow, cash_balance) == spec_is_affordable(
            goal_cashflow,
            other_balance,
        ),
{
    let totals = spec_cum_sum(goal_cashflow);
    assert forall|i: int| 0 <= i < goal_cashflow.len() && i < cash_balance.len() implies spec_add(
        cash_balance,
        totals,
    )[i] == spec_add(other_balance, totals)[i] by {}
}

} // verus!
