//! The forecast for one month of retirement: the undesirable incomes are
//! cut off in that month, and the spending goals are taken in one by one
//! while they can be afforded.
use vstd::prelude::*;
use crate::amount::ZERO;
use crate::calendar::{spec_date_after_months, spec_date_exists_after, Date, Ymd};
use crate::models::{
    balances_with_goal, spec_contains_overdraft, spec_is_affordable, Changes, FinancialForecast,
    FinancialStateChanges, FinancialStateInfluencer, Forecast, ProcessedSpendingGoal, SpendingGoal,
};
use crate::utils::{
    are_balances_valid, cum_sum, date_after_months, minus, spec_add, spec_cum_sum, spec_minus,
};

verus! {

/// The income `income` with its cash cut off from month `point` on: the
/// cashflow is zero in month `point` and in every later month. Assets and
/// liabilities are as they are in `income`.
pub open spec fn spec_truncated(income: Changes, point: int) -> Changes {
    Changes {
        cashflow: Seq::new(
            income.cashflow.len(),
            |i: int|
                if i >= point {
                    ZERO
                } else {
                    income.cashflow[i]
                },
        ),
        assets_delta: income.assets_delta,
        liabilities_delta: income.liabilities_delta,
    }
}

/// Cuts the cash of `undesirable_income` off from month `bisection_point`
/// on: what the income would be if it were given up in that month.
pub fn bisect_vectors_from_undesirable_income(
    undesirable_income: &FinancialStateChanges,
    bisection_point: i16,
) -> (r: FinancialStateChanges)
    ensures
        r@ == spec_truncated(undesirable_income@, bisection_point as int),
{
    let mut cash_deltas: Vec<u64> = Vec::new();
    let mut index: usize = 0;
    while index < undesirable_income.cashflow.len()
        invariant
            index <= undesirable_income.cashflow.len(),
            cash_deltas.len() == index,
            forall|j: int|
                0 <= j < index ==> cash_deltas[j] == if j >= bisection_point {
                    ZERO
                } else {
                    undesirable_income.cashflow[j]
                },
        decreases undesirable_income.cashflow.len() - index,
    {
        if bisection_point < 0 || index >= bisection_point as usize {
            cash_deltas.push(ZERO);
        } else {
            cash_deltas.push(undesirable_income.cashflow[index]);
        }
        index += 1;
    }
    assert(cash_deltas@ =~= spec_truncated(undesirable_income@, bisection_point as int).cashflow);
    FinancialStateChanges {
        cashflow: cash_deltas,
        assets_delta: undesirable_income.assets_delta.clone(),
        liabilities_delta: undesirable_income.liabilities_delta.clone(),
    }
}

/// Where the taking in of spending goals stands: the cash balances and the
/// changes with the goals afforded so far, the findings on the goals looked
/// at so far, and whether all of them could be afforded.
pub struct GoalFold {
    pub cash_balance: Seq<u64>,
    pub changes: Changes,
    pub processed: Seq<ProcessedSpendingGoal>,
    pub all_achievable: bool,
}

/// Takes one more goal in. The goal is afforded if, added to the cash
/// balances so far, it leaves no month that it covers below zero. If it is,
/// its running cashflow is added to the balances and its changes are merged
/// into the changes so far; if not, both stay as they are. Either way the
/// finding is recorded.
pub open spec fn spec_take_goal(before: GoalFold, goal: SpendingGoal, current_date: Ymd) -> GoalFold {
    let goal_changes = goal.changes_at(current_date);
    let affordable = spec_is_affordable(goal_changes.cashflow, before.cash_balance);
    GoalFold {
        cash_balance: if affordable {
            spec_add(before.cash_balance, spec_cum_sum(goal_changes.cashflow))
        } else {
            before.cash_balance
        },
        changes: if affordable {
            before.changes.merge(goal_changes)
        } else {
            before.changes
        },
        processed: before.processed.push(
            ProcessedSpendingGoal { is_achieveable: affordable, original_spending_goal: goal },
        ),
        all_achievable: before.all_achievable && affordable,
    }
}

/// Takes the goals in one by one, from the first to the last.
pub open spec fn spec_take_goals(start: GoalFold, goals: Seq<SpendingGoal>, current_date: Ymd) -> GoalFold
    decreases goals.len(),
{
    if goals.len() == 0 {
        start
    } else {
        spec_take_goal(
            spec_take_goals(start, goals.drop_last(), current_date),
            goals.last(),
            current_date,
        )
    }
}

/// What is certain if the undesirable incomes are given up in month
/// `month`: these incomes up to that month, merged with the fixed changes.
pub open spec fn spec_baseline(fixed: Changes, undesirable: Changes, month: int) -> Changes {
    spec_truncated(undesirable, month).merge(fixed)
}

/// The forecast for giving the undesirable incomes up in month `month`.
/// The goals are taken in on top of the baseline. The monthly cashflow is
/// that of the changes with the goals afforded, net worth is the running
/// total of their assets less that of their liabilities, and the date of
/// financial independence lies `month` months after `current_date`.
pub open spec fn spec_candidate(
    fixed: Changes,
    undesirable: Changes,
    goals: Seq<SpendingGoal>,
    current_date: Ymd,
    month: int,
) -> Forecast {
    let baseline = spec_baseline(fixed, undesirable, month);
    let taken = spec_take_goals(
        GoalFold {
            cash_balance: spec_cum_sum(baseline.cashflow),
            changes: baseline,
            processed: Seq::empty(),
            all_achievable: true,
        },
        goals,
        current_date,
    );
    Forecast {
        spending_goals: taken.processed,
        monthly_cashflow_deltas: taken.changes.cashflow,
        monthly_networth: spec_minus(
            spec_cum_sum(taken.changes.assets_delta),
            spec_cum_sum(taken.changes.liabilities_delta),
        ),
        financial_independence_date: spec_date_after_months(current_date, month),
        all_spending_goals_achievable: taken.all_achievable,
    }
}

/// Taking goals in keeps assets and liabilities aligned, if each goal can
/// be laid out from `current_date`.
pub proof fn lemma_take_goals_aligned(start: GoalFold, goals: Seq<SpendingGoal>, current_date: Ymd)
    requires
        start.changes.is_aligned(),
        forall|i: int| 0 <= i < goals.len() ==> (#[trigger] goals[i]).renders_at(current_date),
    ensures
        spec_take_goals(start, goals, current_date).changes.is_aligned(),
    decreases goals.len(),
{
    if goals.len() > 0 {
        lemma_take_goals_aligned(start, goals.drop_last(), current_date);
        assert(goals.last().renders_at(current_date));
    }
}

/// Makes the forecast for giving the undesirable incomes up in month
/// `month`, or `None` if the fixed incomes and expenses alone overdraw the
/// account in some month.
pub fn candidate_forecast(
    fixed: &FinancialStateChanges,
    undesirable: &FinancialStateChanges,
    goals: &Vec<SpendingGoal>,
    current_date: &Date,
    month: i16,
) -> (r: Option<FinancialForecast>)
    requires
        fixed@.is_aligned(),
        undesirable@.is_aligned(),
        forall|i: int| 0 <= i < goals.len() ==> (#[trigger] goals[i]).renders_at(current_date@),
        spec_date_exists_after(current_date@, month as int),
    ensures
        r.is_none() == spec_contains_overdraft(
            spec_baseline(fixed@, undesirable@, month as int).cashflow,
        ),
        r.is_some() ==> r.unwrap()@ == spec_candidate(
            fixed@,
            undesirable@,
            goals@,
            current_date@,
            month as int,
        ),
{
    let current_income_from_undesirable_sources = bisect_vectors_from_undesirable_income(
        undesirable,
        month,
    );
    let base_fin_state_changes = current_income_from_undesirable_sources.merge(fixed);
    let mut cash_balance = cum_sum(&base_fin_state_changes.cashflow);
    if !are_balances_valid(&cash_balance) {
        return None;
    }
    let ghost start = GoalFold {
        cash_balance: cash_balance@,
        changes: base_fin_state_changes@,
        processed: Seq::empty(),
        all_achievable: true,
    };
    let mut final_merged_fin_state_changes = base_fin_state_changes;
    let mut spending_goals: Vec<ProcessedSpendingGoal> = Vec::new();
    let mut all_spending_goals_achievable: bool = true;
    let mut i: usize = 0;
    while i < goals.len()
        invariant
            i <= goals.len(),
            forall|j: int| 0 <= j < goals.len() ==> (#[trigger] goals[j]).renders_at(current_date@),
            start.changes.is_aligned(),
            spec_take_goals(start, goals@.take(i as int), current_date@) == (GoalFold {
                cash_balance: cash_balance@,
                changes: final_merged_fin_state_changes@,
                processed: spending_goals@,
                all_achievable: all_spending_goals_achievable,
            }),
        decreases goals.len() - i,
    {
        assert(goals@.take(i + 1).drop_last() =~= goals@.take(i as int));
        let spending_goal = &goals[i];
        let fin_state_changes = spending_goal.generate_financial_state_changes(current_date);
        match balances_with_goal(&fin_state_changes.cashflow, &cash_balance) {
            Some(balance_with_goal) => {
                spending_goals.push(
                    ProcessedSpendingGoal {
                        is_achieveable: true,
                        original_spending_goal: spending_goal.clone(),
                    },
                );
                cash_balance = balance_with_goal;
                final_merged_fin_state_changes = final_merged_fin_state_changes.merge(
                    &fin_state_changes,
                );
            },
            None => {
                spending_goals.push(
                    ProcessedSpendingGoal {
                        is_achieveable: false,
                        original_spending_goal: spending_goal.clone(),
                    },
                );
                all_spending_goals_achievable = false;
            },
        }
        i += 1;
    }
    proof {
        assert(goals@.take(i as int) =~= goals@);
        lemma_take_goals_aligned(start, goals@, current_date@);
    }
    let networth = minus(
        &cum_sum(&final_merged_fin_state_changes.assets_delta),
        &cum_sum(&final_merged_fin_state_changes.liabilities_delta),
    );
    Some(
        FinancialForecast {
            all_spending_goals_achievable,
            spending_goals,
            financial_independence_date: date_after_months(current_date, month),
            monthly_cashflow_deltas: final_merged_fin_state_changes.cashflow,
            monthly_networth: networth,
        },
    )
}

} // verus!
