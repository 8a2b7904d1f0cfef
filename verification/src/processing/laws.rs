//! What holds of every search: what it can end with, when it fails, and
//! that its result depends on nothing but what it is given.
use vstd::prelude::*;
use crate::calendar::Ymd;
use crate::models::{
    lemma_merge_empty, spec_contains_overdraft, spec_improves_on, Changes, FinancialForecast,
    FinancialStateInfluencers, Forecast, SpendingGoal,
};
use crate::models::spec_zeros;
use crate::processing::candidate::{
    spec_baseline, spec_candidate, spec_take_goal, spec_take_goals, spec_truncated, GoalFold,
};
use crate::utils::spec_cum_sum;
use crate::processing::search::{
    spec_forecast, spec_refine, spec_result_view, spec_search,
    ProcessFinancialStateInfluencersErrors,
};
use crate::processing::window::{lemma_tries, BisectionPoints};

verus! {

/// Cutting an income off keeps its months. Cut off at or after its last
/// month it stays as it is, cut off in its first month or before it has no
/// cash left, and cut off twice it is cut off at the earlier month.
pub proof fn lemma_truncated(income: Changes, point: int, other_point: int)
    ensures
        spec_truncated(income, point).cashflow.len() == income.cashflow.len(),
        point >= income.cashflow.len() ==> spec_truncated(income, point) == income,
        point <= 0 ==> spec_truncated(income, point).cashflow == spec_zeros(
            income.cashflow.len() as int,
        ),
        spec_truncated(spec_truncated(income, point), other_point) == spec_truncated(
            income,
            if point < other_point {
                point
            } else {
                other_point
            },
        ),
{
    if point >= income.cashflow.len() {
        assert(spec_truncated(income, point).cashflow =~= income.cashflow);
    }
    if point <= 0 {
        assert(spec_truncated(income, point).cashflow =~= spec_zeros(
            income.cashflow.len() as int,
        ));
    }
    assert(spec_truncated(spec_truncated(income, point), other_point).cashflow =~= spec_truncated(
        income,
        if point < other_point {
            point
        } else {
            other_point
        },
    ).cashflow);
}

/// Taking goals in, starting without findings, records one finding for
/// each goal, in the order of the goals; and all goals could be afforded
/// exactly when all could before and each finding says so.
pub proof fn lemma_take_goals_findings(start: GoalFold, goals: Seq<SpendingGoal>, current_date: Ymd)
    requires
        start.processed.len() == 0,
    ensures
        spec_take_goals(start, goals, current_date).processed.len() == goals.len(),
        forall|i: int|
            0 <= i < goals.len() ==> (#[trigger] spec_take_goals(
                start,
                goals,
                current_date,
            ).processed[i]).original_spending_goal == goals[i],
        spec_take_goals(start, goals, current_date).all_achievable <==> start.all_achievable
            && forall|i: int|
            0 <= i < goals.len() ==> (#[trigger] spec_take_goals(
                start,
                goals,
                current_date,
            ).processed[i]).is_achieveable,
    decreases goals.len(),
{
    if goals.len() > 0 {
        let before = spec_take_goals(start, goals.drop_last(), current_date);
        let after = spec_take_goals(start, goals, current_date);
        let last = goals.len() - 1;
        lemma_take_goals_findings(start, goals.drop_last(), current_date);
        assert(after == spec_take_goal(before, goals.last(), current_date));
        assert forall|i: int| 0 <= i < last implies #[trigger] after.processed[i]
            == before.processed[i] && goals.drop_last()[i] == goals[i] by {}
        if before.all_achievable && after.processed[last].is_achieveable {
            assert forall|i: int| 0 <= i < goals.len() implies (
                #[trigger] after.processed[i]).is_achieveable by {
                if i < last {
                    assert(before.processed[i].is_achieveable);
                }
            }
        }
        if forall|i: int| 0 <= i < goals.len() ==> (#[trigger] after.processed[i]).is_achieveable {
            assert(after.processed[last].is_achieveable);
            assert forall|i: int| 0 <= i < last implies (
                #[trigger] before.processed[i]).is_achieveable by {
                assert(after.processed[i].is_achieveable);
            }
        }
    }
}

/// The forecast for a month of retirement has one finding for each goal,
/// in the order of the goals, and says that all goals can be afforded
/// exactly when every finding does.
pub proof fn lemma_candidate_findings(
    fixed: Changes,
    undesirable: Changes,
    goals: Seq<SpendingGoal>,
    current_date: Ymd,
    month: int,
)
    ensures
        spec_candidate(fixed, undesirable, goals, current_date, month).spending_goals.len()
            == goals.len(),
        forall|i: int|
            0 <= i < goals.len() ==> (#[trigger] spec_candidate(
                fixed,
                undesirable,
                goals,
                current_date,
                month,
            ).spending_goals[i]).original_spending_goal == goals[i],
        spec_candidate(
            fixed,
            undesirable,
            goals,
            current_date,
            month,
        ).all_spending_goals_achievable <==> forall|i: int|
            0 <= i < goals.len() ==> (#[trigger] spec_candidate(
                fixed,
                undesirable,
                goals,
                current_date,
                month,
            ).spending_goals[i]).is_achieveable,
{
    let baseline = spec_baseline(fixed, undesirable, month);
    let start = GoalFold {
        cash_balance: spec_cum_sum(baseline.cashflow),
        changes: baseline,
        processed: Seq::empty(),
        all_achievable: true,
    };
    lemma_take_goals_findings(start, goals, current_date);
}

/// Whether `forecast` is the forecast for a month that a search of
/// `window` tries and for which the fixed incomes and expenses do not
/// overdraw the account.
pub open spec fn spec_is_candidate_of(
    fixed: Changes,
    undesirable: Changes,
    goals: Seq<SpendingGoal>,
    current_date: Ymd,
    window: BisectionPoints,
    forecast: Forecast,
) -> bool {
    exists|month: int| #[trigger]
        window.spec_tries(month) && !spec_contains_overdraft(
            spec_baseline(fixed, undesirable, month).cashflow,
        ) && forecast == spec_candidate(fixed, undesirable, goals, current_date, month)
}

/// Whether the fixed incomes and expenses overdraw the account for a month
/// that a search of `window` tries.
pub open spec fn spec_is_overdrawn_in(
    fixed: Changes,
    undesirable: Changes,
    window: BisectionPoints,
) -> bool {
    exists|month: int| #[trigger]
        window.spec_tries(month) && spec_contains_overdraft(
            spec_baseline(fixed, undesirable, month).cashflow,
        )
}

/// A search that goes on from a window with at least one month fails
/// exactly when the fixed incomes and expenses overdraw the account for a
/// month that it tries, and then with `MonthlySpendingExceedsIncome`.
/// Otherwise it ends with the best forecast so far or with the forecast
/// for a month that it tries.
pub proof fn lemma_refine_outcomes(
    fixed: Changes,
    undesirable: Changes,
    goals: Seq<SpendingGoal>,
    current_date: Ymd,
    window: BisectionPoints,
    best: Forecast,
)
    requires
        window.start <= window.end,
    ensures
        spec_refine(fixed, undesirable, goals, current_date, window, best) is Err
            <==> spec_is_overdrawn_in(fixed, undesirable, window),
        match spec_refine(fixed, undesirable, goals, current_date, window, best) {
            Ok(forecast) => forecast == best || spec_is_candidate_of(
                fixed,
                undesirable,
                goals,
                current_date,
                window,
                forecast,
            ),
            Err(error) => error
                == ProcessFinancialStateInfluencersErrors::MonthlySpendingExceedsIncome,
        },
    decreases window.end - window.start,
{
    let month = window.spec_middle();
    let result = spec_refine(fixed, undesirable, goals, current_date, window, best);
    lemma_tries(window, month);
    if spec_contains_overdraft(spec_baseline(fixed, undesirable, month).cashflow) {
        assert(spec_is_overdrawn_in(fixed, undesirable, window));
    } else {
        let candidate = spec_candidate(fixed, undesirable, goals, current_date, month);
        let favoured = if spec_improves_on(
            candidate.monthly_cashflow_deltas,
            best.monthly_cashflow_deltas,
        ) {
            candidate
        } else {
            best
        };
        assert(spec_is_candidate_of(fixed, undesirable, goals, current_date, window, candidate));
        match window.spec_narrowed() {
            None => {
                if spec_is_overdrawn_in(fixed, undesirable, window) {
                    let found = choose|m: int| #[trigger]
                        window.spec_tries(m) && spec_contains_overdraft(
                            spec_baseline(fixed, undesirable, m).cashflow,
                        );
                    lemma_tries(window, found);
                }
            },
            Some(narrower) => {
                lemma_refine_outcomes(fixed, undesirable, goals, current_date, narrower, favoured);
                if spec_is_overdrawn_in(fixed, undesirable, window) {
                    let found = choose|m: int| #[trigger]
                        window.spec_tries(m) && spec_contains_overdraft(
                            spec_baseline(fixed, undesirable, m).cashflow,
                        );
                    lemma_tries(window, found);
                    assert(narrower.spec_tries(found));
                }
                if spec_is_overdrawn_in(fixed, undesirable, narrower) {
                    let found = choose|m: int| #[trigger]
                        narrower.spec_tries(m) && spec_contains_overdraft(
                            spec_baseline(fixed, undesirable, m).cashflow,
                        );
                    lemma_tries(window, found);
                    assert(window.spec_tries(found));
                }
                match result {
                    Ok(forecast) => {
                        if spec_is_candidate_of(
                            fixed,
                            undesirable,
                            goals,
                            current_date,
                            narrower,
                            forecast,
                        ) {
                            let found = choose|m: int| #[trigger]
                                narrower.spec_tries(m) && !spec_contains_overdraft(
                                    spec_baseline(fixed, undesirable, m).cashflow,
                                ) && forecast == spec_candidate(
                                    fixed,
                                    undesirable,
                                    goals,
                                    current_date,
                                    m,
                                );
                            lemma_tries(window, found);
                            assert(window.spec_tries(found));
                        }
                    },
                    Err(_) => {},
                }
            },
        }
    }
}

/// What a search ends with, and when it fails.
///
/// A forecast that it gives is the forecast for a month that it tries and
/// for which the fixed incomes and expenses do not overdraw the account.
///
/// It fails with `UnableToProduceFinancialForecast` exactly when the
/// window holds no month, or when for the first month tried the account is
/// not overdrawn but a goal cannot be afforded.
///
/// It fails with `MonthlySpendingExceedsIncome` exactly when the window
/// holds a month and either the account is overdrawn for the first month
/// tried, or all goals can be afforded for that month and the account is
/// overdrawn for a month that is tried later.
pub proof fn lemma_search_outcomes(
    fixed: Changes,
    undesirable: Changes,
    goals: Seq<SpendingGoal>,
    current_date: Ymd,
    window: BisectionPoints,
)
    ensures
        match spec_search(fixed, undesirable, goals, current_date, window) {
            Ok(forecast) => spec_is_candidate_of(
                fixed,
                undesirable,
                goals,
                current_date,
                window,
                forecast,
            ),
            Err(_) => true,
        },
        spec_search(fixed, undesirable, goals, current_date, window) == Err::<
            Forecast,
            ProcessFinancialStateInfluencersErrors,
        >(ProcessFinancialStateInfluencersErrors::UnableToProduceFinancialForecast) <==> (
        window.start > window.end || (!spec_contains_overdraft(
            spec_baseline(fixed, undesirable, window.spec_middle()).cashflow,
        ) && !spec_candidate(
            fixed,
            undesirable,
            goals,
            current_date,
            window.spec_middle(),
        ).all_spending_goals_achievable)),
        spec_search(fixed, undesirable, goals, current_date, window) == Err::<
            Forecast,
            ProcessFinancialStateInfluencersErrors,
        >(ProcessFinancialStateInfluencersErrors::MonthlySpendingExceedsIncome) <==> (
        window.start <= window.end && (spec_contains_overdraft(
            spec_baseline(fixed, undesirable, window.spec_middle()).cashflow,
        ) || (spec_candidate(
            fixed,
            undesirable,
            goals,
            current_date,
            window.spec_middle(),
        ).all_spending_goals_achievable && spec_is_overdrawn_in(fixed, undesirable, window)))),
{
    if window.start <= window.end {
        let month = window.spec_middle();
        lemma_tries(window, month);
        if !spec_contains_overdraft(spec_baseline(fixed, undesirable, month).cashflow) {
            let candidate = spec_candidate(fixed, undesirable, goals, current_date, month);
            assert(spec_is_candidate_of(
                fixed,
                undesirable,
                goals,
                current_date,
                window,
                candidate,
            ));
            if candidate.all_spending_goals_achievable {
                if window.spec_narrowed().is_some() {
                    lemma_refine_outcomes(
                        fixed,
                        undesirable,
                        goals,
                        current_date,
                        window,
                        candidate,
                    );
                } else if spec_is_overdrawn_in(fixed, undesirable, window) {
                    let found = choose|m: int| #[trigger]
                        window.spec_tries(m) && spec_contains_overdraft(
                            spec_baseline(fixed, undesirable, m).cashflow,
                        );
                    lemma_tries(window, found);
                }
            }
        } else {
            assert(spec_is_overdrawn_in(fixed, undesirable, window));
        }
    }
}

/// If for the first month tried the fixed incomes and expenses, with the
/// undesirable incomes up to that month, overdraw the account in some
/// month, the forecast fails with `MonthlySpendingExceedsIncome`.
pub proof fn lemma_overdrawn_baseline_fails(
    influencers: FinancialStateInfluencers,
    current_date: Ymd,
    window: BisectionPoints,
)
    requires
        window.start <= window.end,
        spec_contains_overdraft(
            spec_baseline(
                influencers.spec_fixed_changes(current_date),
                influencers.spec_undesirable_income(current_date),
                window.spec_middle(),
            ).cashflow,
        ),
    ensures
        spec_forecast(influencers, current_date, window) == Err::<
            Forecast,
            ProcessFinancialStateInfluencersErrors,
        >(ProcessFinancialStateInfluencersErrors::MonthlySpendingExceedsIncome),
{
}

/// If no income is undesirable and the fixed incomes and expenses
/// overdraw the account in some month, the forecast fails with
/// `MonthlySpendingExceedsIncome`, whatever the goals are.
pub proof fn lemma_overdrawn_fixed_sources_fail(
    influencers: FinancialStateInfluencers,
    current_date: Ymd,
    window: BisectionPoints,
)
    requires
        window.start <= window.end,
        forall|i: int|
            0 <= i < influencers.monthly_income@.len()
                ==> !(#[trigger] influencers.monthly_income@[i]).is_undesirable,
        forall|i: int|
            0 <= i < influencers.once_off_income@.len()
                ==> !(#[trigger] influencers.once_off_income@[i]).is_undesirable,
        spec_contains_overdraft(influencers.spec_fixed_changes(current_date).cashflow),
    ensures
        spec_forecast(influencers, current_date, window) == Err::<
            Forecast,
            ProcessFinancialStateInfluencersErrors,
        >(ProcessFinancialStateInfluencersErrors::MonthlySpendingExceedsIncome),
{
    influencers.lemma_no_undesirable_income(current_date);
    let fixed = influencers.spec_fixed_changes(current_date);
    let month = window.spec_middle();
    assert(spec_truncated(Changes::empty(), month).cashflow =~= Seq::<u64>::empty());
    lemma_merge_empty(fixed);
    assert(spec_baseline(fixed, Changes::empty(), month) == fixed);
}

/// The forecast depends on what the records hold and on nothing else: two
/// sets of influencers with the same goals, expenses and incomes have the
/// same forecast.
pub proof fn lemma_forecast_depends_on_contents(
    first: FinancialStateInfluencers,
    second: FinancialStateInfluencers,
    current_date: Ymd,
    window: BisectionPoints,
)
    requires
        first.spending_goals@ == second.spending_goals@,
        first.once_off_expenses@ == second.once_off_expenses@,
        first.monthly_expenses@ == second.monthly_expenses@,
        first.monthly_income@ == second.monthly_income@,
        first.once_off_income@ == second.once_off_income@,
    ensures
        spec_forecast(first, current_date, window) == spec_forecast(second, current_date, window),
{
}

/// Two results of a forecast for the same influencers, date and window
/// are the same, amount for amount and bit for bit.
pub proof fn lemma_forecast_is_determined(
    influencers: FinancialStateInfluencers,
    current_date: Ymd,
    window: BisectionPoints,
    first: Result<FinancialForecast, ProcessFinancialStateInfluencersErrors>,
    second: Result<FinancialForecast, ProcessFinancialStateInfluencersErrors>,
)
    requires
        spec_result_view(first) == spec_forecast(influencers, current_date, window),
        spec_result_view(second) == spec_forecast(influencers, current_date, window),
    ensures
        spec_result_view(first) == spec_result_view(second),
        first is Ok ==> second is Ok && first->Ok_0@ == second->Ok_0@,
        first is Err ==> second is Err && first->Err_0 == second->Err_0,
{
}

} // verus!
