//! The search for the month of retirement.
use vstd::prelude::*;
use crate::calendar::{checked_date_after_months, spec_date_exists_after, Date, Ymd};
use crate::models::{
    spec_contains_overdraft, spec_improves_on, Changes, FinancialForecast,
    FinancialStateInfluencers, Forecast, SpendingGoal,
};
use crate::processing::candidate::{candidate_forecast, spec_baseline, spec_candidate};
use crate::processing::window::{lemma_tries, BisectionPoints};

verus! {

/// Why no forecast could be made.
#[derive(Debug, PartialEq, Eq, Clone, Copy)]
pub enum ProcessFinancialStateInfluencersErrors {
    /// The fixed incomes and expenses alone overdraw the account in some
    /// month.
    MonthlySpendingExceedsIncome,
    /// The search found no forecast that can be accepted.
    UnableToProduceFinancialForecast,
}

/// Whether the day of `current_date` exists in every month of retirement
/// that a search of `window` tries.
pub open spec fn spec_search_dates_exist(current_date: Ymd, window: BisectionPoints) -> bool {
    forall|month: int| #[trigger]
        window.spec_tries(month) ==> spec_date_exists_after(current_date, month)
}

/// The dates of a search exist if that of the middle month does and those
/// of the search of the narrowed window do.
pub proof fn lemma_search_dates_step(current_date: Ymd, window: BisectionPoints)
    requires
        window.start <= window.end,
    ensures
        spec_search_dates_exist(current_date, window) <==> spec_date_exists_after(
            current_date,
            window.spec_middle(),
        ) && (window.spec_narrowed().is_some() ==> spec_search_dates_exist(
            current_date,
            window.spec_narrowed().unwrap(),
        )),
{
    lemma_tries(window, window.spec_middle());
    if window.spec_narrowed().is_some() {
        let narrower = window.spec_narrowed().unwrap();
        if spec_search_dates_exist(current_date, window) {
            assert forall|month: int| #[trigger] narrower.spec_tries(month) implies
                spec_date_exists_after(current_date, month) by {
                lemma_tries(window, month);
            }
        }
        if spec_date_exists_after(current_date, window.spec_middle()) && spec_search_dates_exist(
            current_date,
            narrower,
        ) {
            assert forall|month: int| #[trigger] window.spec_tries(month) implies
                spec_date_exists_after(current_date, month) by {
                lemma_tries(window, month);
            }
        }
    } else {
        if spec_date_exists_after(current_date, window.spec_middle()) {
            assert forall|month: int| #[trigger] window.spec_tries(month) implies
                spec_date_exists_after(current_date, month) by {
                lemma_tries(window, month);
            }
        }
    }
}

/// The search from `window` on, with `best` the best forecast so far.
///
/// The middle month of the window is tried. If the fixed incomes and
/// expenses alone overdraw the account for it, the search fails. If not,
/// the forecast for that month takes the place of `best` if it improves on
/// it. Then the window is narrowed and the search goes on; when it cannot
/// be narrowed, the best forecast is the result.
pub open spec fn spec_refine(
    fixed: Changes,
    undesirable: Changes,
    goals: Seq<SpendingGoal>,
    current_date: Ymd,
    window: BisectionPoints,
    best: Forecast,
) -> Result<Forecast, ProcessFinancialStateInfluencersErrors>
    decreases window.end - window.start,
{
    let month = window.spec_middle();
    if spec_contains_overdraft(spec_baseline(fixed, undesirable, month).cashflow) {
        Err(ProcessFinancialStateInfluencersErrors::MonthlySpendingExceedsIncome)
    } else {
        let candidate = spec_candidate(fixed, undesirable, goals, current_date, month);
        let favoured = if spec_improves_on(
            candidate.monthly_cashflow_deltas,
            best.monthly_cashflow_deltas,
        ) {
            candidate
        } else {
            best
        };
        match window.spec_narrowed() {
            None => Ok(favoured),
            Some(narrower) => spec_refine(
                fixed,
                undesirable,
                goals,
                current_date,
                narrower,
                favoured,
            ),
        }
    }
}

/// The whole search of `window`.
///
/// A window that holds no month gives no forecast. Otherwise the middle
/// month is tried first. If the fixed incomes and expenses alone overdraw
/// the account for it, the search fails with
/// `MonthlySpendingExceedsIncome`; if one of the goals cannot be afforded,
/// it fails with `UnableToProduceFinancialForecast`. Otherwise the forecast
/// for that month is the best so far. If the window cannot be narrowed, it
/// is the result; if it can, the search goes on from the same window as
/// [`spec_refine`] says.
pub open spec fn spec_search(
    fixed: Changes,
    undesirable: Changes,
    goals: Seq<SpendingGoal>,
    current_date: Ymd,
    window: BisectionPoints,
) -> Result<Forecast, ProcessFinancialStateInfluencersErrors> {
    let month = window.spec_middle();
    if window.start > window.end {
        Err(ProcessFinancialStateInfluencersErrors::UnableToProduceFinancialForecast)
    } else if spec_contains_overdraft(spec_baseline(fixed, undesirable, month).cashflow) {
        Err(ProcessFinancialStateInfluencersErrors::MonthlySpendingExceedsIncome)
    } else {
        let candidate = spec_candidate(fixed, undesirable, goals, current_date, month);
        if !candidate.all_spending_goals_achievable {
            Err(ProcessFinancialStateInfluencersErrors::UnableToProduceFinancialForecast)
        } else if window.spec_narrowed().is_none() {
            Ok(candidate)
        } else {
            spec_refine(fixed, undesirable, goals, current_date, window, candidate)
        }
    }
}

/// The forecast for `influencers` as seen from `current_date`, searching
/// the months of `window` for the month of retirement: the fixed sources
/// and the undesirable incomes are laid out once, and the goals are taken in
/// the order in which they were declared.
pub open spec fn spec_forecast(
    influencers: FinancialStateInfluencers,
    current_date: Ymd,
    window: BisectionPoints,
) -> Result<Forecast, ProcessFinancialStateInfluencersErrors> {
    spec_search(
        influencers.spec_fixed_changes(current_date),
        influencers.spec_undesirable_income(current_date),
        influencers.spending_goals@,
        current_date,
        window,
    )
}

/// A result with the forecast, if there is one, taken by its view.
pub open spec fn spec_result_view(
    result: Result<FinancialForecast, ProcessFinancialStateInfluencersErrors>,
) -> Result<Forecast, ProcessFinancialStateInfluencersErrors> {
    match result {
        Ok(forecast) => Ok(forecast@),
        Err(error) => Err(error),
    }
}

/// Whether the day of `current_date` exists in every month of retirement
/// that a search of `window` may try.
pub fn search_dates_exist(current_date: &Date, window: BisectionPoints) -> (r: bool)
    ensures
        r == spec_search_dates_exist(current_date@, window),
{
    if window.start > window.end {
        return true;
    }
    let mut current = window;
    loop
        invariant
            current.start <= current.end,
            spec_search_dates_exist(current_date@, window) == spec_search_dates_exist(
                current_date@,
                current,
            ),
        decreases current.end - current.start,
    {
        proof {
            lemma_search_dates_step(current_date@, current);
        }
        if checked_date_after_months(current_date, current.middle()).is_none() {
            return false;
        }
        if current.middle() == current.start {
            return true;
        }
        current = BisectionPoints { start: current.start, end: current.middle() - 1 };
    }
}

/// Makes the forecast for `fin_state_influencers` as seen from
/// `current_date`, searching the months of `window` for the month of
/// retirement.
pub fn forecast_within(
    fin_state_influencers: &FinancialStateInfluencers,
    current_date: &Date,
    window: BisectionPoints,
) -> (r: Result<FinancialForecast, ProcessFinancialStateInfluencersErrors>)
    requires
        fin_state_influencers.goals_render_at(current_date@),
        spec_search_dates_exist(current_date@, window),
    ensures
        spec_result_view(r) == spec_forecast(*fin_state_influencers, current_date@, window),
{
    let fixed_financial_state_changes =
        fin_state_influencers.financial_state_changes_from_fixed_sources(current_date);
    let prioritised_optional_spending_goals =
        fin_state_influencers.prioritised_optional_spending_goals();
    let income_from_undesirable_sources = fin_state_influencers.income_from_undesirable_sources(
        current_date,
    );
    proof {
        fin_state_influencers.lemma_fixed_changes_move_cash_only(current_date@);
        fin_state_influencers.lemma_undesirable_income_moves_cash_only(current_date@);
    }
    if window.start > window.end {
        return Err(ProcessFinancialStateInfluencersErrors::UnableToProduceFinancialForecast);
    }
    proof {
        lemma_search_dates_step(current_date@, window);
    }
    let first = candidate_forecast(
        &fixed_financial_state_changes,
        &income_from_undesirable_sources,
        &prioritised_optional_spending_goals,
        current_date,
        window.middle(),
    );
    let mut last_successful_forecast = match first {
        None => {
            return Err(ProcessFinancialStateInfluencersErrors::MonthlySpendingExceedsIncome);
        },
        Some(forecast) => forecast,
    };
    if !last_successful_forecast.all_spending_goals_achievable {
        return Err(ProcessFinancialStateInfluencersErrors::UnableToProduceFinancialForecast);
    }
    // Trying the first window once more gives the same forecast, which does
    // not improve on itself: the search goes on with the narrowed window.
    let mut bisection = match window.new_bisection_point(fin_state_influencers, false) {
        None => {
            return Ok(last_successful_forecast);
        },
        Some(bisection) => bisection,
    };
    loop
        invariant
            bisection.start <= bisection.end,
            fixed_financial_state_changes@.is_aligned(),
            income_from_undesirable_sources@.is_aligned(),
            prioritised_optional_spending_goals@ == fin_state_influencers.spending_goals@,
            fixed_financial_state_changes@ == fin_state_influencers.spec_fixed_changes(
                current_date@,
            ),
            income_from_undesirable_sources@ == fin_state_influencers.spec_undesirable_income(
                current_date@,
            ),
            fin_state_influencers.goals_render_at(current_date@),
            spec_search_dates_exist(current_date@, bisection),
            spec_forecast(*fin_state_influencers, current_date@, window) == spec_refine(
                fixed_financial_state_changes@,
                income_from_undesirable_sources@,
                prioritised_optional_spending_goals@,
                current_date@,
                bisection,
                last_successful_forecast@,
            ),
        decreases bisection.end - bisection.start,
    {
        proof {
            lemma_search_dates_step(current_date@, bisection);
        }
        let financial_forecast = match candidate_forecast(
            &fixed_financial_state_changes,
            &income_from_undesirable_sources,
            &prioritised_optional_spending_goals,
            current_date,
            bisection.middle(),
        ) {
            None => {
                return Err(ProcessFinancialStateInfluencersErrors::MonthlySpendingExceedsIncome);
            },
            Some(forecast) => forecast,
        };
        let improved = last_successful_forecast.was_improved_by(&financial_forecast);
        if improved {
            last_successful_forecast = financial_forecast;
        }
        bisection = match bisection.new_bisection_point(fin_state_influencers, improved) {
            None => {
                return Ok(last_successful_forecast);
            },
            Some(bisection) => bisection,
        };
    }
}

/// Makes the forecast for `fin_state_influencers` as seen from
/// `current_date`, searching the window of
/// [`BisectionPoints::initial_point`].
///
/// It fails with `MonthlySpendingExceedsIncome` if, for a month of
/// retirement that is tried, the fixed incomes and expenses alone overdraw
/// the account, and with `UnableToProduceFinancialForecast` if for the first
/// month tried one of the spending goals cannot be afforded.
pub fn process_financial_state_influencers(
    fin_state_influencers: FinancialStateInfluencers,
    current_date: Date,
) -> (r: Result<FinancialForecast, ProcessFinancialStateInfluencersErrors>)
    requires
        fin_state_influencers.goals_render_at(current_date@),
        spec_search_dates_exist(current_date@, BisectionPoints::spec_initial_point()),
    ensures
        spec_result_view(r) == spec_forecast(
            fin_state_influencers,
            current_date@,
            BisectionPoints::spec_initial_point(),
        ),
{
    let bisection = BisectionPoints::initial_point(&fin_state_influencers);
    forecast_within(&fin_state_influencers, &current_date, bisection)
}

} // verus!
