//! The forecast: which spending goals can be afforded, and from which month
//! the undesirable incomes can be given up.
//!
//! The search tries a month of retirement, the middle of a window of
//! months. For that month it cuts the undesirable incomes off, checks that
//! the fixed incomes and expenses alone never overdraw the account, and then
//! takes in the spending goals one by one, each only if it can be afforded.
//! The forecast so found is compared with the best one so far, the window
//! is narrowed, and the search goes on until the window cannot be narrowed
//! any more.
pub mod candidate;
pub mod laws;
pub mod search;
pub mod window;

pub use self::candidate::{
    bisect_vectors_from_undesirable_income, candidate_forecast, lemma_take_goals_aligned,
    spec_baseline, spec_candidate, spec_take_goal, spec_take_goals, spec_truncated, GoalFold,
};
pub use self::laws::{
    lemma_candidate_findings, lemma_forecast_depends_on_contents, lemma_forecast_is_determined,
    lemma_overdrawn_baseline_fails, lemma_overdrawn_fixed_sources_fail, lemma_refine_outcomes,
    lemma_search_outcomes, lemma_take_goals_findings, lemma_truncated, spec_is_candidate_of,
    spec_is_overdrawn_in,
};
pub use self::search::{
    forecast_within, lemma_search_dates_step, process_financial_state_influencers,
    search_dates_exist, spec_forecast, spec_refine, spec_result_view, spec_search,
    spec_search_dates_exist, ProcessFinancialStateInfluencersErrors,
};
pub use self::window::{lemma_narrowed_is_narrower, lemma_tries, BisectionPoints};
