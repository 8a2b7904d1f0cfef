//! The records a forecast is made from, and what each of them does to cash,
//! assets and liabilities month by month.
pub mod changes;
pub mod forecast;
pub mod goals;
pub mod influencers;
pub mod purchases;
pub mod sources;

pub use self::changes::{
    lemma_merge_empty, lemma_merge_lengths, monthly_payments, single_payment, spec_merge_changes,
    spec_monthly_payments, spec_single_payment, spec_views, spec_zeros, zeros, Changes,
    FinancialStateChanges,
};
pub use self::forecast::{
    spec_contains_overdraft, spec_ends_above, spec_improves_on, FinancialForecast, Forecast,
};
pub use self::goals::{
    balances_with_goal, lemma_affordable_within_horizon, spec_is_affordable, ProcessedSpendingGoal,
    SpendingGoal,
};
pub use self::influencers::{
    lemma_merge_monthly_income_moves_cash_only, lemma_merge_monthly_income_none_selected,
    lemma_merge_moves_cash_only, lemma_merge_once_off_income_moves_cash_only,
    lemma_merge_once_off_income_none_selected, lemma_merge_sources_moves_cash_only,
    spec_merge_monthly_income, spec_merge_once_off_income, spec_merge_sources,
    spec_moves_cash_only, FinancialStateInfluencers, Influencer,
};
pub use self::purchases::{
    spec_asset_cashflow, spec_asset_value_deltas, AppreciationType, Asset, Purchase,
};
pub use self::sources::{
    FinancialStateInfluencer, Liability, MonthlyExpense, MonthlyIncome, OnceOffExpense,
    OnceOffIncome, Savings,
};
