//! Incomes and expenses, and what each of them does to cash month by
//! month.
use vstd::prelude::*;
use crate::amount::{negated, spec_negated};
use crate::calendar::{months_to_date, spec_months_between, Date, Ymd};
use crate::models::changes::{
    monthly_payments, single_payment, spec_monthly_payments, spec_single_payment, Changes,
    FinancialStateChanges,
};

verus! {

/// Anything that changes a person's finances in the months to come: an
/// expected income, an expected expense, something to be bought.
pub trait FinancialStateInfluencer {
    /// Whether the changes can be laid out from `current_date` on.
    spec fn renders_at(&self, current_date: Ymd) -> bool;

    /// The changes this causes, month by month from `current_date` on.
    spec fn changes_at(&self, current_date: Ymd) -> Changes;

    /// Lays the changes out month by month, index 0 being the month of
    /// `current_date`.
    fn generate_financial_state_changes(&self, current_date: &Date) -> (r: FinancialStateChanges)
        requires
            self.renders_at(current_date@),
        ensures
            r@ == self.changes_at(current_date@),
    ;
}

/// An expense paid once.
#[derive(Debug, PartialEq)]
pub struct OnceOffExpense {
    pub name: String,
    pub value: u64,
    pub date: Date,
}

impl FinancialStateInfluencer for OnceOffExpense {
    open spec fn renders_at(&self, current_date: Ymd) -> bool {
        true
    }

    /// Cash falls by `value` in the month of `date`; the series ends with
    /// that month.
    open spec fn changes_at(&self, current_date: Ymd) -> Changes {
        Changes {
            cashflow: spec_single_payment(
                spec_months_between(self.date@, current_date) + 1,
                spec_negated(self.value),
            ),
            assets_delta: Seq::empty(),
            liabilities_delta: Seq::empty(),
        }
    }

    fn generate_financial_state_changes(&self, current_date: &Date) -> (r: FinancialStateChanges) {
        let months = months_to_date(&self.date, current_date);
        FinancialStateChanges {
            cashflow: single_payment(months + 1, negated(self.value)),
            assets_delta: Vec::new(),
            liabilities_delta: Vec::new(),
        }
    }
}

/// An expense paid every month from after `start_date` until `end_date`.
#[derive(Debug, PartialEq)]
pub struct MonthlyExpense {
    pub name: String,
    pub amount: u64,
    pub start_date: Date,
    pub end_date: Date,
}

impl FinancialStateInfluencer for MonthlyExpense {
    open spec fn renders_at(&self, current_date: Ymd) -> bool {
        true
    }

    /// Cash falls by `amount` in every month after that of `start_date`;
    /// the series has one month for each month from `current_date` up to,
    /// not including, that of `end_date`.
    open spec fn changes_at(&self, current_date: Ymd) -> Changes {
        Changes {
            cashflow: spec_monthly_payments(
                spec_months_between(self.end_date@, current_date),
                spec_months_between(self.start_date@, current_date),
                spec_negated(self.amount),
            ),
            assets_delta: Seq::empty(),
            liabilities_delta: Seq::empty(),
        }
    }

    fn generate_financial_state_changes(&self, current_date: &Date) -> (r: FinancialStateChanges) {
        let vector_size = months_to_date(&self.end_date, current_date);
        let months_to_start_date = months_to_date(&self.start_date, current_date);
        FinancialStateChanges {
            cashflow: monthly_payments(vector_size, months_to_start_date, negated(self.amount)),
            assets_delta: Vec::new(),
            liabilities_delta: Vec::new(),
        }
    }
}

/// An income received every month from after `start_date` until
/// `end_date`. An income is undesirable when it is earned only because the
/// money is needed: the forecast looks for the month from which it can be
/// given up.
#[derive(Debug, PartialEq)]
pub struct MonthlyIncome {
    pub is_undesirable: bool,
    pub name: String,
    pub amount: u64,
    pub start_date: Date,
    pub end_date: Date,
}

impl FinancialStateInfluencer for MonthlyIncome {
    open spec fn renders_at(&self, current_date: Ymd) -> bool {
        true
    }

    /// Cash rises by `amount` in every month after that of `start_date`;
    /// the series has one month for each month from `current_date` up to,
    /// not including, that of `end_date`.
    open spec fn changes_at(&self, current_date: Ymd) -> Changes {
        Changes {
            cashflow: spec_monthly_payments(
                spec_months_between(self.end_date@, current_date),
                spec_months_between(self.start_date@, current_date),
                self.amount,
            ),
            assets_delta: Seq::empty(),
            liabilities_delta: Seq::empty(),
        }
    }

    fn generate_financial_state_changes(&self, current_date: &Date) -> (r: FinancialStateChanges) {
        let vector_size = months_to_date(&self.end_date, current_date);
        let months_to_start_date = months_to_date(&self.start_date, current_date);
        FinancialStateChanges {
            cashflow: monthly_payments(vector_size, months_to_start_date, self.amount),
            assets_delta: Vec::new(),
            liabilities_delta: Vec::new(),
        }
    }
}

/// An income received once.
#[derive(Debug, PartialEq)]
pub struct OnceOffIncome {
    pub is_undesirable: bool,
    pub name: String,
    pub amount: u64,
    pub date: Date,
}

impl FinancialStateInfluencer for OnceOffIncome {
    open spec fn renders_at(&self, current_date: Ymd) -> bool {
        true
    }

    /// Cash rises by `amount` in the month of `date`; the series ends with
    /// that month.
    open spec fn changes_at(&self, current_date: Ymd) -> Changes {
        Changes {
            cashflow: spec_single_payment(
                spec_months_between(self.date@, current_date) + 1,
                self.amount,
            ),
            assets_delta: Seq::empty(),
            liabilities_delta: Seq::empty(),
        }
    }

    fn generate_financial_state_changes(&self, current_date: &Date) -> (r: FinancialStateChanges) {
        let months = months_to_date(&self.date, current_date);
        FinancialStateChanges {
            cashflow: single_payment(months + 1, self.amount),
            assets_delta: Vec::new(),
            liabilities_delta: Vec::new(),
        }
    }
}

/// Money put aside. It carries no data.
#[derive(Debug, PartialEq)]
pub struct Savings {}

/// Money owed. It carries no data.
#[derive(Debug, PartialEq)]
pub struct Liability {}

} // verus!
