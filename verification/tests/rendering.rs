use personal_finance::calendar::Date;
use personal_finance::models::{
    balances_with_goal, AppreciationType, Asset, FinancialForecast, FinancialStateChanges,
    FinancialStateInfluencer, FinancialStateInfluencers, Influencer, Liability, MonthlyExpense,
    MonthlyIncome, OnceOffExpense, OnceOffIncome, ProcessedSpendingGoal, Purchase, Savings,
    SpendingGoal,
};

fn series(values: &[f64]) -> Vec<u64> {
    values.iter().map(|value| value.to_bits()).collect()
}

fn changes(cashflow: &[f64], assets_delta: &[f64], liabilities_delta: &[f64]) -> FinancialStateChanges {
    FinancialStateChanges {
        cashflow: series(cashflow),
        assets_delta: series(assets_delta),
        liabilities_delta: series(liabilities_delta),
    }
}

fn ymd(year: i32, month: u32, day: u32) -> Date {
    Date::from_ymd_opt(year, month, day).unwrap()
}

fn general_asset(purchase_date: Date, liquidation_date: Date) -> Asset {
    Asset::general_asset {
        liquidation_date,
        purchase_date,
        initial_value: 100.0f64.to_bits(),
        name: "test".to_string(),
        appreciation_type: AppreciationType::Linear { scalar: 1.1f64.to_bits() },
    }
}

fn nobody(date_of_birth: Date) -> FinancialStateInfluencers {
    FinancialStateInfluencers {
        max_retirement_age: 70,
        date_of_birth,
        spending_goals: vec![],
        once_off_expenses: vec![],
        monthly_expenses: vec![],
        monthly_income: vec![],
        once_off_income: vec![],
        current_savings: Savings {},
        current_assets: vec![],
        current_liabilities: vec![],
    }
}

fn forecast_with_cashflow(cashflow: &[f64]) -> FinancialForecast {
    FinancialForecast {
        spending_goals: vec![],
        monthly_cashflow_deltas: series(cashflow),
        monthly_networth: vec![],
        financial_independence_date: ymd(2020, 1, 15),
        all_spending_goals_achievable: true,
    }
}

#[test]
fn test_merge() {
    let fin_changes_1 = changes(&[1.0, 2.0, 3.0], &[1.0, 2.0, 3.0], &[1.0, 2.0, 3.0]);
    let fin_changes_2 = changes(&[1.0, 2.0], &[1.0, 2.0], &[1.0, 2.0]);
    let merged_changes_1 = fin_changes_1.merge(&fin_changes_2);
    let merged_changes_2 = fin_changes_2.merge(&fin_changes_1);
    let merged_changes_3 =
        FinancialStateChanges::merge_changes(&vec![fin_changes_1, fin_changes_2]);
    let expected = changes(&[2.0, 4.0, 3.0], &[2.0, 4.0, 3.0], &[2.0, 4.0, 3.0]);

    assert_eq!(merged_changes_1, expected);
    assert_eq!(merged_changes_2, expected);
    assert_eq!(merged_changes_3, expected);
}

#[test]
fn merge_adds_each_series_to_its_own_kind() {
    let first = changes(&[1.0], &[10.0, 20.0], &[100.0, 200.0, 300.0]);
    let second = changes(&[2.0, 3.0], &[30.0], &[400.0]);
    assert_eq!(
        first.merge(&second),
        changes(&[3.0, 3.0], &[40.0, 20.0], &[500.0, 200.0, 300.0])
    );
}

#[test]
fn merge_with_nothing_changes_nothing() {
    let some = changes(&[1.5, -0.0], &[2.0], &[]);
    assert_eq!(some.merge(&FinancialStateChanges::empty()), some);
    assert_eq!(FinancialStateChanges::new().merge(&some), some);
    assert_eq!(FinancialStateChanges::new(), FinancialStateChanges::empty());
    assert_eq!(FinancialStateChanges::new(), changes(&[], &[], &[]));
}

#[test]
fn merge_changes_goes_from_the_first_to_the_last() {
    assert_eq!(FinancialStateChanges::merge_changes(&vec![]), FinancialStateChanges::empty());
    let all = vec![
        changes(&[1.0e16], &[], &[]),
        changes(&[1.0], &[], &[]),
        changes(&[1.0], &[], &[]),
    ];
    // from the left, each 1.0 is lost to rounding
    assert_eq!(FinancialStateChanges::merge_changes(&all).cashflow, series(&[(1.0 + 1.0e16) + 1.0]));
    assert_eq!(FinancialStateChanges::merge_changes(&all).cashflow, series(&[1.0e16]));
}

#[test]
fn changes_can_be_cloned() {
    let some = changes(&[1.0, 2.0], &[3.0], &[4.0, 5.0, 6.0]);
    assert_eq!(some.clone(), some);
}

#[test]
fn test_create_processed_spending_goal_from_spending_goal() {
    let cash_balance_vec = series(&[10.0, 10.0, 10.0]);
    let current_date = ymd(2020, 1, 15);
    let once_off_purchase = Purchase::once_off_purchase {
        purchase_date: ymd(2020, 3, 15),
        value: 1.0f64.to_bits(),
    };
    let mut spending_goal = SpendingGoal {
        name: "blah".to_string(),
        date: ymd(2020, 3, 15),
        item_purchased: once_off_purchase,
    };
    let achievable_spending_goal =
        ProcessedSpendingGoal::from_spending_goal(&spending_goal, &cash_balance_vec, &current_date);

    // Increase value of item
    spending_goal.item_purchased = Purchase::once_off_purchase {
        purchase_date: ymd(2020, 3, 15),
        value: 100.0f64.to_bits(),
    };
    let unachievable_spending_goal =
        ProcessedSpendingGoal::from_spending_goal(&spending_goal, &cash_balance_vec, &current_date);

    assert_eq!(achievable_spending_goal.is_achieveable, true);
    assert_eq!(unachievable_spending_goal.is_achieveable, false);
}

#[test]
fn a_processed_goal_keeps_the_goal() {
    let goal = SpendingGoal {
        name: "boat".to_string(),
        date: ymd(2020, 3, 15),
        item_purchased: Purchase::asset { asset: general_asset(ymd(2020, 3, 15), ymd(2020, 6, 15)) },
    };
    let processed = ProcessedSpendingGoal::from_spending_goal(&goal, &series(&[]), &ymd(2020, 1, 15));
    assert_eq!(processed.original_spending_goal, goal);
    assert_eq!(processed.clone(), processed);
}

#[test]
fn a_goal_of_exactly_the_balance_is_achievable() {
    let goal = SpendingGoal {
        name: "all of it".to_string(),
        date: ymd(2020, 3, 15),
        item_purchased: Purchase::once_off_purchase {
            purchase_date: ymd(2020, 3, 15),
            value: 10.0f64.to_bits(),
        },
    };
    let at = ymd(2020, 1, 15);
    assert!(ProcessedSpendingGoal::from_spending_goal(&goal, &series(&[10.0, 10.0, 10.0]), &at).is_achieveable);
    assert!(!ProcessedSpendingGoal::from_spending_goal(&goal, &series(&[10.0, 10.0, 9.99]), &at).is_achieveable);
}

#[test]
fn a_goal_is_not_judged_beyond_the_balances_or_beyond_itself() {
    let at = ymd(2020, 1, 15);
    let goal = SpendingGoal {
        name: "later".to_string(),
        date: ymd(2020, 3, 15),
        item_purchased: Purchase::once_off_purchase {
            purchase_date: ymd(2020, 3, 15),
            value: 100.0f64.to_bits(),
        },
    };
    // the purchase falls in a month that the balances do not reach
    assert!(ProcessedSpendingGoal::from_spending_goal(&goal, &series(&[10.0, 10.0]), &at).is_achieveable);
    assert!(ProcessedSpendingGoal::from_spending_goal(&goal, &series(&[]), &at).is_achieveable);
    // an overdraft after the goal's last month is not the goal's
    assert!(ProcessedSpendingGoal::from_spending_goal(&goal, &series(&[10.0, 10.0, 100.0, -5.0]), &at).is_achieveable);
    // an overdraft within the goal's months is
    assert!(!ProcessedSpendingGoal::from_spending_goal(&goal, &series(&[10.0, -5.0, 100.0, 5.0]), &at).is_achieveable);
}

#[test]
fn test_once_off_purchase_fin_state_changes() {
    let current_date = ymd(2020, 1, 15);
    let once_off_purchase = Purchase::once_off_purchase {
        purchase_date: ymd(2020, 3, 15),
        value: 100.0f64.to_bits(),
    };

    let expected_fin_changes = changes(&[0.0, 0.0, -100.0], &[], &[]);
    assert_eq!(
        once_off_purchase.generate_financial_state_changes(&current_date),
        expected_fin_changes
    )
}

#[test]
fn once_off_expense_two_months_ahead() {
    let expense = OnceOffExpense {
        name: "repair".to_string(),
        value: 100.0f64.to_bits(),
        date: ymd(2020, 3, 15),
    };
    assert_eq!(
        expense.generate_financial_state_changes(&ymd(2020, 1, 15)),
        changes(&[0.0, 0.0, -100.0], &[], &[])
    );
}

#[test]
fn once_off_sources_now_and_in_the_past() {
    let at = ymd(2020, 1, 15);
    let this_month = OnceOffExpense { name: "now".to_string(), value: 5.0f64.to_bits(), date: ymd(2020, 1, 1) };
    assert_eq!(this_month.generate_financial_state_changes(&at), changes(&[-5.0], &[], &[]));
    let last_month = OnceOffExpense { name: "gone".to_string(), value: 5.0f64.to_bits(), date: ymd(2019, 12, 31) };
    assert_eq!(last_month.generate_financial_state_changes(&at), changes(&[], &[], &[]));
    let long_ago = OnceOffIncome {
        is_undesirable: false,
        name: "gone".to_string(),
        amount: 5.0f64.to_bits(),
        date: ymd(2010, 1, 15),
    };
    assert_eq!(long_ago.generate_financial_state_changes(&at), changes(&[], &[], &[]));
    let purchase = Purchase::once_off_purchase { purchase_date: ymd(2019, 6, 15), value: 5.0f64.to_bits() };
    assert_eq!(purchase.generate_financial_state_changes(&at), changes(&[], &[], &[]));
}

#[test]
fn once_off_income_is_received_in_its_month() {
    let income = OnceOffIncome {
        is_undesirable: false,
        name: "bonus".to_string(),
        amount: 250.5f64.to_bits(),
        date: ymd(2021, 1, 15),
    };
    assert_eq!(
        income.generate_financial_state_changes(&ymd(2020, 11, 15)),
        changes(&[0.0, 0.0, 250.5], &[], &[])
    );
}

#[test]
fn monthly_expense_is_paid_after_its_start_month() {
    let expense = MonthlyExpense {
        name: "rent".to_string(),
        amount: 40.0f64.to_bits(),
        start_date: ymd(2020, 2, 15),
        end_date: ymd(2020, 6, 15),
    };
    assert_eq!(
        expense.generate_financial_state_changes(&ymd(2020, 1, 15)),
        changes(&[0.0, 0.0, -40.0, -40.0, -40.0], &[], &[])
    );
}

#[test]
fn monthly_sources_that_have_begun_or_ended() {
    let at = ymd(2020, 1, 15);
    let begun = MonthlyIncome {
        is_undesirable: true,
        name: "job".to_string(),
        amount: 100.0f64.to_bits(),
        start_date: ymd(2019, 1, 15),
        end_date: ymd(2020, 4, 15),
    };
    assert_eq!(begun.generate_financial_state_changes(&at), changes(&[100.0, 100.0, 100.0], &[], &[]));
    let begins_now = MonthlyIncome {
        is_undesirable: false,
        name: "job".to_string(),
        amount: 100.0f64.to_bits(),
        start_date: ymd(2020, 1, 1),
        end_date: ymd(2020, 4, 15),
    };
    assert_eq!(begins_now.generate_financial_state_changes(&at), changes(&[0.0, 100.0, 100.0], &[], &[]));
    let ended = MonthlyExpense {
        name: "old".to_string(),
        amount: 40.0f64.to_bits(),
        start_date: ymd(2018, 1, 15),
        end_date: ymd(2019, 12, 15),
    };
    assert_eq!(ended.generate_financial_state_changes(&at), changes(&[], &[], &[]));
    let ends_now = MonthlyExpense {
        name: "old".to_string(),
        amount: 40.0f64.to_bits(),
        start_date: ymd(2018, 1, 15),
        end_date: ymd(2020, 1, 31),
    };
    assert_eq!(ends_now.generate_financial_state_changes(&at), changes(&[], &[], &[]));
    let never_begins = MonthlyExpense {
        name: "late".to_string(),
        amount: 40.0f64.to_bits(),
        start_date: ymd(2021, 1, 15),
        end_date: ymd(2020, 3, 15),
    };
    assert_eq!(never_begins.generate_financial_state_changes(&at), changes(&[0.0, 0.0], &[], &[]));
}

#[test]
fn value_unit_vector_compounds_month_by_month() {
    let linear = AppreciationType::Linear { scalar: 1.1f64.to_bits() };
    assert_eq!(
        linear.value_unit_vector(3),
        series(&[1.1, 1.2100000000000002, 1.3310000000000004])
    );
    assert_eq!(linear.value_unit_vector(3), series(&[1.0 * 1.1, 1.0 * 1.1 * 1.1, 1.0 * 1.1 * 1.1 * 1.1]));
    assert_eq!(linear.value_unit_vector(0), series(&[]));
    assert_eq!(linear.value_unit_vector(-3), series(&[]));
    assert_eq!(linear.unit_values(2), series(&[1.1, 1.2100000000000002]));
    let halving = AppreciationType::Linear { scalar: 0.5f64.to_bits() };
    assert_eq!(halving.value_unit_vector(4), series(&[0.5, 0.25, 0.125, 0.0625]));
}

#[test]
fn test_general_asset_generate_financial_state_changes() {
    let current_date = ymd(2020, 1, 15);
    let general_asset = Asset::general_asset {
        liquidation_date: ymd(2020, 6, 15),
        purchase_date: ymd(2020, 3, 15),
        initial_value: 100.0f64.to_bits(),
        name: "test".to_string(),
        appreciation_type: AppreciationType::Linear { scalar: 1.1f64.to_bits() },
    };

    let expected_fin_changes = changes(
        &[0.0, 0.0, -100.0, 0.0, 133.10000000000005],
        &[0.0, 0.0, 110.000000000000014, 11.0, -133.10000000000005],
        &[0.0; 5],
    );
    assert_eq!(
        general_asset.generate_financial_state_changes(&current_date),
        expected_fin_changes
    )
}

#[test]
fn asset_bought_and_sold_in_the_same_month_changes_nothing() {
    let at = ymd(2020, 1, 15);
    let asset = general_asset(ymd(2020, 4, 1), ymd(2020, 4, 30));
    assert!(asset.can_render_at(&at));
    assert_eq!(
        asset.generate_financial_state_changes(&at),
        changes(&[0.0, 0.0, 0.0], &[0.0, 0.0, 0.0], &[0.0, 0.0, 0.0])
    );
    let at_once = general_asset(ymd(2020, 1, 20), ymd(2020, 1, 25));
    assert!(at_once.can_render_at(&at));
    assert_eq!(at_once.generate_financial_state_changes(&at), changes(&[], &[], &[]));
}

#[test]
fn asset_bought_in_the_last_month_shows_the_price_leaving() {
    let at = ymd(2020, 1, 15);
    let asset = general_asset(ymd(2020, 3, 15), ymd(2020, 4, 15));
    assert!(asset.can_render_at(&at));
    assert_eq!(
        asset.generate_financial_state_changes(&at),
        changes(&[0.0, 0.0, -100.0], &[0.0, 0.0, -110.00000000000001], &[0.0, 0.0, 0.0])
    );
}

#[test]
fn asset_bought_this_month() {
    let at = ymd(2020, 1, 15);
    let asset = Asset::general_asset {
        purchase_date: ymd(2020, 1, 1),
        name: "coins".to_string(),
        initial_value: 8.0f64.to_bits(),
        appreciation_type: AppreciationType::Linear { scalar: 0.5f64.to_bits() },
        liquidation_date: ymd(2020, 5, 1),
    };
    assert_eq!(
        asset.generate_financial_state_changes(&at),
        changes(&[-8.0, 0.0, 0.0, 0.5], &[4.0, -2.0, -1.0, -0.5], &[0.0, 0.0, 0.0, 0.0])
    );
}

#[test]
fn assets_render_when_bought_from_now_on_and_sold_no_earlier() {
    let at = ymd(2020, 1, 15);
    assert!(general_asset(ymd(2020, 1, 1), ymd(2020, 1, 31)).can_render_at(&at));
    assert!(general_asset(ymd(2020, 1, 1), ymd(2030, 1, 31)).can_render_at(&at));
    assert!(!general_asset(ymd(2019, 12, 31), ymd(2020, 6, 1)).can_render_at(&at));
    assert!(!general_asset(ymd(2020, 6, 1), ymd(2020, 5, 1)).can_render_at(&at));
    let flat = Purchase::once_off_purchase { purchase_date: ymd(2019, 1, 1), value: 1.0f64.to_bits() };
    assert!(flat.can_render_at(&at));
    let late = Purchase::asset { asset: general_asset(ymd(2019, 12, 31), ymd(2020, 6, 1)) };
    assert!(!late.can_render_at(&at));
    let goal = SpendingGoal { name: "late".to_string(), date: ymd(2020, 6, 1), item_purchased: late };
    assert!(!goal.can_render_at(&at));
    let mut person = nobody(ymd(1990, 1, 2));
    assert!(person.can_render_goals_at(&at));
    person.spending_goals.push(SpendingGoal { name: "flat".to_string(), date: ymd(2020, 6, 1), item_purchased: flat });
    assert!(person.can_render_goals_at(&at));
    person.spending_goals.push(goal);
    assert!(!person.can_render_goals_at(&at));
}

#[test]
fn a_purchase_of_an_asset_and_a_goal_render_as_the_asset() {
    let at = ymd(2020, 1, 15);
    let asset = general_asset(ymd(2020, 3, 15), ymd(2020, 6, 15));
    let expected = asset.generate_financial_state_changes(&at);
    let purchase = Purchase::asset { asset: asset.clone() };
    assert_eq!(purchase.generate_financial_state_changes(&at), expected);
    let goal = SpendingGoal { name: "car".to_string(), date: ymd(2020, 3, 15), item_purchased: purchase.clone() };
    assert_eq!(goal.generate_financial_state_changes(&at), expected);
    assert_eq!(goal.clone(), goal);
    assert_eq!(expected.cashflow, series(&[0.0, 0.0, -100.0, 0.0, 133.10000000000005]));
}

#[test]
fn months_to_max_retirment() {
    let fin_state_infl = FinancialStateInfluencers {
        max_retirement_age: 70,
        date_of_birth: ymd(1990, 1, 2),
        spending_goals: vec![],
        once_off_expenses: vec![],
        monthly_expenses: vec![],
        monthly_income: vec![],
        once_off_income: vec![],
        current_savings: Savings {},
        current_assets: vec![],
        current_liabilities: vec![],
    };

    assert!(fin_state_infl.months_to_max_retirment(ymd(2020, 10, 19)) == 471);
}

#[test]
fn months_to_max_retirement_before_and_after_the_birthday() {
    let person = nobody(ymd(1990, 6, 2));
    assert_eq!(person.months_to_max_retirment(ymd(2020, 6, 30)), 480);
    assert_eq!(person.months_to_max_retirment(ymd(2020, 3, 1)), 483);
    assert_eq!(person.months_to_max_retirment(ymd(2060, 6, 1)), 0);
    assert_eq!(person.months_to_max_retirment(ymd(2061, 7, 1)), -13);
}

#[test]
fn vector_length_is_a_hundred_years() {
    assert_eq!(FinancialStateInfluencers::vector_length(), 1200);
}

#[test]
fn spending_goals_keep_their_order() {
    let mut person = nobody(ymd(1990, 1, 2));
    for name in ["first", "second", "third"] {
        person.spending_goals.push(SpendingGoal {
            name: name.to_string(),
            date: ymd(2021, 1, 1),
            item_purchased: Purchase::once_off_purchase { purchase_date: ymd(2021, 1, 1), value: 1.0f64.to_bits() },
        });
    }
    let goals = person.prioritised_optional_spending_goals();
    assert_eq!(goals, person.spending_goals);
    assert_eq!(goals[0].name, "first");
    assert_eq!(goals[2].name, "third");
}

#[test]
fn fixed_sources_leave_undesirable_incomes_and_goals_out() {
    let at = ymd(2020, 1, 15);
    let mut person = nobody(ymd(1990, 1, 2));
    person.monthly_expenses.push(MonthlyExpense {
        name: "rent".to_string(),
        amount: 40.0f64.to_bits(),
        start_date: ymd(2019, 1, 1),
        end_date: ymd(2020, 4, 1),
    });
    person.once_off_expenses.push(OnceOffExpense { name: "repair".to_string(), value: 7.0f64.to_bits(), date: ymd(2020, 2, 1) });
    person.monthly_income.push(MonthlyIncome {
        is_undesirable: false,
        name: "rent received".to_string(),
        amount: 100.0f64.to_bits(),
        start_date: ymd(2019, 1, 1),
        end_date: ymd(2020, 5, 1),
    });
    person.monthly_income.push(MonthlyIncome {
        is_undesirable: true,
        name: "job".to_string(),
        amount: 1000.0f64.to_bits(),
        start_date: ymd(2019, 1, 1),
        end_date: ymd(2020, 3, 1),
    });
    person.once_off_income.push(OnceOffIncome { is_undesirable: false, name: "gift".to_string(), amount: 5.0f64.to_bits(), date: ymd(2020, 1, 1) });
    person.once_off_income.push(OnceOffIncome { is_undesirable: true, name: "overtime".to_string(), amount: 9.0f64.to_bits(), date: ymd(2020, 3, 1) });
    person.spending_goals.push(SpendingGoal {
        name: "boat".to_string(),
        date: ymd(2020, 2, 1),
        item_purchased: Purchase::once_off_purchase { purchase_date: ymd(2020, 2, 1), value: 10000.0f64.to_bits() },
    });
    person.current_assets.push(general_asset(ymd(2020, 2, 1), ymd(2020, 3, 1)));
    person.current_liabilities.push(Liability {});
    assert_eq!(
        person.financial_state_changes_from_fixed_sources(&at),
        changes(&[65.0, 53.0, 60.0, 100.0], &[], &[])
    );
    assert_eq!(
        person.income_from_undesirable_sources(&at),
        changes(&[1000.0, 1000.0, 9.0], &[], &[])
    );
    let nothing = nobody(ymd(1990, 1, 2));
    assert_eq!(nothing.financial_state_changes_from_fixed_sources(&at), changes(&[], &[], &[]));
    assert_eq!(nothing.income_from_undesirable_sources(&at), changes(&[], &[], &[]));
}

#[test]
fn cash_balances_are_the_running_totals() {
    let forecast = forecast_with_cashflow(&[10.0, -4.0, -6.0, 0.5]);
    assert_eq!(forecast.cash_balances(), series(&[10.0, 6.0, 0.0, 0.5]));
    assert!(!forecast.contains_period_of_overdraft());
    assert!(forecast_with_cashflow(&[10.0, -14.0, 60.0]).contains_period_of_overdraft());
    assert!(!forecast_with_cashflow(&[]).contains_period_of_overdraft());
}

#[test]
fn dates_series_has_a_date_for_each_month() {
    let at = ymd(2020, 11, 15);
    assert_eq!(
        forecast_with_cashflow(&[1.0, 1.0, 1.0, 1.0]).dates_series(&at),
        vec![ymd(2020, 11, 15), ymd(2020, 12, 15), ymd(2021, 1, 15), ymd(2021, 2, 15)]
    );
    assert_eq!(forecast_with_cashflow(&[1.0]).dates_series(&at), vec![at]);
    assert_eq!(forecast_with_cashflow(&[]).dates_series(&at), vec![at]);
}

#[test]
fn dates_can_be_given_when_the_day_exists_in_every_month() {
    let four_months = forecast_with_cashflow(&[1.0, 1.0, 1.0, 1.0]);
    assert!(four_months.can_give_dates_from(&ymd(2020, 11, 15)));
    assert!(four_months.can_give_dates_from(&ymd(2020, 11, 28)));
    // the fourth month is February
    assert!(!four_months.can_give_dates_from(&ymd(2020, 11, 29)));
    assert!(four_months.can_give_dates_from(&ymd(2019, 11, 29)));
    assert!(forecast_with_cashflow(&[1.0]).can_give_dates_from(&ymd(2020, 1, 31)));
    assert!(forecast_with_cashflow(&[]).can_give_dates_from(&ymd(2020, 1, 31)));
    assert!(!forecast_with_cashflow(&[1.0, 1.0]).can_give_dates_from(&ymd(262142, 12, 1)));
    assert!(forecast_with_cashflow(&[0.0; 32768]).can_give_dates_from(&ymd(2020, 1, 15)));
    assert!(!forecast_with_cashflow(&[0.0; 32769]).can_give_dates_from(&ymd(2020, 1, 15)));
}

#[test]
fn a_forecast_is_improved_by_one_that_ends_higher_without_overdraft() {
    let best = forecast_with_cashflow(&[10.0, 10.0, 10.0]);
    assert!(best.was_improved_by(&forecast_with_cashflow(&[10.0, 10.0, 10.5])));
    assert!(best.was_improved_by(&forecast_with_cashflow(&[31.0])));
    assert!(!best.was_improved_by(&forecast_with_cashflow(&[10.0, 10.0, 10.0])));
    assert!(!best.was_improved_by(&forecast_with_cashflow(&[10.0, 10.0, 9.0])));
    assert!(!best.was_improved_by(&best));
}

#[test]
fn a_forecast_is_never_improved_by_one_with_an_overdraft() {
    let best = forecast_with_cashflow(&[10.0, 10.0, 10.0]);
    assert!(!best.was_improved_by(&forecast_with_cashflow(&[-1.0, 1000.0, 1000.0])));
    assert!(!best.was_improved_by(&forecast_with_cashflow(&[10.0, -11.0, 1000.0])));
    let overdrawn = forecast_with_cashflow(&[-5.0, -5.0]);
    assert!(overdrawn.was_improved_by(&forecast_with_cashflow(&[0.0])));
    assert!(!overdrawn.was_improved_by(&forecast_with_cashflow(&[-1.0])));
}

#[test]
fn forecasts_of_no_months_have_no_last_balance() {
    let none = forecast_with_cashflow(&[]);
    let some = forecast_with_cashflow(&[0.0]);
    assert!(none.was_improved_by(&some));
    assert!(!some.was_improved_by(&none));
    assert!(!none.was_improved_by(&none));
    assert!(none.was_improved_by(&forecast_with_cashflow(&[1.0, -1.0])));
}

#[test]
fn balances_with_goal_adds_the_running_cashflow_of_the_goal() {
    assert_eq!(
        balances_with_goal(&series(&[0.0, -4.0, 1.0]), &series(&[10.0, 10.0, 10.0, 10.0])),
        Some(series(&[10.0, 6.0, 7.0, 10.0]))
    );
    assert_eq!(
        balances_with_goal(&series(&[0.0, -4.0, 1.0]), &series(&[10.0])),
        Some(series(&[10.0, -4.0, -3.0]))
    );
    assert_eq!(balances_with_goal(&series(&[0.0, -14.0, 100.0]), &series(&[10.0, 10.0, 10.0])), None);
    assert_eq!(balances_with_goal(&series(&[]), &series(&[-1.0])), Some(series(&[-1.0])));
}

#[test]
fn an_influencer_renders_as_the_source_it_holds() {
    let at = ymd(2020, 1, 15);
    let expense = || OnceOffExpense { name: "repair".to_string(), value: 100.0f64.to_bits(), date: ymd(2020, 3, 15) };
    assert_eq!(
        Influencer::OnceOffExpense(expense()).generate_financial_state_changes(&at),
        expense().generate_financial_state_changes(&at)
    );
    let rent = || MonthlyExpense {
        name: "rent".to_string(),
        amount: 40.0f64.to_bits(),
        start_date: ymd(2020, 2, 15),
        end_date: ymd(2020, 6, 15),
    };
    assert_eq!(
        Influencer::MonthlyExpense(rent()).generate_financial_state_changes(&at),
        changes(&[0.0, 0.0, -40.0, -40.0, -40.0], &[], &[])
    );
    let bonus = || OnceOffIncome { is_undesirable: false, name: "bonus".to_string(), amount: 9.0f64.to_bits(), date: ymd(2020, 2, 1) };
    assert_eq!(
        Influencer::OnceOffIncome(bonus()).generate_financial_state_changes(&at),
        changes(&[0.0, 9.0], &[], &[])
    );
    let job = || MonthlyIncome {
        is_undesirable: true,
        name: "job".to_string(),
        amount: 100.0f64.to_bits(),
        start_date: ymd(2019, 1, 15),
        end_date: ymd(2020, 3, 15),
    };
    assert_eq!(
        Influencer::MonthlyIncome(job()).generate_financial_state_changes(&at),
        changes(&[100.0, 100.0], &[], &[])
    );
    let asset = general_asset(ymd(2020, 3, 15), ymd(2020, 6, 15));
    let rendered = asset.generate_financial_state_changes(&at);
    assert_eq!(Influencer::Asset(asset.clone()).generate_financial_state_changes(&at), rendered);
    let purchase = Purchase::asset { asset };
    assert_eq!(Influencer::Purchase(purchase.clone()).generate_financial_state_changes(&at), rendered);
    let goal = SpendingGoal { name: "car".to_string(), date: ymd(2020, 3, 15), item_purchased: purchase };
    assert_eq!(Influencer::SpendingGoal(goal).generate_financial_state_changes(&at), rendered);
}
