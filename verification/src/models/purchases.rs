//! Things that are bought: for a price paid once, or assets that are held
//! for a time and then sold.
use vstd::prelude::*;
use crate::amount::{
    amount_difference, amount_product, difference_of, negated, product_of, spec_negated, ONE, ZERO,
};
use crate::calendar::{months_to_date, spec_months_between, Date, Ymd};
use crate::models::changes::{
    single_payment, spec_single_payment, spec_zeros, zeros, Changes, FinancialStateChanges,
};

verus! {

/// How the value of an asset changes while it is held.
#[derive(Debug, PartialEq, Clone, Copy)]
pub enum AppreciationType {
    /// The value is multiplied by `scalar` every month.
    Linear { scalar: u64 },
}

impl AppreciationType {
    /// The value that one unit has grown to after `months` months: the
    /// amount 1 multiplied by the monthly factor once for each month.
    pub open spec fn spec_unit_value(self, months: int) -> u64
        decreases months,
    {
        if months <= 0 {
            ONE
        } else {
            match self {
                AppreciationType::Linear { scalar } => amount_product(
                    self.spec_unit_value(months - 1),
                    scalar,
                ),
            }
        }
    }

    /// The value of one unit after 1, 2, ... `size` months.
    pub open spec fn spec_value_unit_vector(self, size: int) -> Seq<u64> {
        if size <= 0 {
            Seq::empty()
        } else {
            Seq::new(size as nat, |i: int| self.spec_unit_value(i + 1))
        }
    }

    /// What an asset bought for `initial_value` is worth after `months`
    /// months.
    pub open spec fn spec_value_after(self, initial_value: u64, months: int) -> u64 {
        amount_product(initial_value, self.spec_unit_value(months))
    }

    /// The value of one unit after each of the first `count` months.
    pub fn unit_values(&self, count: i32) -> (r: Vec<u64>)
        ensures
            r@ == self.spec_value_unit_vector(count as int),
    {
        let mut r: Vec<u64> = Vec::new();
        let mut value: u64 = ONE;
        let mut i: i32 = 0;
        while i < count
            invariant
                0 <= i,
                i <= count || i == 0,
                r.len() == i,
                value == self.spec_unit_value(i as int),
                forall|j: int| 0 <= j < i ==> r[j] == self.spec_unit_value(j + 1),
            decreases count - i,
        {
            match self {
                AppreciationType::Linear { scalar } => {
                    value = product_of(value, *scalar);
                },
            }
            r.push(value);
            i += 1;
        }
        assert(r@ =~= self.spec_value_unit_vector(count as int));
        r
    }

    /// The value of one unit after each of the first `vector_size` months.
    pub fn value_unit_vector(&self, vector_size: i16) -> (r: Vec<u64>)
        ensures
            r@ == self.spec_value_unit_vector(vector_size as int),
    {
        self.unit_values(vector_size as i32)
    }
}

/// Cash moved by an asset bought in month `purchase` and sold in the last
/// of `liquidation` months: the price leaves in the month of purchase and
/// the value the asset then has comes back in the last month. Bought and
/// sold in one and the same month, it moves nothing. Where the month of
/// purchase is the last month, that month shows the price leaving.
pub open spec fn spec_asset_cashflow(
    initial_value: u64,
    appreciation_type: AppreciationType,
    purchase: int,
    liquidation: int,
) -> Seq<u64> {
    if purchase >= liquidation {
        spec_zeros(liquidation)
    } else {
        Seq::new(
            liquidation as nat,
            |i: int|
                if i == purchase {
                    spec_negated(initial_value)
                } else if i == liquidation - 1 {
                    appreciation_type.spec_value_after(initial_value, liquidation - purchase)
                } else {
                    ZERO
                },
        )
    }
}

/// What an asset bought in month `purchase` and sold in the last of
/// `liquidation` months adds to the value of assets: in the month of
/// purchase its value after one month of appreciation, in each later month
/// what it gained in that month, and in the last month, in place of that,
/// the whole value it then has, taken away. Bought and sold in one and the
/// same month, it adds nothing.
pub open spec fn spec_asset_value_deltas(
    initial_value: u64,
    appreciation_type: AppreciationType,
    purchase: int,
    liquidation: int,
) -> Seq<u64> {
    if purchase >= liquidation {
        spec_zeros(liquidation)
    } else {
        Seq::new(
            liquidation as nat,
            |i: int|
                if i == liquidation - 1 {
                    spec_negated(
                        appreciation_type.spec_value_after(initial_value, liquidation - purchase),
                    )
                } else if i == purchase {
                    appreciation_type.spec_value_after(initial_value, 1)
                } else if i > purchase {
                    amount_difference(
                        appreciation_type.spec_value_after(initial_value, i - purchase + 1),
                        appreciation_type.spec_value_after(initial_value, i - purchase),
                    )
                } else {
                    ZERO
                },
        )
    }
}

/// Something bought to be held for a time and then sold.
#[derive(Debug, PartialEq)]
#[allow(non_camel_case_types)]
pub enum Asset {
    general_asset {
        purchase_date: Date,
        name: String,
        initial_value: u64,
        appreciation_type: AppreciationType,
        liquidation_date: Date,
    },
}

impl Clone for Asset {
    fn clone(&self) -> (r: Self)
        ensures
            r == *self,
    {
        match self {
            Asset::general_asset {
                purchase_date,
                name,
                initial_value,
                appreciation_type,
                liquidation_date,
            } => Asset::general_asset {
                purchase_date: *purchase_date,
                name: name.clone(),
                initial_value: *initial_value,
                appreciation_type: *appreciation_type,
                liquidation_date: *liquidation_date,
            },
        }
    }
}

impl Asset {
    /// Whether the asset is bought no earlier than the month of
    /// `current_date` and sold no earlier than it is bought.
    pub open spec fn renders_at(&self, current_date: Ymd) -> bool {
        match self {
            Asset::general_asset { purchase_date, liquidation_date, .. } => {
                0 <= spec_months_between(purchase_date@, current_date) <= spec_months_between(
                    liquidation_date@,
                    current_date,
                )
            },
        }
    }

    /// The changes the asset causes: one month for each month from
    /// `current_date` up to, not including, that of the liquidation date.
    /// Liabilities stay as they are.
    pub open spec fn changes_at(&self, current_date: Ymd) -> Changes {
        match self {
            Asset::general_asset {
                purchase_date,
                initial_value,
                appreciation_type,
                liquidation_date,
                ..
            } => {
                let purchase = spec_months_between(purchase_date@, current_date);
                let liquidation = spec_months_between(liquidation_date@, current_date);
                Changes {
                    cashflow: spec_asset_cashflow(
                        *initial_value,
                        *appreciation_type,
                        purchase,
                        liquidation,
                    ),
                    assets_delta: spec_asset_value_deltas(
                        *initial_value,
                        *appreciation_type,
                        purchase,
                        liquidation,
                    ),
                    liabilities_delta: spec_zeros(liquidation),
                }
            },
        }
    }

    /// Whether [`Asset::changes_at`] can be laid out from `current_date`.
    pub fn can_render_at(&self, current_date: &Date) -> (r: bool)
        ensures
            r == self.renders_at(current_date@),
    {
        match self {
            Asset::general_asset { purchase_date, liquidation_date, .. } => {
                let purchase = months_to_date(purchase_date, current_date);
                let liquidation = months_to_date(liquidation_date, current_date);
                0 <= purchase && purchase <= liquidation
            },
        }
    }

    /// Lays the changes out month by month, index 0 being the month of
    /// `current_date`.
    pub fn generate_financial_state_changes(&self, current_date: &Date) -> (r:
        FinancialStateChanges)
        requires
            self.renders_at(current_date@),
        ensures
            r@ == self.changes_at(current_date@),
    {
        match self {
            Asset::general_asset {
                purchase_date,
                initial_value,
                appreciation_type,
                liquidation_date,
                ..
            } => {
                let purchase = months_to_date(purchase_date, current_date);
                let liquidation = months_to_date(liquidation_date, current_date);
                if purchase == liquidation {
                    return FinancialStateChanges {
                        cashflow: zeros(liquidation),
                        assets_delta: zeros(liquidation),
                        liabilities_delta: zeros(liquidation),
                    };
                }
                let value_unit_vector = appreciation_type.unit_values(liquidation - purchase);
                let mut cashflow: Vec<u64> = Vec::new();
                let mut asset_value: Vec<u64> = Vec::new();
                let mut value_last_month: u64 = *initial_value;
                let mut i: i32 = 0;
                while i < liquidation
                    invariant
                        0 <= purchase < liquidation,
                        0 <= i <= liquidation,
                        value_unit_vector@ == appreciation_type.spec_value_unit_vector(
                            liquidation - purchase,
                        ),
                        cashflow.len() == i,
                        asset_value.len() == i,
                        i > purchase ==> value_last_month == appreciation_type.spec_value_after(
                            *initial_value,
                            i - purchase,
                        ),
                        forall|j: int|
                            0 <= j < i ==> cashflow[j] == spec_asset_cashflow(
                                *initial_value,
                                *appreciation_type,
                                purchase as int,
                                liquidation as int,
                            )[j],
                        forall|j: int|
                            0 <= j < i ==> asset_value[j] == spec_asset_value_deltas(
                                *initial_value,
                                *appreciation_type,
                                purchase as int,
                                liquidation as int,
                            )[j],
                    decreases liquidation - i,
                {
                    if i < purchase {
                        cashflow.push(ZERO);
                        asset_value.push(ZERO);
                    } else {
                        let value_this_month = product_of(
                            *initial_value,
                            value_unit_vector[(i - purchase) as usize],
                        );
                        if i == purchase {
                            cashflow.push(negated(*initial_value));
                        } else if i == liquidation - 1 {
                            cashflow.push(value_this_month);
                        } else {
                            cashflow.push(ZERO);
                        }
                        if i == liquidation - 1 {
                            asset_value.push(negated(value_this_month));
                        } else if i == purchase {
                            asset_value.push(value_this_month);
                        } else {
                            asset_value.push(difference_of(value_this_month, value_last_month));
                        }
                        value_last_month = value_this_month;
                    }
                    i += 1;
                }
                assert(cashflow@ =~= spec_asset_cashflow(
                    *initial_value,
                    *appreciation_type,
                    purchase as int,
                    liquidation as int,
                ));
                assert(asset_value@ =~= spec_asset_value_deltas(
                    *initial_value,
                    *appreciation_type,
                    purchase as int,
                    liquidation as int,
                ));
                FinancialStateChanges {
                    cashflow,
                    assets_delta: asset_value,
                    liabilities_delta: zeros(liquidation),
                }
            },
        }
    }
}

/// Something to be bought: for a price paid once, or an asset.
#[derive(Debug, PartialEq)]
#[allow(non_camel_case_types)]
pub enum Purchase {
    once_off_purchase { purchase_date: Date, value: u64 },
    asset { asset: Asset },
}

impl Clone for Purchase {
    fn clone(&self) -> (r: Self)
        ensures
            r == *self,
    {
        match self {
            Purchase::once_off_purchase { purchase_date, value } => Purchase::once_off_purchase {
                purchase_date: *purchase_date,
                value: *value,
            },
            Purchase::asset { asset } => Purchase::asset { asset: asset.clone() },
        }
    }
}

impl Purchase {
    /// Whether the purchase can be laid out from `current_date`: always for
    /// a price paid once, for an asset see [`Asset::renders_at`].
    pub open spec fn renders_at(&self, current_date: Ymd) -> bool {
        match self {
            Purchase::once_off_purchase { .. } => true,
            Purchase::asset { asset } => asset.renders_at(current_date),
        }
    }

    /// The changes the purchase causes. For a price paid once, cash falls
    /// by `value` in the month of the purchase, and the series ends with
    /// that month.
    pub open spec fn changes_at(&self, current_date: Ymd) -> Changes {
        match self {
            Purchase::once_off_purchase { purchase_date, value } => Changes {
                cashflow: spec_single_payment(
                    spec_months_between(purchase_date@, current_date) + 1,
                    spec_negated(*value),
                ),
                assets_delta: Seq::empty(),
                liabilities_delta: Seq::empty(),
            },
            Purchase::asset { asset } => asset.changes_at(current_date),
        }
    }

    /// Whether [`Purchase::changes_at`] can be laid out from `current_date`.
    pub fn can_render_at(&self, current_date: &Date) -> (r: bool)
        ensures
            r == self.renders_at(current_date@),
    {
        match self {
            Purchase::once_off_purchase { .. } => true,
            Purchase::asset { asset } => asset.can_render_at(current_date),
        }
    }

    /// Lays the changes out month by month, index 0 being the month of
    /// `current_date`.
    pub fn generate_financial_state_changes(&self, current_date: &Date) -> (r:
        FinancialStateChanges)
        requires
            self.renders_at(current_date@),
        ensures
            r@ == self.changes_at(current_date@),
    {
        match self {
            Purchase::asset { asset } => asset.generate_financial_state_changes(current_date),
            Purchase::once_off_purchase { purchase_date, value } => {
                let number_of_months_to_purchase = months_to_date(purchase_date, current_date);
                FinancialStateChanges {
                    cashflow: single_payment(number_of_months_to_purchase + 1, negated(*value)),
                    assets_delta: Vec::new(),
                    liabilities_delta: Vec::new(),
                }
            },
        }
    }
}

} // verus!
