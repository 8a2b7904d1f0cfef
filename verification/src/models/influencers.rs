//! All that is known of a person's finances to come, and the changes of
//! the sources that a forecast takes as given.
use vstd::prelude::*;
use crate::calendar::{Date, Ymd};
use crate::models::changes::{Changes, FinancialStateChanges};
use crate::models::goals::SpendingGoal;
use crate::models::purchases::{Asset, Purchase};
use crate::models::sources::{
    FinancialStateInfluencer, Liability, MonthlyExpense, MonthlyIncome, OnceOffExpense,
    OnceOffIncome, Savings,
};
use crate::utils::spec_add;

verus! {

/// Any one source of changes, told apart by its tag.
#[derive(Debug, PartialEq)]
pub enum Influencer {
    OnceOffExpense(OnceOffExpense),
    MonthlyExpense(MonthlyExpense),
    OnceOffIncome(OnceOffIncome),
    MonthlyIncome(MonthlyIncome),
    Purchase(Purchase),
    Asset(Asset),
    SpendingGoal(SpendingGoal),
}

impl FinancialStateInfluencer for Influencer {
    open spec fn renders_at(&self, current_date: Ymd) -> bool {
        match self {
            Influencer::OnceOffExpense(source) => source.renders_at(current_date),
            Influencer::MonthlyExpense(source) => source.renders_at(current_date),
            Influencer::OnceOffIncome(source) => source.renders_at(current_date),
            Influencer::MonthlyIncome(source) => source.renders_at(current_date),
            Influencer::Purchase(source) => source.renders_at(current_date),
            Influencer::Asset(source) => source.renders_at(current_date),
            Influencer::SpendingGoal(source) => source.renders_at(current_date),
        }
    }

    /// The changes of the source that the tag names.
    open spec fn changes_at(&self, current_date: Ymd) -> Changes {
        match self {
            Influencer::OnceOffExpense(source) => source.changes_at(current_date),
            Influencer::MonthlyExpense(source) => source.changes_at(current_date),
            Influencer::OnceOffIncome(source) => source.changes_at(current_date),
            Influencer::MonthlyIncome(source) => source.changes_at(current_date),
            Influencer::Purchase(source) => source.changes_at(current_date),
            Influencer::Asset(source) => source.changes_at(current_date),
            Influencer::SpendingGoal(source) => source.changes_at(current_date),
        }
    }

    fn generate_financial_state_changes(&self, current_date: &Date) -> (r: FinancialStateChanges) {
        match self {
            Influencer::OnceOffExpense(source) => source.generate_financial_state_changes(
                current_date,
            ),
            Influencer::MonthlyExpense(source) => source.generate_financial_state_changes(
                current_date,
            ),
            Influencer::OnceOffIncome(source) => source.generate_financial_state_changes(
                current_date,
            ),
            Influencer::MonthlyIncome(source) => source.generate_financial_state_changes(
                current_date,
            ),
            Influencer::Purchase(source) => source.generate_financial_state_changes(current_date),
            Influencer::Asset(source) => source.generate_financial_state_changes(current_date),
            Influencer::SpendingGoal(source) => source.generate_financial_state_changes(
                current_date,
            ),
        }
    }
}

/// `base` merged with the changes of each of `sources`, from the first to
/// the last.
pub open spec fn spec_merge_sources<T: FinancialStateInfluencer>(
    base: Changes,
    sources: Seq<T>,
    current_date: Ymd,
) -> Changes
    decreases sources.len(),
{
    if sources.len() == 0 {
        base
    } else {
        spec_merge_sources(base, sources.drop_last(), current_date).merge(
            sources.last().changes_at(current_date),
        )
    }
}

/// `base` merged with the changes of those of `incomes` that are
/// undesirable (or, when `undesirable` is false, of those that are not),
/// from the first to the last.
pub open spec fn spec_merge_monthly_income(
    base: Changes,
    incomes: Seq<MonthlyIncome>,
    current_date: Ymd,
    undesirable: bool,
) -> Changes
    decreases incomes.len(),
{
    if incomes.len() == 0 {
        base
    } else {
        let before = spec_merge_monthly_income(
            base,
            incomes.drop_last(),
            current_date,
            undesirable,
        );
        if incomes.last().is_undesirable == undesirable {
            before.merge(incomes.last().changes_at(current_date))
        } else {
            before
        }
    }
}

/// `base` merged with the changes of those of `incomes` that are
/// undesirable (or, when `undesirable` is false, of those that are not),
/// from the first to the last.
pub open spec fn spec_merge_once_off_income(
    base: Changes,
    incomes: Seq<OnceOffIncome>,
    current_date: Ymd,
    undesirable: bool,
) -> Changes
    decreases incomes.len(),
{
    if incomes.len() == 0 {
        base
    } else {
        let before = spec_merge_once_off_income(
            base,
            incomes.drop_last(),
            current_date,
            undesirable,
        );
        if incomes.last().is_undesirable == undesirable {
            before.merge(incomes.last().changes_at(current_date))
        } else {
            before
        }
    }
}

/// Whether the changes leave assets and liabilities as they are.
pub open spec fn spec_moves_cash_only(changes: Changes) -> bool {
    changes.assets_delta == Seq::<u64>::empty() && changes.liabilities_delta == Seq::<
        u64,
    >::empty()
}

/// Merging changes that move cash only gives changes that move cash only.
pub proof fn lemma_merge_moves_cash_only(a: Changes, b: Changes)
    requires
        spec_moves_cash_only(a),
        spec_moves_cash_only(b),
    ensures
        spec_moves_cash_only(a.merge(b)),
{
    assert(spec_add(a.assets_delta, b.assets_delta) =~= Seq::<u64>::empty());
    assert(spec_add(a.liabilities_delta, b.liabilities_delta) =~= Seq::<u64>::empty());
}

/// Merging sources that move cash only into a base that moves cash only
/// gives changes that move cash only.
pub proof fn lemma_merge_sources_moves_cash_only<T: FinancialStateInfluencer>(
    base: Changes,
    sources: Seq<T>,
    current_date: Ymd,
)
    requires
        spec_moves_cash_only(base),
        forall|i: int|
            0 <= i < sources.len() ==> spec_moves_cash_only(
                (#[trigger] sources[i]).changes_at(current_date),
            ),
    ensures
        spec_moves_cash_only(spec_merge_sources(base, sources, current_date)),
    decreases sources.len(),
{
    if sources.len() > 0 {
        lemma_merge_sources_moves_cash_only(base, sources.drop_last(), current_date);
        lemma_merge_moves_cash_only(
            spec_merge_sources(base, sources.drop_last(), current_date),
            sources.last().changes_at(current_date),
        );
    }
}

/// Merging monthly incomes into a base that moves cash only gives changes
/// that move cash only.
pub proof fn lemma_merge_monthly_income_moves_cash_only(
    base: Changes,
    incomes: Seq<MonthlyIncome>,
    current_date: Ymd,
    undesirable: bool,
)
    requires
        spec_moves_cash_only(base),
    ensures
        spec_moves_cash_only(
            spec_merge_monthly_income(base, incomes, current_date, undesirable),
        ),
    decreases incomes.len(),
{
    if incomes.len() > 0 {
        lemma_merge_monthly_income_moves_cash_only(
            base,
            incomes.drop_last(),
            current_date,
            undesirable,
        );
        lemma_merge_moves_cash_only(
            spec_merge_monthly_income(base, incomes.drop_last(), current_date, undesirable),
            incomes.last().changes_at(current_date),
        );
    }
}

/// Merging once-off incomes into a base that moves cash only gives changes
/// that move cash only.
pub proof fn lemma_merge_once_off_income_moves_cash_only(
    base: Changes,
    incomes: Seq<OnceOffIncome>,
    current_date: Ymd,
    undesirable: bool,
)
    requires
        spec_moves_cash_only(base),
    ensures
        spec_moves_cash_only(
            spec_merge_once_off_income(base, incomes, current_date, undesirable),
        ),
    decreases incomes.len(),
{
    if incomes.len() > 0 {
        lemma_merge_once_off_income_moves_cash_only(
            base,
            incomes.drop_last(),
            current_date,
            undesirable,
        );
        lemma_merge_moves_cash_only(
            spec_merge_once_off_income(base, incomes.drop_last(), current_date, undesirable),
            incomes.last().changes_at(current_date),
        );
    }
}

/// Where none of the incomes is of the kind asked for, the base stays as
/// it is.
pub proof fn lemma_merge_monthly_income_none_selected(
    base: Changes,
    incomes: Seq<MonthlyIncome>,
    current_date: Ymd,
    undesirable: bool,
)
    requires
        forall|i: int|
            0 <= i < incomes.len() ==> (#[trigger] incomes[i]).is_undesirable != undesirable,
    ensures
        spec_merge_monthly_income(base, incomes, current_date, undesirable) == base,
    decreases incomes.len(),
{
    if incomes.len() > 0 {
        lemma_merge_monthly_income_none_selected(
            base,
            incomes.drop_last(),
            current_date,
            undesirable,
        );
    }
}

/// Where none of the incomes is of the kind asked for, the base stays as
/// it is.
pub proof fn lemma_merge_once_off_income_none_selected(
    base: Changes,
    incomes: Seq<OnceOffIncome>,
    current_date: Ymd,
    undesirable: bool,
)
    requires
        forall|i: int|
            0 <= i < incomes.len() ==> (#[trigger] incomes[i]).is_undesirable != undesirable,
    ensures
        spec_merge_once_off_income(base, incomes, current_date, undesirable) == base,
    decreases incomes.len(),
{
    if incomes.len() > 0 {
        lemma_merge_once_off_income_none_selected(
            base,
            incomes.drop_last(),
            current_date,
            undesirable,
        );
    }
}

/// Computes [`spec_merge_sources`].
fn merge_sources<T: FinancialStateInfluencer>(
    base: FinancialStateChanges,
    sources: &Vec<T>,
    current_date: &Date,
) -> (r: FinancialStateChanges)
    requires
        forall|i: int| 0 <= i < sources.len() ==> (#[trigger] sources[i]).renders_at(current_date@),
    ensures
        r@ == spec_merge_sources(base@, sources@, current_date@),
{
    let ghost start = base@;
    let mut merged = base;
    let mut i: usize = 0;
    while i < sources.len()
        invariant
            i <= sources.len(),
            forall|j: int|
                0 <= j < sources.len() ==> (#[trigger] sources[j]).renders_at(current_date@),
            merged@ == spec_merge_sources(start, sources@.take(i as int), current_date@),
        decreases sources.len() - i,
    {
        assert(sources@.take(i + 1).drop_last() =~= sources@.take(i as int));
        merged = merged.merge(&sources[i].generate_financial_state_changes(current_date));
        i += 1;
    }
    assert(sources@.take(i as int) =~= sources@);
    merged
}

/// Computes [`spec_merge_monthly_income`].
fn merge_monthly_income(
    base: FinancialStateChanges,
    incomes: &Vec<MonthlyIncome>,
    current_date: &Date,
    undesirable: bool,
) -> (r: FinancialStateChanges)
    ensures
        r@ == spec_merge_monthly_income(base@, incomes@, current_date@, undesirable),
{
    let ghost start = base@;
    let mut merged = base;
    let mut i: usize = 0;
    while i < incomes.len()
        invariant
            i <= incomes.len(),
            merged@ == spec_merge_monthly_income(
                start,
                incomes@.take(i as int),
                current_date@,
                undesirable,
            ),
        decreases incomes.len() - i,
    {
        assert(incomes@.take(i + 1).drop_last() =~= incomes@.take(i as int));
        if incomes[i].is_undesirable == undesirable {
            merged = merged.merge(&incomes[i].generate_financial_state_changes(current_date));
        }
        i += 1;
    }
    assert(incomes@.take(i as int) =~= incomes@);
    merged
}

/// Computes [`spec_merge_once_off_income`].
fn merge_once_off_income(
    base: FinancialStateChanges,
    incomes: &Vec<OnceOffIncome>,
    current_date: &Date,
    undesirable: bool,
) -> (r: FinancialStateChanges)
    ensures
        r@ == spec_merge_once_off_income(base@, incomes@, current_date@, undesirable),
{
    let ghost start = base@;
    let mut merged = base;
    let mut i: usize = 0;
    while i < incomes.len()
        invariant
            i <= incomes.len(),
            merged@ == spec_merge_once_off_income(
                start,
                incomes@.take(i as int),
                current_date@,
                undesirable,
            ),
        decreases incomes.len() - i,
    {
        assert(incomes@.take(i + 1).drop_last() =~= incomes@.take(i as int));
        if incomes[i].is_undesirable == undesirable {
            merged = merged.merge(&incomes[i].generate_financial_state_changes(current_date));
        }
        i += 1;
    }
    assert(incomes@.take(i as int) =~= incomes@);
    merged
}

/// Everything that is known of a person's finances to come.
#[derive(Debug, PartialEq)]
pub struct FinancialStateInfluencers {
    pub max_retirement_age: i8,
    pub date_of_birth: Date,
    pub spending_goals: Vec<SpendingGoal>,
    pub once_off_expenses: Vec<OnceOffExpense>,
    pub monthly_expenses: Vec<MonthlyExpense>,
    pub monthly_income: Vec<MonthlyIncome>,
    pub once_off_income: Vec<OnceOffIncome>,
    pub current_savings: Savings,
    pub current_assets: Vec<Asset>,
    pub current_liabilities: Vec<Liability>,
}

impl FinancialStateInfluencers {
    /// Months from `today` to the birthday month in which the person
    /// reaches `max_retirement_age`.
    pub open spec fn spec_months_to_max_retirement(&self, today: Ymd) -> int {
        (self.max_retirement_age - (today.year - self.date_of_birth@.year)) * 12 - (today.month
            - self.date_of_birth@.month)
    }

    /// The changes of all sources that the forecast takes as given: the
    /// monthly expenses, the once-off expenses, the monthly incomes that are
    /// not undesirable and the once-off incomes that are not undesirable,
    /// merged in this order.
    pub open spec fn spec_fixed_changes(&self, current_date: Ymd) -> Changes {
        spec_merge_once_off_income(
            spec_merge_monthly_income(
                spec_merge_sources(
                    spec_merge_sources(Changes::empty(), self.monthly_expenses@, current_date),
                    self.once_off_expenses@,
                    current_date,
                ),
                self.monthly_income@,
                current_date,
                false,
            ),
            self.once_off_income@,
            current_date,
            false,
        )
    }

    /// The changes of the undesirable incomes: first the monthly, then the
    /// once-off ones, merged in this order.
    pub open spec fn spec_undesirable_income(&self, current_date: Ymd) -> Changes {
        spec_merge_once_off_income(
            spec_merge_monthly_income(
                Changes::empty(),
                self.monthly_income@,
                current_date,
                true,
            ),
            self.once_off_income@,
            current_date,
            true,
        )
    }

    /// Whether every spending goal can be laid out from `current_date`.
    pub open spec fn goals_render_at(&self, current_date: Ymd) -> bool {
        forall|i: int|
            0 <= i < self.spending_goals.len() ==> (#[trigger] self.spending_goals[i]).renders_at(
                current_date,
            )
    }

    /// The fixed sources move cash only: they leave assets and liabilities
    /// as they are.
    pub proof fn lemma_fixed_changes_move_cash_only(&self, current_date: Ymd)
        ensures
            self.spec_fixed_changes(current_date).assets_delta == Seq::<u64>::empty(),
            self.spec_fixed_changes(current_date).liabilities_delta == Seq::<u64>::empty(),
            self.spec_fixed_changes(current_date).is_aligned(),
    {
        let empty = Changes::empty();
        let first = spec_merge_sources(empty, self.monthly_expenses@, current_date);
        let second = spec_merge_sources(first, self.once_off_expenses@, current_date);
        let third = spec_merge_monthly_income(second, self.monthly_income@, current_date, false);
        assert forall|i: int| 0 <= i < self.monthly_expenses@.len() implies spec_moves_cash_only(
            (#[trigger] self.monthly_expenses@[i]).changes_at(current_date),
        ) by {}
        assert forall|i: int| 0 <= i < self.once_off_expenses@.len() implies spec_moves_cash_only(
            (#[trigger] self.once_off_expenses@[i]).changes_at(current_date),
        ) by {}
        lemma_merge_sources_moves_cash_only(empty, self.monthly_expenses@, current_date);
        lemma_merge_sources_moves_cash_only(first, self.once_off_expenses@, current_date);
        lemma_merge_monthly_income_moves_cash_only(
            second,
            self.monthly_income@,
            current_date,
            false,
        );
        lemma_merge_once_off_income_moves_cash_only(
            third,
            self.once_off_income@,
            current_date,
            false,
        );
    }

    /// The undesirable incomes move cash only: they leave assets and
    /// liabilities as they are.
    pub proof fn lemma_undesirable_income_moves_cash_only(&self, current_date: Ymd)
        ensures
            self.spec_undesirable_income(current_date).assets_delta == Seq::<u64>::empty(),
            self.spec_undesirable_income(current_date).liabilities_delta == Seq::<u64>::empty(),
            self.spec_undesirable_income(current_date).is_aligned(),
    {
        let empty = Changes::empty();
        let first = spec_merge_monthly_income(empty, self.monthly_income@, current_date, true);
        lemma_merge_monthly_income_moves_cash_only(
            empty,
            self.monthly_income@,
            current_date,
            true,
        );
        lemma_merge_once_off_income_moves_cash_only(
            first,
            self.once_off_income@,
            current_date,
            true,
        );
    }

    /// Where no income is undesirable, the undesirable incomes change
    /// nothing.
    pub proof fn lemma_no_undesirable_income(&self, current_date: Ymd)
        requires
            forall|i: int|
                0 <= i < self.monthly_income@.len()
                    ==> !(#[trigger] self.monthly_income@[i]).is_undesirable,
            forall|i: int|
                0 <= i < self.once_off_income@.len()
                    ==> !(#[trigger] self.once_off_income@[i]).is_undesirable,
        ensures
            self.spec_undesirable_income(current_date) == Changes::empty(),
    {
        lemma_merge_monthly_income_none_selected(
            Changes::empty(),
            self.monthly_income@,
            current_date,
            true,
        );
        lemma_merge_once_off_income_none_selected(
            Changes::empty(),
            self.once_off_income@,
            current_date,
            true,
        );
    }

    /// The number of months a forecast covers at most: a hundred years.
    #[inline]
    pub fn vector_length() -> (r: i16)
        ensures
            r == 12 * 100,
    {
        12 * 100
    }

    /// Months from `today` to the birthday month in which the person
    /// reaches `max_retirement_age`.
    pub fn months_to_max_retirment(&self, today: Date) -> (r: i16)
        requires
            i16::MIN <= self.spec_months_to_max_retirement(today@) <= i16::MAX,
        ensures
            r == self.spec_months_to_max_retirement(today@),
    {
        let months_to_next_birthday: i32 = today.month() as i32 - self.date_of_birth.month() as i32;
        let age: i32 = today.year() - self.date_of_birth.year();
        ((self.max_retirement_age as i32 - age) * 12 - months_to_next_birthday) as i16
    }

    /// The spending goals, the most important first: the order in which
    /// they were declared.
    pub fn prioritised_optional_spending_goals(&self) -> (r: Vec<SpendingGoal>)
        ensures
            r@ == self.spending_goals@,
    {
        let mut goals: Vec<SpendingGoal> = Vec::new();
        let mut i: usize = 0;
        while i < self.spending_goals.len()
            invariant
                i <= self.spending_goals.len(),
                goals.len() == i,
                forall|j: int| 0 <= j < i ==> goals[j] == self.spending_goals[j],
            decreases self.spending_goals.len() - i,
        {
            goals.push(self.spending_goals[i].clone());
            i += 1;
        }
        assert(goals@ =~= self.spending_goals@);
        goals
    }

    /// Whether every spending goal can be laid out from `current_date`.
    pub fn can_render_goals_at(&self, current_date: &Date) -> (r: bool)
        ensures
            r == self.goals_render_at(current_date@),
    {
        let mut i: usize = 0;
        while i < self.spending_goals.len()
            invariant
                i <= self.spending_goals.len(),
                forall|j: int|
                    0 <= j < i ==> (#[trigger] self.spending_goals[j]).renders_at(current_date@),
            decreases self.spending_goals.len() - i,
        {
            if !self.spending_goals[i].can_render_at(current_date) {
                return false;
            }
            i += 1;
        }
        true
    }

    /// The changes of the sources that the forecast cannot change. A
    /// monthly expense for groceries is such a source; a spending goal is
    /// not, since it only counts if it can be afforded, and neither is an
    /// undesirable income.
    pub fn financial_state_changes_from_fixed_sources(&self, current_date: &Date) -> (r:
        FinancialStateChanges)
        ensures
            r@ == self.spec_fixed_changes(current_date@),
    {
        let mut base = FinancialStateChanges::new();
        base = merge_sources(base, &self.monthly_expenses, current_date);
        base = merge_sources(base, &self.once_off_expenses, current_date);
        base = merge_monthly_income(base, &self.monthly_income, current_date, false);
        base = merge_once_off_income(base, &self.once_off_income, current_date, false);
        base
    }

    /// The changes of the incomes that are earned only because the money
    /// is needed.
    pub fn income_from_undesirable_sources(&self, current_date: &Date) -> (r:
        FinancialStateChanges)
        ensures
            r@ == self.spec_undesirable_income(current_date@),
    {
        let mut income = FinancialStateChanges::new();
        income = merge_monthly_income(income, &self.monthly_income, current_date, true);
        income = merge_once_off_income(income, &self.once_off_income, current_date, true);
        income
    }
}

} // verus!
