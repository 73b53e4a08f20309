use crate::calc::{
    activity_multiplier_milli, carbs_tenths, fat_tenths, gram_model, intake_model, protein_tenths,
    split_model, split_of_grams,
};
use crate::types::{Activity, Diet, Goal, SplitModel};
use vstd::prelude::*;

verus! {

/// The energy-expenditure multiplier table is total and pins exactly one
/// multiplier to each of the five activity levels.
pub proof fn lemma_activity_multiplier_table(activity: Activity)
    ensures
        activity is Sedentary ==> activity_multiplier_milli(activity) == 1200,
        activity is LightlyActive ==> activity_multiplier_milli(activity) == 1375,
        activity is ModeratelyActive ==> activity_multiplier_milli(activity) == 1550,
        activity is VeryActive ==> activity_multiplier_milli(activity) == 1725,
        activity is SuperActive ==> activity_multiplier_milli(activity) == 1900,
{
}

/// For every diet style the macro percentage triple sums to one: the three
/// shares, in tenths, always add up to exactly ten.
pub proof fn lemma_diet_shares_sum_to_one(diet: Diet)
    ensures
        carbs_tenths(diet) + protein_tenths(diet) + fat_tenths(diet) == 10,
{
}

/// A macro split spends exactly the budget it was given: for every intake
/// minimum and every diet style the three calorie budgets add up to the
/// whole minimum (ten tenths).
pub proof fn lemma_split_spends_whole_budget(min: int, diet: Diet)
    ensures
        split_model(min, diet).carbs + split_model(min, diet).protein + split_model(
            min,
            diet,
        ).fat == 10 * min,
{
    lemma_diet_shares_sum_to_one(diet);
}

/// Round trip: converting a macro split to gram targets and the gram
/// targets back to calories restores the split exactly.
pub proof fn lemma_grams_round_trip(split: SplitModel)
    ensures
        split_of_grams(gram_model(split)) == split,
{
    assert((split.carbs * 9) / 9 == split.carbs) by (nonlinear_arith);
    assert((split.protein * 9) / 9 == split.protein) by (nonlinear_arith);
    assert((split.fat * 4) / 4 == split.fat) by (nonlinear_arith);
}

/// Goal offsets are monotonic for one threshold: the weight-loss range lies
/// strictly below maintenance, maintenance is a single point, and the
/// gain-weight range lies strictly above it.
pub proof fn lemma_goal_offsets_monotonic(treshold: int)
    ensures
        intake_model(treshold, Goal::WeightLoss).max < intake_model(treshold, Goal::Maintenance).min,
        intake_model(treshold, Goal::Maintenance).min == intake_model(treshold, Goal::Maintenance).max,
        intake_model(treshold, Goal::Maintenance).max < intake_model(treshold, Goal::GainWeight).min,
{
}

/// Every intake range is well formed: for each goal the range computed from
/// a threshold has its minimum at or below its maximum.
pub proof fn lemma_intake_range_ordered(treshold: int, goal: Goal)
    ensures
        intake_model(treshold, goal).min <= intake_model(treshold, goal).max,
{
}

} // verus!
