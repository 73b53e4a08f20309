use crate::types::{
    Activity, CaloricIntake, Diet, Gender, Goal, GramModel, GramSplit, IntakeModel, Kcal,
    MacroSplit, Person, PlanError, SplitModel, MICROS_PER_KCAL,
};
use vstd::prelude::*;

verus! {

/// Kilocalories per gram of carbohydrate (Atwater factor).
pub const CALORIES_PER_CARB: i64 = 4;

/// Kilocalories per gram of protein (Atwater factor).
pub const CALORIES_PER_PROTEIN: i64 = 4;

/// Kilocalories per gram of fat (Atwater factor).
pub const CALORIES_PER_FAT: i64 = 9;

/// Basal metabolic rate in milli-kcal, by the Harris-Benedict-style linear
/// formula with gender-specific coefficients:
/// male `88.362 + 13.397*weight + 4.799*height - 5.677*age`,
/// female `447.593 + 9.247*weight + 3.098*height - 4.330*age`.
pub open spec fn bmr_milli(gender: Gender, weight: u8, height: u8, age: u8) -> int {
    match gender {
        Gender::Male => 88362 + 13397 * weight + 4799 * height - 5677 * age,
        Gender::Female => 447593 + 9247 * weight + 3098 * height - 4330 * age,
    }
}

/// The energy-expenditure multiplier table in milli-units, total over the
/// five activity levels: sedentary 1.2, lightly active 1.375, moderately
/// active 1.55, very active 1.725, super active 1.9.
pub open spec fn activity_multiplier_milli(activity: Activity) -> int {
    match activity {
        Activity::Sedentary => 1200,
        Activity::LightlyActive => 1375,
        Activity::ModeratelyActive => 1550,
        Activity::VeryActive => 1725,
        Activity::SuperActive => 1900,
    }
}

/// Daily caloric threshold in micro-kcal: the basal metabolic rate scaled by
/// the activity multiplier (milli times milli gives micro exactly).
pub open spec fn treshold_micro(person: Person) -> int {
    bmr_milli(person.gender, person.weight, person.height, person.age)
        * activity_multiplier_milli(person.activity)
}

/// The goal policy table in micro-kcal offsets from the threshold:
/// weight loss `[t - 1000, t - 500]`, maintenance `[t, t]`,
/// gain weight `[t + 250, t + 500]` (offsets in whole kcal).
pub open spec fn intake_model(treshold: int, goal: Goal) -> IntakeModel {
    match goal {
        Goal::WeightLoss => IntakeModel {
            min: treshold - 1000 * MICROS_PER_KCAL,
            max: treshold - 500 * MICROS_PER_KCAL,
        },
        Goal::Maintenance => IntakeModel { min: treshold, max: treshold },
        Goal::GainWeight => IntakeModel {
            min: treshold + 250 * MICROS_PER_KCAL,
            max: treshold + 500 * MICROS_PER_KCAL,
        },
    }
}

/// Carbohydrate share of the intake minimum, in tenths.
pub open spec fn carbs_tenths(diet: Diet) -> int {
    match diet {
        Diet::Balanced => 4,
        Diet::LowCarb => 3,
        Diet::HighCarb => 5,
        Diet::Ketogenic => 1,
    }
}

/// Protein share of the intake minimum, in tenths.
pub open spec fn protein_tenths(diet: Diet) -> int {
    match diet {
        Diet::Balanced => 3,
        Diet::LowCarb => 4,
        Diet::HighCarb => 2,
        Diet::Ketogenic => 3,
    }
}

/// Fat share of the intake minimum, in tenths.
pub open spec fn fat_tenths(diet: Diet) -> int {
    match diet {
        Diet::Balanced => 3,
        Diet::LowCarb => 3,
        Diet::HighCarb => 3,
        Diet::Ketogenic => 6,
    }
}

/// The macro split of an intake minimum: each budget is the minimum times
/// the diet's share. A micro-kcal value times tenths lands exactly on
/// `SPLIT_UNITS_PER_KCAL` units.
pub open spec fn split_model(min: int, diet: Diet) -> SplitModel {
    SplitModel {
        carbs: min * carbs_tenths(diet),
        protein: min * protein_tenths(diet),
        fat: min * fat_tenths(diet),
    }
}

/// Gram targets of a macro split: calories divided by the Atwater factors.
/// In stored units the divisions become exact multiplications, since
/// `GRAM_UNITS_PER_GRAM == 36 * SPLIT_UNITS_PER_KCAL`.
pub open spec fn gram_model(split: SplitModel) -> GramModel {
    GramModel {
        carbs: split.carbs * (36int / (CALORIES_PER_CARB as int)),
        protein: split.protein * (36int / (CALORIES_PER_PROTEIN as int)),
        fat: split.fat * (36int / (CALORIES_PER_FAT as int)),
    }
}

/// Calorie budgets recovered from gram targets: grams times the Atwater
/// factors, read back in `SPLIT_UNITS_PER_KCAL` units.
pub open spec fn split_of_grams(grams: GramModel) -> SplitModel {
    SplitModel {
        carbs: grams.carbs / (36int / (CALORIES_PER_CARB as int)),
        protein: grams.protein / (36int / (CALORIES_PER_PROTEIN as int)),
        fat: grams.fat / (36int / (CALORIES_PER_FAT as int)),
    }
}

/// Whether a person's measurements are plausible: a zero age, height or
/// weight is not.
pub open spec fn plausible_measurements(p: Person) -> bool {
    p.age > 0 && p.height > 0 && p.weight > 0
}

/// Whether the intake offsets for a goal keep the range inside `i64`.
pub open spec fn intake_fits(treshold: int, goal: Goal) -> bool {
    &&& (goal is WeightLoss ==> treshold - 1000 * MICROS_PER_KCAL >= i64::MIN)
    &&& (goal is GainWeight ==> treshold + 500 * MICROS_PER_KCAL <= i64::MAX)
}

/// Whether the share products for a diet stay inside `i64`.
pub open spec fn split_fits(min: int, diet: Diet) -> bool {
    &&& i64::MIN <= min * carbs_tenths(diet) <= i64::MAX
    &&& i64::MIN <= min * protein_tenths(diet) <= i64::MAX
    &&& i64::MIN <= min * fat_tenths(diet) <= i64::MAX
}

/// Whether the gram rescalings of a split stay inside `i64`.
pub open spec fn grams_fit(split: SplitModel) -> bool {
    &&& i64::MIN <= split.carbs * 9 <= i64::MAX
    &&& i64::MIN <= split.protein * 9 <= i64::MAX
    &&& i64::MIN <= split.fat * 4 <= i64::MAX
}

/// Basal metabolic rate in milli-kcal, exactly as `bmr_milli` states it.
fn bmr_milli_exec(person: &Person) -> (r: i64)
    ensures
        r as int == bmr_milli(person.gender, person.weight, person.height, person.age),
{
    match person.gender {
        Gender::Male => {
            88362 + 13397 * (person.weight as i64) + 4799 * (person.height as i64)
                - 5677 * (person.age as i64)
        },
        Gender::Female => {
            447593 + 9247 * (person.weight as i64) + 3098 * (person.height as i64)
                - 4330 * (person.age as i64)
        },
    }
}

/// Basal metabolic rate of a person, exact in micro-kcal.
pub fn basal_metabolic_rate(person: &Person) -> (r: Kcal)
    ensures
        r@ == 1000 * bmr_milli(person.gender, person.weight, person.height, person.age),
{
    Kcal(bmr_milli_exec(person) * 1000)
}

/// Daily caloric threshold: the basal metabolic rate times the activity
/// multiplier, exact in micro-kcal.
pub fn caloric_treshold(person: Person) -> (r: Kcal)
    ensures
        r@ == treshold_micro(person),
{
    let milli: i64 = bmr_milli_exec(&person);
    let multiplier: i64 = match person.activity {
        Activity::Sedentary => 1200,
        Activity::LightlyActive => 1375,
        Activity::ModeratelyActive => 1550,
        Activity::VeryActive => 1725,
        Activity::SuperActive => 1900,
    };
    proof {
        assert(-1_500_000 <= milli <= 5_000_000);
        assert(i64::MIN <= milli * multiplier <= i64::MAX) by (nonlinear_arith)
            requires
                -1_500_000 <= milli <= 5_000_000,
                1200 <= multiplier <= 1900,
        ;
    }
    Kcal(milli * multiplier)
}

/// The caloric-intake range for a goal: the threshold shifted by the goal's
/// offsets. The bound on the threshold only keeps the shifts inside `i64`.
pub fn caloric_intake(caloric_treshold: Kcal, goal: &Goal) -> (r: CaloricIntake)
    requires
        intake_fits(caloric_treshold@, *goal),
    ensures
        r@ == intake_model(caloric_treshold@, *goal),
{
    let t = caloric_treshold.0;
    match goal {
        Goal::WeightLoss => CaloricIntake {
            min: Kcal(t - 1000 * MICROS_PER_KCAL),
            max: Kcal(t - 500 * MICROS_PER_KCAL),
        },
        Goal::Maintenance => CaloricIntake { min: Kcal(t), max: Kcal(t) },
        Goal::GainWeight => CaloricIntake {
            min: Kcal(t + 250 * MICROS_PER_KCAL),
            max: Kcal(t + 500 * MICROS_PER_KCAL),
        },
    }
}

/// The macro split of an intake range: only the `min` bound is budgeted.
/// The bound on `min` only keeps the share products inside `i64`.
pub fn macro_split(caloric_intake: CaloricIntake, diet: &Diet) -> (r: MacroSplit)
    requires
        split_fits(caloric_intake.min@, *diet),
    ensures
        r@ == split_model(caloric_intake.min@, *diet),
{
    let min = caloric_intake.min.0;
    match diet {
        Diet::Balanced => MacroSplit { carbs: min * 4, protein: min * 3, fat: min * 3 },
        Diet::LowCarb => MacroSplit { carbs: min * 3, protein: min * 4, fat: min * 3 },
        Diet::HighCarb => MacroSplit { carbs: min * 5, protein: min * 2, fat: min * 3 },
        Diet::Ketogenic => MacroSplit { carbs: min * 1, protein: min * 3, fat: min * 6 },
    }
}

impl MacroSplit {
    /// Gram targets of this split: carbs and protein calories divided by 4,
    /// fat calories divided by 9, all exact in the stored units. The bound
    /// only keeps the rescaling inside `i64`.
    pub fn to_grams(&self) -> (r: GramSplit)
        requires
            grams_fit(self@),
        ensures
            r@ == gram_model(self@),
    {
        GramSplit {
            carbs: self.carbs * 9,
            protein: self.protein * 9,
            fat: self.fat * 4,
        }
    }
}

impl Person {
    /// Checks this person's measurements: a zero age, height or weight is
    /// refused as an invalid measurement, anything else is accepted.
    pub fn validate(&self) -> (r: Result<(), PlanError>)
        ensures
            r is Ok <==> plausible_measurements(*self),
            r is Err ==> r == Err::<(), PlanError>(PlanError::InvalidMeasurement),
    {
        if self.age > 0 && self.height > 0 && self.weight > 0 {
            Ok(())
        } else {
            Err(PlanError::InvalidMeasurement)
        }
    }
}

/// The caloric-intake range for a goal, with the fixed-point range checked
/// instead of demanded: exactly when the goal's offsets would leave `i64`,
/// the overflow is reported to the caller.
pub fn checked_caloric_intake(caloric_treshold: Kcal, goal: &Goal) -> (r: Result<
    CaloricIntake,
    PlanError,
>)
    ensures
        match r {
            Ok(i) => intake_fits(caloric_treshold@, *goal) && i@ == intake_model(
                caloric_treshold@,
                *goal,
            ),
            Err(e) => e == PlanError::ArithmeticOverflow && !intake_fits(
                caloric_treshold@,
                *goal,
            ),
        },
{
    let t = caloric_treshold.0;
    let fits = match goal {
        Goal::WeightLoss => t >= i64::MIN + 1000 * MICROS_PER_KCAL,
        Goal::Maintenance => true,
        Goal::GainWeight => t <= i64::MAX - 500 * MICROS_PER_KCAL,
    };
    if fits {
        Ok(caloric_intake(caloric_treshold, goal))
    } else {
        Err(PlanError::ArithmeticOverflow)
    }
}

/// The macro split of an intake range, with the fixed-point range checked
/// instead of demanded: exactly when a share product would leave `i64`, the
/// overflow is reported to the caller.
pub fn checked_macro_split(caloric_intake: CaloricIntake, diet: &Diet) -> (r: Result<
    MacroSplit,
    PlanError,
>)
    ensures
        match r {
            Ok(m) => split_fits(caloric_intake.min@, *diet) && m@ == split_model(
                caloric_intake.min@,
                *diet,
            ),
            Err(e) => e == PlanError::ArithmeticOverflow && !split_fits(
                caloric_intake.min@,
                *diet,
            ),
        },
{
    let min = caloric_intake.min.0;
    let fits = match diet {
        Diet::Balanced => min.checked_mul(4).is_some() && min.checked_mul(3).is_some(),
        Diet::LowCarb => min.checked_mul(3).is_some() && min.checked_mul(4).is_some(),
        Diet::HighCarb => min.checked_mul(5).is_some() && min.checked_mul(2).is_some()
            && min.checked_mul(3).is_some(),
        Diet::Ketogenic => min.checked_mul(1).is_some() && min.checked_mul(3).is_some()
            && min.checked_mul(6).is_some(),
    };
    if fits {
        Ok(macro_split(caloric_intake, diet))
    } else {
        Err(PlanError::ArithmeticOverflow)
    }
}

impl MacroSplit {
    /// Gram targets of this split, with the fixed-point range checked
    /// instead of demanded: exactly when a rescaling would leave `i64`, the
    /// overflow is reported to the caller.
    pub fn checked_to_grams(&self) -> (r: Result<GramSplit, PlanError>)
        ensures
            match r {
                Ok(g) => grams_fit(self@) && g@ == gram_model(self@),
                Err(e) => e == PlanError::ArithmeticOverflow && !grams_fit(self@),
            },
    {
        if self.carbs.checked_mul(9).is_some() && self.protein.checked_mul(9).is_some()
            && self.fat.checked_mul(4).is_some() {
            Ok(self.to_grams())
        } else {
            Err(PlanError::ArithmeticOverflow)
        }
    }
}

/// Calorie budgets recovered from gram targets, the inverse of
/// `MacroSplit::to_grams` on its results: grams times the Atwater factors.
/// A gram value must sit on the grid its factor generates, as every result
/// of `to_grams` does, for the stored division to be exact.
pub fn grams_to_kcal(grams: GramSplit) -> (r: MacroSplit)
    requires
        grams.carbs@ % 9 == 0,
        grams.protein@ % 9 == 0,
        grams.fat@ % 4 == 0,
    ensures
        r@ == split_of_grams(grams@),
{
    MacroSplit {
        carbs: grams.carbs / 9,
        protein: grams.protein / 9,
        fat: grams.fat / 4,
    }
}

} // verus!
