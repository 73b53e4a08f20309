use vstd::prelude::*;

verus! {

/// Stored units per kilocalorie in a `Kcal` value: one unit is a micro-kcal.
///
/// The basal-metabolic-rate coefficients have three decimal places and the
/// activity multipliers have three more, so every value the pipeline produces
/// is an exact multiple of 10^-6 kcal.
pub const MICROS_PER_KCAL: i64 = 1_000_000;

/// Stored units per kilocalorie in a `MacroSplit` field.
///
/// A macro split takes tenths of a `Kcal` value, so it is kept ten times
/// finer than `Kcal` to stay exact for every input.
pub const SPLIT_UNITS_PER_KCAL: i64 = 10_000_000;

/// Stored units per gram in a `GramSplit` field.
///
/// Gram targets divide split calories by 4 (carbs, protein) or 9 (fat);
/// scaling by 36 times `SPLIT_UNITS_PER_KCAL` keeps both divisions exact.
pub const GRAM_UNITS_PER_GRAM: i64 = 360_000_000;

/// Biological sex used to pick the basal-metabolic-rate coefficients.
#[derive(Clone, Copy, Debug, PartialEq, Eq, Structural)]
pub enum Gender {
    Female,
    Male,
}

/// How physically active a person is; selects the energy-expenditure
/// multiplier applied to the basal metabolic rate.
#[derive(Clone, Copy, Debug, PartialEq, Eq, Structural)]
pub enum Activity {
    Sedentary,
    LightlyActive,
    ModeratelyActive,
    VeryActive,
    SuperActive,
}

/// Weight goal; selects the offsets that narrow the caloric threshold into
/// an intake range.
#[derive(Clone, Copy, Debug, PartialEq, Eq, Structural)]
pub enum Goal {
    WeightLoss,
    Maintenance,
    GainWeight,
}

/// Diet style; selects a fixed carbs/protein/fat percentage triple.
#[derive(Clone, Copy, Debug, PartialEq, Eq, Structural)]
pub enum Diet {
    Balanced,
    LowCarb,
    HighCarb,
    Ketogenic,
}

/// Why a checked calculation refused its input.
#[derive(Clone, Copy, Debug, PartialEq, Eq, Structural)]
pub enum PlanError {
    /// An implausible measurement: a zero age, height or weight.
    InvalidMeasurement,
    /// A result would leave the representable fixed-point range.
    ArithmeticOverflow,
}

/// A person's attributes, immutable once constructed.
#[derive(Debug)]
pub struct Person {
    pub name: String,
    /// Age in years.
    pub age: u8,
    pub gender: Gender,
    /// Height in centimeters.
    pub height: u8,
    /// Weight in kilograms.
    pub weight: u8,
    pub activity: Activity,
}

/// A calorie quantity in exact decimal fixed point:
/// `MICROS_PER_KCAL` stored units make one kilocalorie.
///
/// The value may be negative: the arithmetic is total and extreme inputs are
/// not guarded against, only represented exactly.
#[derive(Clone, Copy, Debug, PartialEq, Eq, Structural)]
pub struct Kcal(pub i64);

impl View for Kcal {
    type V = int;

    open spec fn view(&self) -> int {
        self.0 as int
    }
}

/// Mathematical model of a `CaloricIntake`: both bounds as unbounded
/// integers in `Kcal` units.
#[verifier::ext_equal]
pub ghost struct IntakeModel {
    pub min: int,
    pub max: int,
}

/// A daily caloric-intake range in kilocalories, `min <= max` by
/// construction for every goal.
#[derive(Clone, Copy, Debug, PartialEq, Eq, Structural)]
pub struct CaloricIntake {
    pub min: Kcal,
    pub max: Kcal,
}

impl View for CaloricIntake {
    type V = IntakeModel;

    open spec fn view(&self) -> IntakeModel {
        IntakeModel { min: self.min@, max: self.max@ }
    }
}

/// Mathematical model of a `MacroSplit`: the three calorie budgets as
/// unbounded integers in `SPLIT_UNITS_PER_KCAL` units.
#[verifier::ext_equal]
pub ghost struct SplitModel {
    pub carbs: int,
    pub protein: int,
    pub fat: int,
}

/// A calorie budget divided over the three macronutrients.
///
/// Each field is a calorie quantity stored in `SPLIT_UNITS_PER_KCAL` units.
#[derive(Clone, Copy, Debug, PartialEq, Eq, Structural)]
pub struct MacroSplit {
    pub carbs: i64,
    pub protein: i64,
    pub fat: i64,
}

impl View for MacroSplit {
    type V = SplitModel;

    open spec fn view(&self) -> SplitModel {
        SplitModel {
            carbs: self.carbs as int,
            protein: self.protein as int,
            fat: self.fat as int,
        }
    }
}

/// Mathematical model of a `GramSplit`: the three gram targets as unbounded
/// integers in `GRAM_UNITS_PER_GRAM` units.
#[verifier::ext_equal]
pub ghost struct GramModel {
    pub carbs: int,
    pub protein: int,
    pub fat: int,
}

/// Gram targets for the three macronutrients.
///
/// Each field is a gram quantity stored in `GRAM_UNITS_PER_GRAM` units.
#[derive(Clone, Copy, Debug, PartialEq, Eq, Structural)]
pub struct GramSplit {
    pub carbs: i64,
    pub protein: i64,
    pub fat: i64,
}

impl View for GramSplit {
    type V = GramModel;

    open spec fn view(&self) -> GramModel {
        GramModel {
            carbs: self.carbs as int,
            protein: self.protein as int,
            fat: self.fat as int,
        }
    }
}

} // verus!
