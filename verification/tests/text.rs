use calorie_calc::text::{u64_decimal, u8_decimal};
use calorie_calc::types::{
    Activity, CaloricIntake, Diet, Gender, Goal, Kcal, MacroSplit, Person,
};

#[test]
fn gender_words() {
    assert_eq!(Gender::Male.text(), "male");
    assert_eq!(Gender::Female.text(), "female");
}

#[test]
fn activity_phrases() {
    assert_eq!(Activity::Sedentary.text(), "sedentary");
    assert_eq!(Activity::LightlyActive.text(), "lightly active");
    assert_eq!(Activity::ModeratelyActive.text(), "moderately active");
    assert_eq!(Activity::VeryActive.text(), "very active");
    assert_eq!(Activity::SuperActive.text(), "super active");
}

#[test]
fn goal_phrases() {
    assert_eq!(Goal::WeightLoss.text(), "losing weight");
    assert_eq!(Goal::Maintenance.text(), "maintaining weight");
    assert_eq!(Goal::GainWeight.text(), "gaining weight (lean mass)");
}

#[test]
fn diet_phrases() {
    assert_eq!(Diet::Balanced.text(), "balanced");
    assert_eq!(Diet::LowCarb.text(), "low carb");
    assert_eq!(Diet::HighCarb.text(), "high carb");
    assert_eq!(Diet::Ketogenic.text(), "ketogenic");
}

#[test]
fn byte_decimals() {
    assert_eq!(u8_decimal(0), "0");
    assert_eq!(u8_decimal(9), "9");
    assert_eq!(u8_decimal(10), "10");
    assert_eq!(u8_decimal(173), "173");
    assert_eq!(u8_decimal(255), "255");
}

#[test]
fn word_decimals() {
    assert_eq!(u64_decimal(0), "0");
    assert_eq!(u64_decimal(1_234_567_890), "1234567890");
}

#[test]
fn person_sentence() {
    let person = Person {
        name: String::from("Luca"),
        age: 33,
        gender: Gender::Male,
        height: 173,
        weight: 70,
        activity: Activity::SuperActive,
    };
    assert_eq!(
        person.describe(),
        "Luca is a 33 years old male, 173 cms tall that weighs 70kg with an activity level of super active"
    );
}

#[test]
fn kcal_decimals() {
    assert_eq!(Kcal(2_879_090_800).describe(), "2879.0908");
    assert_eq!(Kcal(1_000_000).describe(), "1");
    assert_eq!(Kcal(500_000).describe(), "0.5");
    assert_eq!(Kcal(0).describe(), "0");
    assert_eq!(Kcal(-1_500_000).describe(), "-1.5");
    assert_eq!(Kcal(1).describe(), "0.000001");
}

#[test]
fn kcal_decimal_keeps_inner_zeros() {
    assert_eq!(Kcal(10_000_010).describe(), "10.00001");
    assert_eq!(Kcal(10_100_000).describe(), "10.1");
}

#[test]
fn intake_range_sentence() {
    let range = CaloricIntake { min: Kcal(1_879_090_800), max: Kcal(2_379_090_800) };
    assert_eq!(range.describe(), "1879.0908-2379.0908 kcal");
}

#[test]
fn negative_intake_range_sentence() {
    // A tiny threshold leaves a negative weight-loss range; it is rendered,
    // not guarded against.
    let range = CaloricIntake { min: Kcal(-1_000_000_000), max: Kcal(-500_000_000) };
    assert_eq!(range.describe(), "-1000--500 kcal");
}

#[test]
fn macro_split_sentence() {
    let split = MacroSplit { carbs: 5_637_272_400, protein: 7_516_363_200, fat: 5_637_272_400 };
    assert_eq!(
        split.describe(),
        "carbs: 563.72724, protein: 751.63632, fat: 563.72724"
    );
}
