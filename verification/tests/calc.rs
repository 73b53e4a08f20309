use calorie_calc::calc::{
    basal_metabolic_rate, caloric_intake, caloric_treshold, checked_caloric_intake,
    checked_macro_split, grams_to_kcal, macro_split,
};
use calorie_calc::types::{
    Activity, CaloricIntake, Diet, Gender, Goal, GramSplit, Kcal, MacroSplit, Person, PlanError,
    GRAM_UNITS_PER_GRAM,
};

fn luca() -> Person {
    Person {
        name: String::from("Luca"),
        age: 33,
        gender: Gender::Male,
        height: 173,
        weight: 70,
        activity: Activity::SuperActive,
    }
}

#[test]
fn calculate_caloric_treshold_based_on_base_data() {
    let person = luca();

    // 1669.038 kcal basal rate times the super-active multiplier 1.9.
    assert_eq!(caloric_treshold(person), Kcal(3_171_172_200));
}

#[test]
fn calculate_caloric_intake_for_weight_loss() {
    let caloric_treshold = Kcal(2_879_090_800);
    let goal = Goal::WeightLoss;

    assert_eq!(caloric_intake(caloric_treshold, &goal).min, Kcal(1_879_090_800));
    assert_eq!(caloric_intake(caloric_treshold, &goal).max, Kcal(2_379_090_800));
}

#[test]
fn calculate_macro_split_for_low_carb_diet() {
    let goal = Goal::WeightLoss;
    let diet = Diet::LowCarb;
    let caloric_treshold = Kcal(2_879_090_800);

    assert_eq!(caloric_intake(caloric_treshold, &goal).min, Kcal(1_879_090_800));

    let grams = macro_split(caloric_intake(caloric_treshold, &goal), &diet).to_grams();
    assert_eq!(
        GramSplit { carbs: 50_735_451_600, protein: 67_647_268_800, fat: 22_549_089_600 },
        grams
    );

    // About 140.93 g carbs, 187.91 g protein and 62.64 g fat.
    let per_gram = GRAM_UNITS_PER_GRAM as f64;
    assert!((grams.carbs as f64 / per_gram - 140.93182).abs() < 1e-3);
    assert!((grams.protein as f64 / per_gram - 187.90909).abs() < 1e-3);
    assert!((grams.fat as f64 / per_gram - 62.636368).abs() < 1e-3);
}

#[test]
fn basal_metabolic_rate_male_is_exact() {
    // 88.362 + 13.397*70 + 4.799*173 - 5.677*33 = 1669.038 kcal.
    assert_eq!(basal_metabolic_rate(&luca()), Kcal(1_669_038_000));
}

#[test]
fn basal_metabolic_rate_female_is_exact() {
    let person = Person {
        name: String::from("Mara"),
        age: 40,
        gender: Gender::Female,
        height: 165,
        weight: 60,
        activity: Activity::Sedentary,
    };

    // 447.593 + 9.247*60 + 3.098*165 - 4.330*40 = 1340.383 kcal.
    assert_eq!(basal_metabolic_rate(&person), Kcal(1_340_383_000));
}

#[test]
fn every_activity_level_scales_the_basal_rate() {
    let levels = [
        (Activity::Sedentary, 1200i64),
        (Activity::LightlyActive, 1375),
        (Activity::ModeratelyActive, 1550),
        (Activity::VeryActive, 1725),
        (Activity::SuperActive, 1900),
    ];
    for (activity, multiplier_milli) in levels {
        let mut person = luca();
        person.activity = activity;
        // Basal rate of 1669.038 kcal is 1_669_038 milli-kcal.
        assert_eq!(caloric_treshold(person), Kcal(1_669_038 * multiplier_milli));
    }
}

#[test]
fn intake_range_for_maintenance_is_the_treshold() {
    let range = caloric_intake(Kcal(2_879_090_800), &Goal::Maintenance);
    assert_eq!(range, CaloricIntake { min: Kcal(2_879_090_800), max: Kcal(2_879_090_800) });
}

#[test]
fn intake_range_for_gaining_weight_adds_a_surplus() {
    let range = caloric_intake(Kcal(2_879_090_800), &Goal::GainWeight);
    assert_eq!(range, CaloricIntake { min: Kcal(3_129_090_800), max: Kcal(3_379_090_800) });
}

#[test]
fn goal_ranges_are_monotonic_for_one_treshold() {
    let t = Kcal(2_879_090_800);
    let loss = caloric_intake(t, &Goal::WeightLoss);
    let keep = caloric_intake(t, &Goal::Maintenance);
    let gain = caloric_intake(t, &Goal::GainWeight);
    assert!(loss.max.0 < keep.min.0);
    assert_eq!(keep.min, keep.max);
    assert!(keep.max.0 < gain.min.0);
}

#[test]
fn every_diet_splits_the_whole_minimum() {
    let min = Kcal(2_000_000_000);
    let range = CaloricIntake { min, max: min };
    for diet in [Diet::Balanced, Diet::LowCarb, Diet::HighCarb, Diet::Ketogenic] {
        let split = macro_split(range, &diet);
        // The three budgets sum to the minimum: tenths add up to ten.
        assert_eq!(split.carbs + split.protein + split.fat, min.0 * 10);
    }
}

#[test]
fn balanced_diet_splits_forty_thirty_thirty() {
    let range = CaloricIntake { min: Kcal(2_000_000_000), max: Kcal(2_000_000_000) };
    let split = macro_split(range, &Diet::Balanced);
    // 800, 600 and 600 kcal of a 2000 kcal budget.
    assert_eq!(
        split,
        MacroSplit { carbs: 8_000_000_000, protein: 6_000_000_000, fat: 6_000_000_000 }
    );
}

#[test]
fn ketogenic_diet_splits_ten_thirty_sixty() {
    let range = CaloricIntake { min: Kcal(2_000_000_000), max: Kcal(2_000_000_000) };
    let split = macro_split(range, &Diet::Ketogenic);
    // 200, 600 and 1200 kcal of a 2000 kcal budget.
    assert_eq!(
        split,
        MacroSplit { carbs: 2_000_000_000, protein: 6_000_000_000, fat: 12_000_000_000 }
    );
}

#[test]
fn high_carb_diet_splits_fifty_twenty_thirty() {
    let range = CaloricIntake { min: Kcal(2_000_000_000), max: Kcal(2_000_000_000) };
    let split = macro_split(range, &Diet::HighCarb);
    assert_eq!(
        split,
        MacroSplit { carbs: 10_000_000_000, protein: 4_000_000_000, fat: 6_000_000_000 }
    );
}

#[test]
fn gram_targets_divide_by_the_atwater_factors() {
    // A split of 400, 300 and 300 kcal.
    let split = MacroSplit { carbs: 4_000_000_000, protein: 3_000_000_000, fat: 3_000_000_000 };
    let grams = split.to_grams();
    let per_gram = GRAM_UNITS_PER_GRAM as f64;
    // 400/4 = 100 g, 300/4 = 75 g, 300/9 = 33.33 g.
    assert_eq!(grams.carbs as f64 / per_gram, 100.0);
    assert_eq!(grams.protein as f64 / per_gram, 75.0);
    assert!((grams.fat as f64 / per_gram - 100.0 / 3.0).abs() < 1e-9);
}

#[test]
fn validation_refuses_zero_measurements() {
    assert_eq!(luca().validate(), Ok(()));
    for field in 0..3 {
        let mut person = luca();
        match field {
            0 => person.age = 0,
            1 => person.height = 0,
            _ => person.weight = 0,
        }
        assert_eq!(person.validate(), Err(PlanError::InvalidMeasurement));
    }
}

#[test]
fn checked_intake_reports_overflow() {
    assert_eq!(
        checked_caloric_intake(Kcal(i64::MIN + 999_999_999), &Goal::WeightLoss),
        Err(PlanError::ArithmeticOverflow)
    );
    assert_eq!(
        checked_caloric_intake(Kcal(2_879_090_800), &Goal::WeightLoss),
        Ok(CaloricIntake { min: Kcal(1_879_090_800), max: Kcal(2_379_090_800) })
    );
    assert_eq!(
        checked_caloric_intake(Kcal(i64::MAX), &Goal::Maintenance),
        Ok(CaloricIntake { min: Kcal(i64::MAX), max: Kcal(i64::MAX) })
    );
}

#[test]
fn checked_split_reports_overflow() {
    let huge = CaloricIntake { min: Kcal(i64::MAX / 2), max: Kcal(i64::MAX / 2) };
    assert_eq!(checked_macro_split(huge, &Diet::Ketogenic), Err(PlanError::ArithmeticOverflow));
    let range = CaloricIntake { min: Kcal(2_000_000_000), max: Kcal(2_000_000_000) };
    assert_eq!(
        checked_macro_split(range, &Diet::Balanced),
        Ok(MacroSplit { carbs: 8_000_000_000, protein: 6_000_000_000, fat: 6_000_000_000 })
    );
}

#[test]
fn checked_grams_reports_overflow() {
    let huge = MacroSplit { carbs: i64::MAX / 2, protein: 0, fat: 0 };
    assert_eq!(huge.checked_to_grams(), Err(PlanError::ArithmeticOverflow));
    let split = MacroSplit { carbs: 4_000_000_000, protein: 3_000_000_000, fat: 3_000_000_000 };
    assert_eq!(
        split.checked_to_grams(),
        Ok(GramSplit { carbs: 36_000_000_000, protein: 27_000_000_000, fat: 12_000_000_000 })
    );
}

#[test]
fn grams_round_trip_back_to_calories() {
    let splits = [
        MacroSplit { carbs: 5_637_272_400, protein: 7_516_363_200, fat: 5_637_272_400 },
        MacroSplit { carbs: 12_345, protein: 678, fat: 999 },
        MacroSplit { carbs: 0, protein: 0, fat: 0 },
    ];
    for split in splits {
        assert_eq!(grams_to_kcal(split.to_grams()), split);
    }
}
