use crate::types::{Activity, CaloricIntake, Diet, Gender, Goal, IntakeModel, Kcal, MacroSplit,
    Person, SplitModel};
use vstd::prelude::*;
use vstd::string::StringExecFns;

verus! {

/// Ten to the power `k`.
pub open spec fn pow10(k: nat) -> nat
    decreases k,
{
    if k == 0 {
        1
    } else {
        10 * pow10((k - 1) as nat)
    }
}

/// The decimal digit character for a value below ten.
pub open spec fn digit_char(d: nat) -> char {
    if d == 0 {
        '0'
    } else if d == 1 {
        '1'
    } else if d == 2 {
        '2'
    } else if d == 3 {
        '3'
    } else if d == 4 {
        '4'
    } else if d == 5 {
        '5'
    } else if d == 6 {
        '6'
    } else if d == 7 {
        '7'
    } else if d == 8 {
        '8'
    } else {
        '9'
    }
}

/// The decimal rendering of a natural number, most significant digit first,
/// with no leading zeros (zero itself renders as a single digit).
pub open spec fn decimal_digits(n: nat) -> Seq<char>
    decreases n,
{
    if n < 10 {
        seq![digit_char(n)]
    } else {
        decimal_digits(n / 10).push(digit_char(n % 10))
    }
}

/// The word naming a gender in rendered sentences.
pub open spec fn gender_text(gender: Gender) -> Seq<char> {
    match gender {
        Gender::Male => "male"@,
        Gender::Female => "female"@,
    }
}

/// The phrase naming an activity level in rendered sentences.
pub open spec fn activity_text(activity: Activity) -> Seq<char> {
    match activity {
        Activity::Sedentary => "sedentary"@,
        Activity::LightlyActive => "lightly active"@,
        Activity::ModeratelyActive => "moderately active"@,
        Activity::VeryActive => "very active"@,
        Activity::SuperActive => "super active"@,
    }
}

/// The phrase naming a goal in rendered sentences.
pub open spec fn goal_text(goal: Goal) -> Seq<char> {
    match goal {
        Goal::WeightLoss => "losing weight"@,
        Goal::Maintenance => "maintaining weight"@,
        Goal::GainWeight => "gaining weight (lean mass)"@,
    }
}

/// The phrase naming a diet style in rendered sentences.
pub open spec fn diet_text(diet: Diet) -> Seq<char> {
    match diet {
        Diet::Balanced => "balanced"@,
        Diet::LowCarb => "low carb"@,
        Diet::HighCarb => "high carb"@,
        Diet::Ketogenic => "ketogenic"@,
    }
}

/// The lowest `k` decimal digits of a natural number, zero padded to
/// exactly `k` characters, most significant first.
pub open spec fn fixed_digits(f: nat, k: nat) -> Seq<char>
    decreases k,
{
    if k == 0 {
        Seq::<char>::empty()
    } else {
        fixed_digits(f / 10, (k - 1) as nat).push(digit_char(f % 10))
    }
}

/// A digit sequence with its trailing zero characters removed.
pub open spec fn trim_zeros(s: Seq<char>) -> Seq<char>
    decreases s.len(),
{
    if s.len() > 0 && s.last() == '0' {
        trim_zeros(s.drop_last())
    } else {
        s
    }
}

/// The decimal rendering of a quantity stored as `v` units of `10^-d`:
/// the whole part without leading zeros, then, only when the fractional
/// part is not zero, a point and the fraction's `d` digits with trailing
/// zeros trimmed; a minus sign in front of a negative quantity.
pub open spec fn scaled_text(v: int, d: nat) -> Seq<char> {
    if v < 0 {
        seq!['-'] + scaled_magnitude_text((-v) as nat, d)
    } else {
        scaled_magnitude_text(v as nat, d)
    }
}

/// The decimal rendering of a nonnegative quantity of `u` units of `10^-d`.
pub open spec fn scaled_magnitude_text(u: nat, d: nat) -> Seq<char> {
    if u % pow10(d) == 0 {
        decimal_digits(u / pow10(d))
    } else {
        decimal_digits(u / pow10(d)) + seq!['.'] + trim_zeros(fixed_digits(u % pow10(d), d))
    }
}

/// A `Kcal` value rendered as decimal kilocalories, exact to the micro-kcal.
pub open spec fn kcal_text(v: int) -> Seq<char> {
    scaled_text(v, 6)
}

/// An intake range rendered as `{min}-{max} kcal`.
pub open spec fn intake_text(i: IntakeModel) -> Seq<char> {
    kcal_text(i.min) + "-"@ + kcal_text(i.max) + " kcal"@
}

/// A split-calorie quantity rendered as decimal kilocalories; split fields
/// are ten times finer than `Kcal`, so the fraction has seven digits.
pub open spec fn split_kcal_text(v: int) -> Seq<char> {
    scaled_text(v, 7)
}

/// A macro split rendered as `carbs: {}, protein: {}, fat: {}`, each budget
/// in decimal kilocalories.
pub open spec fn macro_split_text(m: SplitModel) -> Seq<char> {
    "carbs: "@ + split_kcal_text(m.carbs) + ", protein: "@ + split_kcal_text(m.protein)
        + ", fat: "@ + split_kcal_text(m.fat)
}

/// The sentence describing a person: name, age, gender, height, weight and
/// activity level, in one fixed wording.
pub open spec fn person_line(p: Person) -> Seq<char> {
    p.name@ + " is a "@ + decimal_digits(p.age as nat) + " years old "@ + gender_text(p.gender)
        + ", "@ + decimal_digits(p.height as nat) + " cms tall that weighs "@ + decimal_digits(
        p.weight as nat,
    ) + "kg with an activity level of "@ + activity_text(p.activity)
}

/// The single-character string for a decimal digit.
fn digit_str(d: u8) -> (r: &'static str)
    requires
        d < 10,
    ensures
        r@ =~= seq![digit_char(d as nat)],
{
    proof {
        reveal_strlit("0");
        reveal_strlit("1");
        reveal_strlit("2");
        reveal_strlit("3");
        reveal_strlit("4");
        reveal_strlit("5");
        reveal_strlit("6");
        reveal_strlit("7");
        reveal_strlit("8");
        reveal_strlit("9");
    }
    if d == 0 {
        "0"
    } else if d == 1 {
        "1"
    } else if d == 2 {
        "2"
    } else if d == 3 {
        "3"
    } else if d == 4 {
        "4"
    } else if d == 5 {
        "5"
    } else if d == 6 {
        "6"
    } else if d == 7 {
        "7"
    } else if d == 8 {
        "8"
    } else {
        "9"
    }
}

/// The decimal rendering of a byte value, without leading zeros.
pub fn u8_decimal(n: u8) -> (r: String)
    ensures
        r@ == decimal_digits(n as nat),
{
    u64_decimal(n as u64)
}

/// The decimal rendering of a 64-bit value, without leading zeros.
pub fn u64_decimal(n: u64) -> (r: String)
    ensures
        r@ == decimal_digits(n as nat),
    decreases n,
{
    if n < 10 {
        String::from_str(digit_str(n as u8))
    } else {
        let mut s = u64_decimal(n / 10);
        s.append(digit_str((n % 10) as u8));
        proof {
            assert(s@ =~= decimal_digits(n as nat));
        }
        s
    }
}

/// The lowest `k` decimal digits of `f`, zero padded to `k` characters.
fn fixed_decimal(f: u64, k: u8) -> (r: String)
    ensures
        r@ == fixed_digits(f as nat, k as nat),
    decreases k,
{
    if k == 0 {
        String::new()
    } else {
        let mut s = fixed_decimal(f / 10, k - 1);
        s.append(digit_str((f % 10) as u8));
        proof {
            assert(s@ =~= fixed_digits(f as nat, k as nat));
        }
        s
    }
}

/// Ten to the power `k` as a machine word.
fn pow10_u64(k: u8) -> (r: u64)
    requires
        k <= 7,
    ensures
        r as nat == pow10(k as nat),
        r >= 1,
{
    proof {
        reveal_with_fuel(pow10, 9);
    }
    match k {
        0 => 1,
        1 => 10,
        2 => 100,
        3 => 1_000,
        4 => 10_000,
        5 => 100_000,
        6 => 1_000_000,
        _ => 10_000_000,
    }
}

/// Removing one trailing zero digit: when the lowest digit of `f` is zero,
/// trimming the `k`-digit rendering of `f` trims the `k - 1`-digit
/// rendering of `f / 10` to the same sequence.
proof fn lemma_trim_step(f: nat, k: nat)
    requires
        k >= 1,
        f % 10 == 0,
    ensures
        trim_zeros(fixed_digits(f, k)) == trim_zeros(fixed_digits(f / 10, (k - 1) as nat)),
{
    let s = fixed_digits(f, k);
    assert(s == fixed_digits(f / 10, (k - 1) as nat).push(digit_char(f % 10)));
    assert(digit_char(f % 10) == '0');
    assert(s.len() > 0);
    assert(s.last() == '0');
    assert(s.drop_last() =~= fixed_digits(f / 10, (k - 1) as nat));
}

/// A rendering whose lowest digit is not zero has nothing to trim.
proof fn lemma_trim_stop(f: nat, k: nat)
    requires
        f % 10 != 0,
    ensures
        trim_zeros(fixed_digits(f, k)) == fixed_digits(f, k),
{
    let s = fixed_digits(f, k);
    if k == 0 {
        assert(s.len() == 0);
    } else {
        assert(s.last() == digit_char(f % 10));
        assert(f % 10 < 10);
        assert(digit_char(f % 10) != '0');
    }
}

/// Dividing out one digit stays under one smaller power of ten.
proof fn lemma_div10_bound(f: nat, k: nat)
    requires
        k >= 1,
        f < pow10(k),
    ensures
        f / 10 < pow10((k - 1) as nat),
{
    assert(pow10(k) == 10 * pow10((k - 1) as nat));
    assert(10 * (f / 10) <= f);
}

/// The decimal rendering of a quantity stored as `v` units of `10^-d`,
/// exactly as `scaled_text` states it. The lower bound on `v` only keeps
/// its negation inside `i64`.
pub fn scaled_decimal(v: i64, d: u8) -> (r: String)
    requires
        v > i64::MIN,
        d <= 7,
    ensures
        r@ == scaled_text(v as int, d as nat),
{
    let neg = v < 0;
    let mag: u64 = if neg {
        (-v) as u64
    } else {
        v as u64
    };
    let unit = pow10_u64(d);
    let whole = mag / unit;
    let frac = mag % unit;
    let mut s = if neg {
        String::from_str("-")
    } else {
        String::new()
    };
    let ws = u64_decimal(whole);
    s.append(ws.as_str());
    if frac != 0 {
        s.append(".");
        let mut f = frac;
        let mut k = d;
        while f % 10 == 0
            invariant
                0 < f,
                f < pow10(k as nat),
                k <= 7,
                trim_zeros(fixed_digits(frac as nat, d as nat)) == trim_zeros(
                    fixed_digits(f as nat, k as nat),
                ),
            decreases f,
        {
            proof {
                assert(f >= 10);
                if k < 2 {
                    reveal_with_fuel(pow10, 3);
                    assert(pow10(k as nat) <= 10);
                    assert(false);
                }
                lemma_trim_step(f as nat, k as nat);
                lemma_div10_bound(f as nat, k as nat);
            }
            f = f / 10;
            k = k - 1;
        }
        proof {
            lemma_trim_stop(f as nat, k as nat);
        }
        let fs = fixed_decimal(f, k);
        s.append(fs.as_str());
        proof {
            reveal_strlit("-");
            reveal_strlit(".");
            assert(s@ =~= scaled_text(v as int, d as nat));
        }
        s
    } else {
        proof {
            reveal_strlit("-");
            assert(s@ =~= scaled_text(v as int, d as nat));
        }
        s
    }
}

impl Kcal {
    /// This calorie value rendered as decimal kilocalories. The lower bound
    /// only keeps its negation inside `i64`.
    pub fn describe(&self) -> (r: String)
        requires
            self@ > i64::MIN,
        ensures
            r@ == kcal_text(self@),
    {
        scaled_decimal(self.0, 6)
    }
}

impl CaloricIntake {
    /// This range rendered as `{min}-{max} kcal`. The lower bounds only
    /// keep the bounds' negations inside `i64`.
    pub fn describe(&self) -> (r: String)
        requires
            self.min@ > i64::MIN,
            self.max@ > i64::MIN,
        ensures
            r@ == intake_text(self@),
    {
        let mut s = scaled_decimal(self.min.0, 6);
        s.append("-");
        let mx = scaled_decimal(self.max.0, 6);
        s.append(mx.as_str());
        s.append(" kcal");
        proof {
            assert(s@ =~= intake_text(self@));
        }
        s
    }
}

impl MacroSplit {
    /// This split rendered as `carbs: {}, protein: {}, fat: {}`, each budget
    /// in decimal kilocalories. The lower bounds only keep the budgets'
    /// negations inside `i64`.
    pub fn describe(&self) -> (r: String)
        requires
            self.carbs@ > i64::MIN,
            self.protein@ > i64::MIN,
            self.fat@ > i64::MIN,
        ensures
            r@ == macro_split_text(self@),
    {
        let mut s = String::from_str("carbs: ");
        let c = scaled_decimal(self.carbs, 7);
        s.append(c.as_str());
        s.append(", protein: ");
        let p = scaled_decimal(self.protein, 7);
        s.append(p.as_str());
        s.append(", fat: ");
        let f = scaled_decimal(self.fat, 7);
        s.append(f.as_str());
        proof {
            assert(s@ =~= macro_split_text(self@));
        }
        s
    }
}

impl Person {
    /// The sentence describing this person, rendered exactly as
    /// `person_line` states it.
    pub fn describe(&self) -> (r: String)
        ensures
            r@ == person_line(*self),
    {
        let mut s = self.name.clone();
        s.append(" is a ");
        let age = u8_decimal(self.age);
        s.append(age.as_str());
        s.append(" years old ");
        s.append(self.gender.text());
        s.append(", ");
        let height = u8_decimal(self.height);
        s.append(height.as_str());
        s.append(" cms tall that weighs ");
        let weight = u8_decimal(self.weight);
        s.append(weight.as_str());
        s.append("kg with an activity level of ");
        s.append(self.activity.text());
        proof {
            assert(s@ =~= person_line(*self));
        }
        s
    }
}

impl Gender {
    /// The gender's display word.
    pub fn text(&self) -> (r: &'static str)
        ensures
            r@ == gender_text(*self),
    {
        match self {
            Gender::Male => "male",
            Gender::Female => "female",
        }
    }
}

impl Activity {
    /// The activity level's display phrase.
    pub fn text(&self) -> (r: &'static str)
        ensures
            r@ == activity_text(*self),
    {
        match self {
            Activity::Sedentary => "sedentary",
            Activity::LightlyActive => "lightly active",
            Activity::ModeratelyActive => "moderately active",
            Activity::VeryActive => "very active",
            Activity::SuperActive => "super active",
        }
    }
}

impl Goal {
    /// The goal's display phrase.
    pub fn text(&self) -> (r: &'static str)
        ensures
            r@ == goal_text(*self),
    {
        match self {
            Goal::WeightLoss => "losing weight",
            Goal::Maintenance => "maintaining weight",
            Goal::GainWeight => "gaining weight (lean mass)",
        }
    }
}

impl Diet {
    /// The diet style's display phrase.
    pub fn text(&self) -> (r: &'static str)
        ensures
            r@ == diet_text(*self),
    {
        match self {
            Diet::Balanced => "balanced",
            Diet::LowCarb => "low carb",
            Diet::HighCarb => "high carb",
            Diet::Ketogenic => "ketogenic",
        }
    }
}

} // verus!
