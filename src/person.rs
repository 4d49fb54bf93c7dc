//! A person's profile and the energy formulas computed from it.
use vstd::prelude::*;
use crate::categories::{ActivityLevel, MeasureSystem, SexAtBirth};
use crate::units::{inches_to_cm, lbs_to_kg, spec_inches_to_cm, spec_lbs_to_kg};

verus! {

/// Largest magnitude of a BMR (µkcal) that `Person::get_tdee` can scale
/// without leaving the range of `i128`: `i128::MAX / 1900`.
pub const MAX_TDEE_BMR: i128 = 89_547_991_294_983_806_174_572_265_113_623_213;

/// A person's profile, in metric units: weight in thousandths of a
/// kilogram, height in thousandths of a centimetre.
pub struct Person {
    pub name: String,
    pub weight_milli_kg: i64,
    pub height_milli_cm: i64,
    pub age: u8,
    pub activity_lvl: ActivityLevel,
    pub sex_assigned_at_birth: SexAtBirth,
}

/// Revised Harris-Benedict BMR for men, in µkcal:
/// 88.362 + 13.397 * kg + 4.799 * cm - 5.677 * years.
pub open spec fn bmr_men(weight_milli_kg: int, height_milli_cm: int, age: int) -> int {
    88_362_000 + 13_397 * weight_milli_kg + 4_799 * height_milli_cm - 5_677_000 * age
}

/// Revised Harris-Benedict BMR for women, in µkcal:
/// 447.593 + 9.247 * kg + 3.098 * cm - 4.330 * years.
pub open spec fn bmr_women(weight_milli_kg: int, height_milli_cm: int, age: int) -> int {
    447_593_000 + 9_247 * weight_milli_kg + 3_098 * height_milli_cm - 4_330_000 * age
}

/// BMR in µkcal for the formula that `sex` selects.
pub open spec fn spec_bmr(sex: SexAtBirth, weight_milli_kg: int, height_milli_cm: int, age: int) -> int {
    match sex {
        SexAtBirth::Male => bmr_men(weight_milli_kg, height_milli_cm, age),
        SexAtBirth::Female => bmr_women(weight_milli_kg, height_milli_cm, age),
    }
}

/// TDEE in nkcal: a BMR in µkcal times the activity factor in thousandths.
pub open spec fn spec_tdee(bmr: int, level: ActivityLevel) -> int {
    bmr * level.spec_multiplier()
}

/// Thousandths of a kilogram in a weight given in thousandths of the
/// system's unit (lb or kg).
pub open spec fn spec_weight_milli_kg(system: MeasureSystem, milli_weight: int) -> int {
    match system {
        MeasureSystem::Imperial => spec_lbs_to_kg(milli_weight),
        MeasureSystem::Metric => milli_weight,
    }
}

/// Thousandths of a centimetre in a height given in thousandths of the
/// system's unit (in or cm).
pub open spec fn spec_height_milli_cm(system: MeasureSystem, milli_height: int) -> int {
    match system {
        MeasureSystem::Imperial => spec_inches_to_cm(milli_height),
        MeasureSystem::Metric => milli_height,
    }
}

impl Default for Person {
    /// An unnamed profile with zero metrics and the default categories.
    fn default() -> (r: Self)
        ensures
            r.name@.len() == 0,
            r.weight_milli_kg == 0,
            r.height_milli_cm == 0,
            r.age == 0,
            r.activity_lvl == ActivityLevel::Active,
            r.sex_assigned_at_birth == SexAtBirth::Male,
    {
        Person {
            name: String::new(),
            weight_milli_kg: 0,
            height_milli_cm: 0,
            age: 0,
            activity_lvl: ActivityLevel::default(),
            sex_assigned_at_birth: SexAtBirth::default(),
        }
    }
}

impl Person {
    /// A profile from metrics entered in `system`, each in thousandths of
    /// that system's unit (pounds and inches, or kilograms and centimetres),
    /// stored in metric units.
    pub fn from_metrics(
        system: MeasureSystem,
        name: String,
        milli_weight: i64,
        milli_height: i64,
        age: u8,
        activity_lvl: ActivityLevel,
        sex_assigned_at_birth: SexAtBirth,
    ) -> (r: Person)
        ensures
            r.name@ == name@,
            r.weight_milli_kg == spec_weight_milli_kg(system, milli_weight as int),
            r.height_milli_cm == spec_height_milli_cm(system, milli_height as int),
            r.age == age,
            r.activity_lvl == activity_lvl,
            r.sex_assigned_at_birth == sex_assigned_at_birth,
    {
        let (weight_milli_kg, height_milli_cm) = match system {
            MeasureSystem::Imperial => (lbs_to_kg(milli_weight), inches_to_cm(milli_height)),
            MeasureSystem::Metric => (milli_weight, milli_height),
        };
        Person { name, weight_milli_kg, height_milli_cm, age, activity_lvl, sex_assigned_at_birth }
    }

    /// The profile of the graphical form: weight in thousandths of a pound,
    /// height in thousandths of an inch, with the default activity level and
    /// sex (Active, Male).
    pub fn from_form(name: String, milli_pounds: i64, milli_inches: i64, age: u8) -> (r: Person)
        ensures
            r.name@ == name@,
            r.weight_milli_kg == spec_lbs_to_kg(milli_pounds as int),
            r.height_milli_cm == spec_inches_to_cm(milli_inches as int),
            r.age == age,
            r.activity_lvl == ActivityLevel::Active,
            r.sex_assigned_at_birth == SexAtBirth::Male,
    {
        Person::from_metrics(
            MeasureSystem::Imperial,
            name,
            milli_pounds,
            milli_inches,
            age,
            ActivityLevel::default(),
            SexAtBirth::default(),
        )
    }

    /// BMR of this profile, in µkcal.
    pub open spec fn spec_get_bmr(&self) -> int {
        spec_bmr(self.sex_assigned_at_birth, self.weight_milli_kg as int, self.height_milli_cm as int, self.age as int)
    }

    /// Basal metabolic rate in µkcal, by the formula for the profile's sex.
    /// A light, short or old profile may give a negative value.
    pub fn get_bmr(&self) -> (r: i128)
        ensures
            r == self.spec_get_bmr(),
            -MAX_TDEE_BMR <= r <= MAX_TDEE_BMR,
    {
        match self.sex_assigned_at_birth {
            SexAtBirth::Male => self.get_bmr_men(),
            SexAtBirth::Female => self.get_bmr_women(),
        }
    }

    fn get_bmr_men(&self) -> (r: i128)
        ensures
            r == bmr_men(self.weight_milli_kg as int, self.height_milli_cm as int, self.age as int),
            -MAX_TDEE_BMR <= r <= MAX_TDEE_BMR,
    {
        let w: i128 = self.weight_milli_kg as i128;
        let h: i128 = self.height_milli_cm as i128;
        let a: i128 = self.age as i128;
        88_362_000 + 13_397 * w + 4_799 * h - 5_677_000 * a
    }

    fn get_bmr_women(&self) -> (r: i128)
        ensures
            r == bmr_women(self.weight_milli_kg as int, self.height_milli_cm as int, self.age as int),
            -MAX_TDEE_BMR <= r <= MAX_TDEE_BMR,
    {
        let w: i128 = self.weight_milli_kg as i128;
        let h: i128 = self.height_milli_cm as i128;
        let a: i128 = self.age as i128;
        447_593_000 + 9_247 * w + 3_098 * h - 4_330_000 * a
    }

    /// Total daily energy expenditure in nkcal: `bmr` (µkcal) scaled by the
    /// profile's activity factor.
    pub fn get_tdee(&self, bmr: i128) -> (r: i128)
        requires
            -MAX_TDEE_BMR <= bmr <= MAX_TDEE_BMR,
        ensures
            r == spec_tdee(bmr as int, self.activity_lvl),
    {
        let factor: i128 = self.activity_lvl.multiplier() as i128;
        proof {
            assert(-MAX_TDEE_BMR * 1_900 <= bmr * factor <= MAX_TDEE_BMR * 1_900) by (nonlinear_arith)
                requires
                    -MAX_TDEE_BMR <= bmr <= MAX_TDEE_BMR,
                    1_200 <= factor <= 1_900,
            ;
        }
        bmr * factor
    }
}

} // verus!
