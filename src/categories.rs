//! The closed category sets that parameterise the formulas.
use vstd::prelude::*;

verus! {

/// The measurement system a user enters their metrics in.
#[derive(Clone, Copy, Debug, PartialEq, Eq, Structural)]
pub enum MeasureSystem {
    Imperial,
    Metric,
}

impl Default for MeasureSystem {
    /// Imperial unless chosen otherwise.
    fn default() -> (r: Self)
        ensures
            r == MeasureSystem::Imperial,
    {
        MeasureSystem::Imperial
    }
}

impl MeasureSystem {
    /// Menu choice: `2` selects Metric, anything else Imperial.
    pub fn from_choice(choice: u8) -> (r: MeasureSystem)
        ensures
            r == (if choice == 2 { MeasureSystem::Metric } else { MeasureSystem::Imperial }),
    {
        if choice == 2 {
            MeasureSystem::Metric
        } else {
            MeasureSystem::Imperial
        }
    }
}

/// Sex assigned at birth; selects the variant of the BMR formula.
#[derive(Clone, Copy, Debug, PartialEq, Eq, Structural)]
pub enum SexAtBirth {
    Male,
    Female,
}

impl Default for SexAtBirth {
    /// Male unless chosen otherwise.
    fn default() -> (r: Self)
        ensures
            r == SexAtBirth::Male,
    {
        SexAtBirth::Male
    }
}

impl SexAtBirth {
    /// Menu choice: `1` selects Male, anything else Female.
    pub fn from_choice(choice: u8) -> (r: SexAtBirth)
        ensures
            r == (if choice == 1 { SexAtBirth::Male } else { SexAtBirth::Female }),
    {
        if choice == 1 {
            SexAtBirth::Male
        } else {
            SexAtBirth::Female
        }
    }
}

/// How active a person is during a typical day.
#[derive(Clone, Copy, Debug, PartialEq, Eq, Structural)]
pub enum ActivityLevel {
    Sedentary,
    LightlyActive,
    Active,
    VeryActive,
    SuperActive,
}

impl Default for ActivityLevel {
    /// Active unless chosen otherwise.
    fn default() -> (r: Self)
        ensures
            r == ActivityLevel::Active,
    {
        ActivityLevel::Active
    }
}

impl ActivityLevel {
    /// The factor that scales BMR into TDEE, in thousandths.
    pub open spec fn spec_multiplier(self) -> int {
        match self {
            ActivityLevel::Sedentary => 1_200,
            ActivityLevel::LightlyActive => 1_375,
            ActivityLevel::Active => 1_550,
            ActivityLevel::VeryActive => 1_725,
            ActivityLevel::SuperActive => 1_900,
        }
    }

    /// The factor that scales BMR into TDEE, in thousandths (1.2 is 1200).
    pub fn multiplier(&self) -> (r: u32)
        ensures
            r == self.spec_multiplier(),
            1_200 <= r <= 1_900,
    {
        match self {
            ActivityLevel::Sedentary => 1_200,
            ActivityLevel::LightlyActive => 1_375,
            ActivityLevel::Active => 1_550,
            ActivityLevel::VeryActive => 1_725,
            ActivityLevel::SuperActive => 1_900,
        }
    }

    /// Menu choice: `1` to `5` from Sedentary up to SuperActive; anything
    /// else is Active.
    pub fn from_choice(choice: u8) -> (r: ActivityLevel)
        ensures
            r == (match choice {
                1 => ActivityLevel::Sedentary,
                2 => ActivityLevel::LightlyActive,
                4 => ActivityLevel::VeryActive,
                5 => ActivityLevel::SuperActive,
                _ => ActivityLevel::Active,
            }),
    {
        match choice {
            1 => ActivityLevel::Sedentary,
            2 => ActivityLevel::LightlyActive,
            3 => ActivityLevel::Active,
            4 => ActivityLevel::VeryActive,
            5 => ActivityLevel::SuperActive,
            _ => ActivityLevel::Active,
        }
    }
}

} // verus!
