//! The daily macro-nutrient split derived from a calorie target.
use vstd::prelude::*;

verus! {

/// Energy density of fat, kcal per gram.
pub const FAT_CALORIES: u32 = 9;

/// Energy density of protein, kcal per gram.
pub const PROTEIN_CALORIES: u32 = 4;

/// Energy density of carbohydrate, kcal per gram.
pub const CARB_CALORIES: u32 = 4;

/// Billionths of a kilocalorie in one kilocalorie.
pub const NKCAL_PER_KCAL: u128 = 1_000_000_000;

/// Grams of body weight that call for one gram of protein (2 g per kg).
pub const GRAMS_PER_PROTEIN_GRAM: u64 = 500;

/// A daily target: whole kilocalories and grams of each macro-nutrient.
#[derive(Clone, Copy, Debug, PartialEq, Eq, Structural)]
pub struct Macros {
    pub calories: u32,
    pub protein: u32,
    pub carbs: u32,
    pub fat: u32,
}

/// Whole kilocalories in a target given in nkcal: truncated, zero for a
/// target below zero, and `u32::MAX` for one beyond it.
pub open spec fn whole_calories(target_nkcal: int) -> int {
    if target_nkcal <= 0 {
        0
    } else if target_nkcal / 1_000_000_000 > u32::MAX {
        u32::MAX as int
    } else {
        target_nkcal / 1_000_000_000
    }
}

/// Protein grams for a body weight: `floor(2 * kg)`, none for a weight
/// that is not above zero, and at most `u32::MAX`.
pub open spec fn spec_protein(weight_milli_kg: int) -> int {
    if weight_milli_kg <= 0 {
        0
    } else if weight_milli_kg / 500 > u32::MAX {
        u32::MAX as int
    } else {
        weight_milli_kg / 500
    }
}

/// Fat grams: a quarter of the calories, truncated, at 9 kcal per gram.
pub open spec fn spec_fat(calories: int) -> int {
    calories / 4 / 9
}

/// Calories left once protein and fat are paid for; negative when they
/// already exceed the target.
pub open spec fn spec_remaining(calories: int, protein: int, fat: int) -> int {
    calories - fat * 9 - protein * 4
}

/// Carbohydrate grams: the remaining calories at 4 kcal per gram, none when
/// protein and fat already exceed the target.
pub open spec fn spec_carbs(calories: int, protein: int, fat: int) -> int {
    let remaining = spec_remaining(calories, protein, fat);
    if remaining < 0 {
        0
    } else {
        remaining / 4
    }
}

/// The split for a target in nkcal and a body weight in thousandths of a kilogram.
pub open spec fn spec_macros(target_nkcal: int, weight_milli_kg: int) -> Macros {
    let calories = whole_calories(target_nkcal);
    let protein = spec_protein(weight_milli_kg);
    let fat = spec_fat(calories);
    Macros {
        calories: calories as u32,
        protein: protein as u32,
        carbs: spec_carbs(calories, protein, fat) as u32,
        fat: fat as u32,
    }
}

impl Default for Macros {
    /// All zero.
    fn default() -> (r: Self)
        ensures
            r == (Macros { calories: 0, protein: 0, carbs: 0, fat: 0 }),
    {
        Macros { calories: 0, protein: 0, carbs: 0, fat: 0 }
    }
}

impl Macros {
    /// Fills in the split for a target of `target_calories` nkcal and a body
    /// weight of `weight_milli_kg` thousandths of a kilogram (grams), in this order: whole calories, 2 g protein
    /// per kg, a quarter of the calories as fat, the rest as carbohydrate.
    /// When protein and fat alone exceed the calories, carbohydrate is zero.
    pub fn calculate_macros(&mut self, target_calories: i128, weight_milli_kg: i64)
        ensures
            *final(self) == spec_macros(target_calories as int, weight_milli_kg as int),
    {
        self.calories = if target_calories <= 0 {
            0
        } else {
            let whole: u128 = target_calories as u128 / NKCAL_PER_KCAL;
            if whole > u32::MAX as u128 {
                u32::MAX
            } else {
                whole as u32
            }
        };

        self.protein = if weight_milli_kg <= 0 {
            0
        } else {
            let grams: u64 = weight_milli_kg as u64 / GRAMS_PER_PROTEIN_GRAM;
            if grams > u32::MAX as u64 {
                u32::MAX
            } else {
                grams as u32
            }
        };

        self.fat = self.calories / 4 / FAT_CALORIES;

        proof {
            assert(self.fat as u64 * 9 <= u32::MAX as u64 * 9) by (nonlinear_arith)
                requires
                    self.fat <= u32::MAX,
            ;
            assert(self.protein as u64 * 4 <= u32::MAX as u64 * 4) by (nonlinear_arith)
                requires
                    self.protein <= u32::MAX,
            ;
        }
        let spent: u64 = self.fat as u64 * FAT_CALORIES as u64 + self.protein as u64
            * PROTEIN_CALORIES as u64;
        self.carbs = if spent > self.calories as u64 {
            0
        } else {
            ((self.calories as u64 - spent) / CARB_CALORIES as u64) as u32
        };
    }
}

/// The split depends on the target and the weight alone: computing it twice
/// from the same inputs, whatever the starting values, gives the same result.
pub proof fn lemma_macros_deterministic(
    target_nkcal: int,
    weight_milli_kg: int,
    other_target_nkcal: int,
    other_weight_milli_kg: int,
)
    requires
        target_nkcal == other_target_nkcal,
        weight_milli_kg == other_weight_milli_kg,
    ensures
        spec_macros(target_nkcal, weight_milli_kg) == spec_macros(other_target_nkcal, other_weight_milli_kg),
{
}

/// Where protein and fat fit within the calories, the split never exceeds
/// the calories, and falls short of them by less than one carbohydrate gram.
pub proof fn lemma_macros_within_budget(target_nkcal: int, weight_milli_kg: int)
    requires
        i64::MIN <= weight_milli_kg <= i64::MAX,
        spec_remaining(
            whole_calories(target_nkcal),
            spec_protein(weight_milli_kg),
            spec_fat(whole_calories(target_nkcal)),
        ) >= 0,
    ensures
        ({
            let m = spec_macros(target_nkcal, weight_milli_kg);
            &&& m.protein * 4 + m.fat * 9 + m.carbs * 4 <= m.calories
            &&& m.calories - (m.protein * 4 + m.fat * 9 + m.carbs * 4) < 4
        }),
{
}

/// A target below one kilocalorie gives no calories, no fat and no
/// carbohydrate; protein still follows the weight.
pub proof fn lemma_macros_zero_target(target_nkcal: int, weight_milli_kg: int)
    requires
        target_nkcal < 1_000_000_000,
        i64::MIN <= weight_milli_kg <= i64::MAX,
    ensures
        spec_macros(target_nkcal, weight_milli_kg) == (Macros {
            calories: 0,
            protein: spec_protein(weight_milli_kg) as u32,
            carbs: 0,
            fat: 0,
        }),
{
}

} // verus!
