//! Nutrition calculator core: unit conversion, energy expenditure and the
//! macro-nutrient split, all on exact fixed-point integers.
//!
//! Units used throughout:
//! - mass in thousandths of a kilogram (grams), height in thousandths of a
//!   centimetre, age in whole years;
//! - a basal metabolic rate in millionths of a kilocalorie (µkcal);
//! - a daily energy expenditure in billionths of a kilocalorie (nkcal).
pub mod units;
pub mod categories;
pub mod person;
pub mod macros;
pub mod fields;
pub mod form;
