//! The fixed-point representation of measured quantities.

use vstd::prelude::*;

verus! {

/// A decimal quantity with four fractional digits, held as a whole number of
/// ten-thousandths: 22.5 is `225_000`. Temperatures (°C), wind speeds,
/// precipitation amounts, cloud cover (%) and pollutant concentrations all use it.
pub type Decimal = i64;

/// How many units of a [`Decimal`] make one.
pub const DECIMAL_SCALE: i64 = 10_000;

} // verus!
