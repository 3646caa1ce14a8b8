//! Air-quality index bands: the category, label and display colour of an
//! index, and the pollutant concentrations estimated from it.

use vstd::prelude::*;
use crate::model::{AirQualityData, AirQualityDataView};
use crate::units::Decimal;

verus! {

/// The six severity bands of the air-quality index, mildest first.
#[derive(Clone, Copy, Debug, PartialEq, Eq, Structural)]
pub enum AqiCategory {
    Good,
    Moderate,
    UnhealthyForSensitiveGroups,
    Unhealthy,
    VeryUnhealthy,
    Hazardous,
}

/// The band an index falls into. Every integer has one: anything up to 50,
/// negative values included, is `Good`, and anything above 300 is `Hazardous`.
pub open spec fn category_of(aqi: int) -> AqiCategory {
    if aqi <= 50 {
        AqiCategory::Good
    } else if aqi <= 100 {
        AqiCategory::Moderate
    } else if aqi <= 150 {
        AqiCategory::UnhealthyForSensitiveGroups
    } else if aqi <= 200 {
        AqiCategory::Unhealthy
    } else if aqi <= 300 {
        AqiCategory::VeryUnhealthy
    } else {
        AqiCategory::Hazardous
    }
}

impl AqiCategory {
    /// Position of the band on the severity scale, 0 for `Good` up to 5 for `Hazardous`.
    pub open spec fn severity(self) -> nat {
        match self {
            AqiCategory::Good => 0,
            AqiCategory::Moderate => 1,
            AqiCategory::UnhealthyForSensitiveGroups => 2,
            AqiCategory::Unhealthy => 3,
            AqiCategory::VeryUnhealthy => 4,
            AqiCategory::Hazardous => 5,
        }
    }

    /// The label shown for the band.
    pub open spec fn label(self) -> Seq<char> {
        match self {
            AqiCategory::Good => "Good"@,
            AqiCategory::Moderate => "Moderate"@,
            AqiCategory::UnhealthyForSensitiveGroups => "Unhealthy for Sensitive Groups"@,
            AqiCategory::Unhealthy => "Unhealthy"@,
            AqiCategory::VeryUnhealthy => "Very Unhealthy"@,
            AqiCategory::Hazardous => "Hazardous"@,
        }
    }

    /// The display colour of the band, as a `#RRGGBB` string.
    pub open spec fn color(self) -> Seq<char> {
        match self {
            AqiCategory::Good => "#00E400"@,
            AqiCategory::Moderate => "#FFFF00"@,
            AqiCategory::UnhealthyForSensitiveGroups => "#FF7E00"@,
            AqiCategory::Unhealthy => "#FF0000"@,
            AqiCategory::VeryUnhealthy => "#8F3F97"@,
            AqiCategory::Hazardous => "#7E0023"@,
        }
    }

    /// Classifies an index.
    pub fn from_aqi(aqi: i32) -> (category: AqiCategory)
        ensures
            category == category_of(aqi as int),
    {
        if aqi <= 50 {
            AqiCategory::Good
        } else if aqi <= 100 {
            AqiCategory::Moderate
        } else if aqi <= 150 {
            AqiCategory::UnhealthyForSensitiveGroups
        } else if aqi <= 200 {
            AqiCategory::Unhealthy
        } else if aqi <= 300 {
            AqiCategory::VeryUnhealthy
        } else {
            AqiCategory::Hazardous
        }
    }

    /// The band's position on the severity scale.
    pub fn rank(self) -> (rank: u8)
        ensures
            rank == self.severity(),
    {
        match self {
            AqiCategory::Good => 0,
            AqiCategory::Moderate => 1,
            AqiCategory::UnhealthyForSensitiveGroups => 2,
            AqiCategory::Unhealthy => 3,
            AqiCategory::VeryUnhealthy => 4,
            AqiCategory::Hazardous => 5,
        }
    }

    /// The band's label as an owned string.
    pub fn name(self) -> (name: String)
        ensures
            name@ == self.label(),
    {
        match self {
            AqiCategory::Good => "Good".to_string(),
            AqiCategory::Moderate => "Moderate".to_string(),
            AqiCategory::UnhealthyForSensitiveGroups => "Unhealthy for Sensitive Groups".to_string(),
            AqiCategory::Unhealthy => "Unhealthy".to_string(),
            AqiCategory::VeryUnhealthy => "Very Unhealthy".to_string(),
            AqiCategory::Hazardous => "Hazardous".to_string(),
        }
    }

    /// The band's display colour as an owned string.
    pub fn hex_color(self) -> (color: String)
        ensures
            color@ == self.color(),
    {
        match self {
            AqiCategory::Good => "#00E400".to_string(),
            AqiCategory::Moderate => "#FFFF00".to_string(),
            AqiCategory::UnhealthyForSensitiveGroups => "#FF7E00".to_string(),
            AqiCategory::Unhealthy => "#FF0000".to_string(),
            AqiCategory::VeryUnhealthy => "#8F3F97".to_string(),
            AqiCategory::Hazardous => "#7E0023".to_string(),
        }
    }
}

/// Label and display colour for an index, in that order.
pub fn get_aqi_category(aqi: i32) -> (pair: (String, String))
    ensures
        pair.0@ == category_of(aqi as int).label(),
        pair.1@ == category_of(aqi as int).color(),
{
    let category = AqiCategory::from_aqi(aqi);
    (category.name(), category.hex_color())
}

/// A higher index never falls into a milder band.
pub proof fn lemma_category_monotonic(lower: int, higher: int)
    requires
        lower <= higher,
    ensures
        category_of(lower).severity() <= category_of(higher).severity(),
{
}

/// The PM2.5 concentration estimated for an index, in hundredths of a
/// microgram per cubic metre. Each band has its own line; the lines meet at
/// the band limits.
pub open spec fn pm25_hundredths(aqi: int) -> int {
    match category_of(aqi) {
        AqiCategory::Good => 1200 + 76 * aqi,
        AqiCategory::Moderate => 5000 + 50 * (aqi - 50),
        AqiCategory::UnhealthyForSensitiveGroups => 7500 + 50 * (aqi - 100),
        AqiCategory::Unhealthy => 10000 + 40 * (aqi - 150),
        AqiCategory::VeryUnhealthy => 12000 + 80 * (aqi - 200),
        AqiCategory::Hazardous => 20000 + 50 * (aqi - 300),
    }
}

/// The six concentrations estimated for an index, as [`Decimal`]s in the
/// order PM2.5, PM10, O3, NO2, SO2, CO. The others are fixed multiples of
/// PM2.5: 1.5, 0.05, 0.02, 0.01 and 0.1.
pub open spec fn estimate_of(aqi: int) -> (int, int, int, int, int, int) {
    let base = pm25_hundredths(aqi);
    (100 * base, 150 * base, 5 * base, 2 * base, base, 10 * base)
}

/// Estimates the six pollutant concentrations from an index.
pub fn estimate_pollutants_from_aqi(aqi: i32) -> (estimate: (
    Decimal,
    Decimal,
    Decimal,
    Decimal,
    Decimal,
    Decimal,
))
    ensures
        estimate.0 == estimate_of(aqi as int).0,
        estimate.1 == estimate_of(aqi as int).1,
        estimate.2 == estimate_of(aqi as int).2,
        estimate.3 == estimate_of(aqi as int).3,
        estimate.4 == estimate_of(aqi as int).4,
        estimate.5 == estimate_of(aqi as int).5,
{
    let index: i64 = aqi as i64;
    let base: i64 = match AqiCategory::from_aqi(aqi) {
        AqiCategory::Good => 1200 + 76 * index,
        AqiCategory::Moderate => 5000 + 50 * (index - 50),
        AqiCategory::UnhealthyForSensitiveGroups => 7500 + 50 * (index - 100),
        AqiCategory::Unhealthy => 10000 + 40 * (index - 150),
        AqiCategory::VeryUnhealthy => 12000 + 80 * (index - 200),
        AqiCategory::Hazardous => 20000 + 50 * (index - 300),
    };
    (100 * base, 150 * base, 5 * base, 2 * base, base, 10 * base)
}

/// A higher index never lowers the estimate of any pollutant.
pub proof fn lemma_estimate_monotonic(lower: int, higher: int)
    requires
        lower <= higher,
    ensures
        estimate_of(lower).0 <= estimate_of(higher).0,
        estimate_of(lower).1 <= estimate_of(higher).1,
        estimate_of(lower).2 <= estimate_of(higher).2,
        estimate_of(lower).3 <= estimate_of(higher).3,
        estimate_of(lower).4 <= estimate_of(higher).4,
        estimate_of(lower).5 <= estimate_of(higher).5,
{
}

/// The reading shown for an index: its category and colour, and the
/// concentrations estimated from it.
pub open spec fn reading_of(aqi: int) -> AirQualityDataView {
    AirQualityDataView {
        aqi,
        category: category_of(aqi).label(),
        color: category_of(aqi).color(),
        pm25: estimate_of(aqi).0,
        pm10: estimate_of(aqi).1,
        o3: estimate_of(aqi).2,
        no2: estimate_of(aqi).3,
        so2: estimate_of(aqi).4,
        co: estimate_of(aqi).5,
    }
}

/// Builds the reading for an index.
pub fn reading_for(aqi: i32) -> (reading: AirQualityData)
    ensures
        reading@ == reading_of(aqi as int),
{
    let (category, color) = get_aqi_category(aqi);
    let (pm25, pm10, o3, no2, so2, co) = estimate_pollutants_from_aqi(aqi);
    AirQualityData { aqi, category, color, pm25, pm10, o3, no2, so2, co }
}

} // verus!
