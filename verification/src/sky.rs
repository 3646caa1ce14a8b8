//! Inference of a weather description from precipitation and cloud cover.

use vstd::prelude::*;
use crate::units::Decimal;

verus! {

/// Mean cloud cover above which the sky is overcast: 80 %.
pub const OVERCAST_ABOVE: Decimal = 800_000;

/// Mean cloud cover above which the sky is partly cloudy: 50 %.
pub const PARTLY_CLOUDY_ABOVE: Decimal = 500_000;

/// Mean cloud cover above which the sky is mostly clear: 20 %.
pub const MOSTLY_CLEAR_ABOVE: Decimal = 200_000;

/// The descriptions that can be inferred, in the order in which they are tried.
#[derive(Clone, Copy, Debug, PartialEq, Eq, Structural)]
pub enum Sky {
    Snow,
    Rain,
    Overcast,
    PartlyCloudy,
    MostlyClear,
    Clear,
}

/// The description for a period of `samples` readings with the given
/// precipitation totals and the given sum of cloud-cover readings, all in
/// [`Decimal`] units.
///
/// Any snowfall gives `Snow`; otherwise any rain or showers give `Rain`;
/// otherwise the mean cloud cover decides: above 80 % `Overcast`, above 50 %
/// `PartlyCloudy`, above 20 % `MostlyClear`, else `Clear`. The mean is compared
/// exactly, as `cloud_cover_sum > threshold * samples`.
pub open spec fn sky_of(
    snowfall: int,
    rain: int,
    showers: int,
    cloud_cover_sum: int,
    samples: int,
) -> Sky {
    if snowfall > 0 {
        Sky::Snow
    } else if rain > 0 || showers > 0 {
        Sky::Rain
    } else if cloud_cover_sum > OVERCAST_ABOVE * samples {
        Sky::Overcast
    } else if cloud_cover_sum > PARTLY_CLOUDY_ABOVE * samples {
        Sky::PartlyCloudy
    } else if cloud_cover_sum > MOSTLY_CLEAR_ABOVE * samples {
        Sky::MostlyClear
    } else {
        Sky::Clear
    }
}

impl Sky {
    /// The description shown to the user.
    pub open spec fn label(self) -> Seq<char> {
        match self {
            Sky::Snow => "Snow"@,
            Sky::Rain => "Rain"@,
            Sky::Overcast => "Overcast"@,
            Sky::PartlyCloudy => "Partly Cloudy"@,
            Sky::MostlyClear => "Mostly Clear"@,
            Sky::Clear => "Clear"@,
        }
    }

    /// The icon glyph that goes with the description.
    pub open spec fn icon(self) -> Seq<char> {
        match self {
            Sky::Snow => "❄️"@,
            Sky::Rain => "🌧️"@,
            Sky::Overcast => "☁️"@,
            Sky::PartlyCloudy => "⛅"@,
            Sky::MostlyClear => "🌤️"@,
            Sky::Clear => "☀️"@,
        }
    }

    /// The description as an owned string.
    pub fn name(self) -> (name: String)
        ensures
            name@ == self.label(),
    {
        match self {
            Sky::Snow => "Snow".to_string(),
            Sky::Rain => "Rain".to_string(),
            Sky::Overcast => "Overcast".to_string(),
            Sky::PartlyCloudy => "Partly Cloudy".to_string(),
            Sky::MostlyClear => "Mostly Clear".to_string(),
            Sky::Clear => "Clear".to_string(),
        }
    }

    /// The icon glyph as an owned string.
    pub fn glyph(self) -> (glyph: String)
        ensures
            glyph@ == self.icon(),
    {
        match self {
            Sky::Snow => "❄️".to_string(),
            Sky::Rain => "🌧️".to_string(),
            Sky::Overcast => "☁️".to_string(),
            Sky::PartlyCloudy => "⛅".to_string(),
            Sky::MostlyClear => "🌤️".to_string(),
            Sky::Clear => "☀️".to_string(),
        }
    }
}

/// Classifies a period from its totals. `samples` is the number of readings
/// that `cloud_cover_sum` adds up.
pub fn classify_totals(
    snowfall: i128,
    rain: i128,
    showers: i128,
    cloud_cover_sum: i128,
    samples: usize,
) -> (sky: Sky)
    ensures
        sky == sky_of(
            snowfall as int,
            rain as int,
            showers as int,
            cloud_cover_sum as int,
            samples as int,
        ),
{
    let count: i128 = samples as i128;
    if snowfall > 0 {
        Sky::Snow
    } else if rain > 0 || showers > 0 {
        Sky::Rain
    } else if cloud_cover_sum > (OVERCAST_ABOVE as i128) * count {
        Sky::Overcast
    } else if cloud_cover_sum > (PARTLY_CLOUDY_ABOVE as i128) * count {
        Sky::PartlyCloudy
    } else if cloud_cover_sum > (MOSTLY_CLEAR_ABOVE as i128) * count {
        Sky::MostlyClear
    } else {
        Sky::Clear
    }
}

/// Classifies a single reading.
pub fn classify_sample(
    snowfall: Decimal,
    rain: Decimal,
    showers: Decimal,
    cloud_cover: Decimal,
) -> (sky: Sky)
    ensures
        sky == sky_of(snowfall as int, rain as int, showers as int, cloud_cover as int, 1),
{
    classify_totals(snowfall as i128, rain as i128, showers as i128, cloud_cover as i128, 1)
}

/// Snowfall outranks everything else: whatever the rain, showers and cloud cover.
pub proof fn lemma_snow_first(
    snowfall: int,
    rain: int,
    showers: int,
    cloud_cover_sum: int,
    samples: int,
)
    requires
        snowfall > 0,
    ensures
        sky_of(snowfall, rain, showers, cloud_cover_sum, samples) == Sky::Snow,
{
}

/// Without snowfall, rain or showers outrank cloud cover.
pub proof fn lemma_rain_before_clouds(
    snowfall: int,
    rain: int,
    showers: int,
    cloud_cover_sum: int,
    samples: int,
)
    requires
        snowfall <= 0,
        rain > 0 || showers > 0,
    ensures
        sky_of(snowfall, rain, showers, cloud_cover_sum, samples) == Sky::Rain,
{
}

} // verus!
