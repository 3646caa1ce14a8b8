//! The AirVisual city payload and its normalisation.

use vstd::prelude::*;
use crate::aqi::{reading_for, reading_of};
use crate::model::AirQualityData;

verus! {

/// The `pollution` object: the index on the US and on the Chinese scale, each
/// with its main pollutant.
#[derive(Debug, Clone, PartialEq, Eq)]
pub struct AirVisualPollution {
    pub aqius: i32,
    pub mainus: String,
    pub aqicn: i32,
    pub maincn: String,
}

/// The `current` object.
#[derive(Debug, Clone, PartialEq, Eq)]
pub struct AirVisualCurrent {
    pub pollution: AirVisualPollution,
}

/// The `data` object.
#[derive(Debug, Clone, PartialEq, Eq)]
pub struct AirVisualData {
    pub current: AirVisualCurrent,
}

/// The answer to a city query.
#[derive(Debug, Clone, PartialEq, Eq)]
pub struct AirVisualResponse {
    pub data: AirVisualData,
}

impl AirVisualResponse {
    /// The index that the answer reports, on the US scale.
    pub open spec fn index(&self) -> int {
        self.data.current.pollution.aqius as int
    }

    /// Normalises the answer. The payload carries no concentrations, so they
    /// are estimated from the index.
    pub fn air_quality(&self) -> (reading: AirQualityData)
        ensures
            reading@ == reading_of(self.index()),
    {
        reading_for(self.data.current.pollution.aqius)
    }
}

} // verus!
