//! The unified structures handed to the user interface, and their mathematical views.

use vstd::prelude::*;
use crate::units::Decimal;

verus! {

/// Current conditions at one place.
#[derive(Debug, Clone, PartialEq, Eq)]
pub struct WeatherData {
    pub temperature: Decimal,
    pub humidity: i32,
    pub wind_speed: Decimal,
    pub description: String,
    pub icon: String,
    pub city: String,
    pub country: String,
}

/// What a [`WeatherData`] holds.
pub struct WeatherDataView {
    pub temperature: int,
    pub humidity: int,
    pub wind_speed: int,
    pub description: Seq<char>,
    pub icon: Seq<char>,
    pub city: Seq<char>,
    pub country: Seq<char>,
}

impl View for WeatherData {
    type V = WeatherDataView;

    open spec fn view(&self) -> WeatherDataView {
        WeatherDataView {
            temperature: self.temperature as int,
            humidity: self.humidity as int,
            wind_speed: self.wind_speed as int,
            description: self.description@,
            icon: self.icon@,
            city: self.city@,
            country: self.country@,
        }
    }
}

/// One day of the outlook. `date` is the day's label, not a calendar date.
#[derive(Debug, Clone, PartialEq, Eq)]
pub struct ForecastData {
    pub date: String,
    pub temperature_max: Decimal,
    pub temperature_min: Decimal,
    pub description: String,
    pub icon: String,
}

/// What a [`ForecastData`] holds.
pub struct ForecastDataView {
    pub date: Seq<char>,
    pub temperature_max: int,
    pub temperature_min: int,
    pub description: Seq<char>,
    pub icon: Seq<char>,
}

impl View for ForecastData {
    type V = ForecastDataView;

    open spec fn view(&self) -> ForecastDataView {
        ForecastDataView {
            date: self.date@,
            temperature_max: self.temperature_max as int,
            temperature_min: self.temperature_min as int,
            description: self.description@,
            icon: self.icon@,
        }
    }
}

/// An air-quality reading with its category and six pollutant concentrations.
#[derive(Debug, Clone, PartialEq, Eq)]
pub struct AirQualityData {
    pub aqi: i32,
    pub category: String,
    pub color: String,
    pub pm25: Decimal,
    pub pm10: Decimal,
    pub o3: Decimal,
    pub no2: Decimal,
    pub so2: Decimal,
    pub co: Decimal,
}

/// What an [`AirQualityData`] holds.
pub struct AirQualityDataView {
    pub aqi: int,
    pub category: Seq<char>,
    pub color: Seq<char>,
    pub pm25: int,
    pub pm10: int,
    pub o3: int,
    pub no2: int,
    pub so2: int,
    pub co: int,
}

impl View for AirQualityData {
    type V = AirQualityDataView;

    open spec fn view(&self) -> AirQualityDataView {
        AirQualityDataView {
            aqi: self.aqi as int,
            category: self.category@,
            color: self.color@,
            pm25: self.pm25 as int,
            pm10: self.pm10 as int,
            o3: self.o3 as int,
            no2: self.no2 as int,
            so2: self.so2 as int,
            co: self.co as int,
        }
    }
}

/// Current conditions together with the outlook for the following days.
#[derive(Debug, Clone, PartialEq, Eq)]
pub struct WeatherResponse {
    pub current: WeatherData,
    pub forecast: Vec<ForecastData>,
}

/// What a [`WeatherResponse`] holds.
pub struct WeatherResponseView {
    pub current: WeatherDataView,
    pub forecast: Seq<ForecastDataView>,
}

impl View for WeatherResponse {
    type V = WeatherResponseView;

    open spec fn view(&self) -> WeatherResponseView {
        WeatherResponseView {
            current: self.current@,
            forecast: self.forecast@.map_values(|day: ForecastData| day@),
        }
    }
}

} // verus!
