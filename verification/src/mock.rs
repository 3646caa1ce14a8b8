//! The demonstration providers: fixed data, no request.

use vstd::prelude::*;
use crate::aqi::{category_of, get_aqi_category};
use crate::model::{
    AirQualityData, AirQualityDataView, ForecastData, ForecastDataView, WeatherData,
    WeatherDataView, WeatherResponse, WeatherResponseView,
};

verus! {

/// The index of the demonstration reading.
pub const MOCK_AQI: i32 = 45;

/// The demonstration weather for a place: the same conditions and outlook
/// whatever the place, under the place's own name.
pub open spec fn mock_weather(city: Seq<char>) -> WeatherResponseView {
    WeatherResponseView {
        current: WeatherDataView {
            temperature: 225_000,
            humidity: 65,
            wind_speed: 32_000,
            description: "Partly cloudy"@,
            icon: "02d"@,
            city,
            country: "US"@,
        },
        forecast: seq![
            ForecastDataView {
                date: "Tomorrow"@,
                temperature_max: 250_000,
                temperature_min: 180_000,
                description: "Sunny"@,
                icon: "01d"@,
            },
            ForecastDataView {
                date: "Day After"@,
                temperature_max: 230_000,
                temperature_min: 160_000,
                description: "Partly cloudy"@,
                icon: "02d"@,
            },
            ForecastDataView {
                date: "3 Days"@,
                temperature_max: 200_000,
                temperature_min: 140_000,
                description: "Light rain"@,
                icon: "10d"@,
            },
        ],
    }
}

/// The demonstration air-quality reading.
pub open spec fn mock_air_quality() -> AirQualityDataView {
    AirQualityDataView {
        aqi: MOCK_AQI as int,
        category: category_of(MOCK_AQI as int).label(),
        color: category_of(MOCK_AQI as int).color(),
        pm25: 125_000,
        pm10: 200_000,
        o3: 400,
        no2: 150,
        so2: 80,
        co: 3_000,
    }
}

/// Answers a weather query with the demonstration data. Never fails.
pub fn get_mock_weather(city: String) -> (result: Result<WeatherResponse, String>)
    ensures
        result matches Ok(response) && response@ == mock_weather(city@),
{
    let current = WeatherData {
        temperature: 225_000,
        humidity: 65,
        wind_speed: 32_000,
        description: "Partly cloudy".to_string(),
        icon: "02d".to_string(),
        city,
        country: "US".to_string(),
    };
    let mut forecast: Vec<ForecastData> = Vec::new();
    forecast.push(
        ForecastData {
            date: "Tomorrow".to_string(),
            temperature_max: 250_000,
            temperature_min: 180_000,
            description: "Sunny".to_string(),
            icon: "01d".to_string(),
        },
    );
    forecast.push(
        ForecastData {
            date: "Day After".to_string(),
            temperature_max: 230_000,
            temperature_min: 160_000,
            description: "Partly cloudy".to_string(),
            icon: "02d".to_string(),
        },
    );
    forecast.push(
        ForecastData {
            date: "3 Days".to_string(),
            temperature_max: 200_000,
            temperature_min: 140_000,
            description: "Light rain".to_string(),
            icon: "10d".to_string(),
        },
    );
    let response = WeatherResponse { current, forecast };
    assert(response@.forecast =~= mock_weather(city@).forecast);
    Ok(response)
}

/// Answers an air-quality query with the demonstration data, whatever the
/// place. Never fails.
pub fn get_mock_air_quality(_city: String) -> (result: Result<AirQualityData, String>)
    ensures
        result matches Ok(reading) && reading@ == mock_air_quality(),
{
    let aqi = MOCK_AQI;
    let (category, color) = get_aqi_category(aqi);
    Ok(
        AirQualityData {
            aqi,
            category,
            color,
            pm25: 125_000,
            pm10: 200_000,
            o3: 400,
            no2: 150,
            so2: 80,
            co: 3_000,
        },
    )
}

} // verus!
