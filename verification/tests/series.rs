use weather_dashboard::commands::series_arrived;
use weather_dashboard::forecast::{Sample, SeriesReport};
use weather_dashboard::model::{ForecastData, WeatherData, WeatherResponse};
use weather_dashboard::reply::Reply;
use weather_dashboard::status::Status;

fn reading(time: &str, temperature: i64, rain: i64, snowfall: i64, cloud_cover: i64) -> Sample {
    Sample { time: time.to_string(), temperature, rain, showers: 0, snowfall, cloud_cover }
}

fn measured(rain: i64, showers: i64, snowfall: i64, cloud_cover: i64) -> SeriesReport {
    SeriesReport {
        city: "Bergen".to_string(),
        country: "NO".to_string(),
        temperature: 45_000,
        humidity: 88,
        wind_speed: 61_000,
        rain,
        showers,
        snowfall,
        cloud_cover,
        samples: Vec::new(),
    }
}

fn now(description: &str, icon: &str) -> WeatherData {
    WeatherData {
        temperature: 45_000,
        humidity: 88,
        wind_speed: 61_000,
        description: description.to_string(),
        icon: icon.to_string(),
        city: "Bergen".to_string(),
        country: "NO".to_string(),
    }
}

fn day(date: &str, max: i64, min: i64, description: &str, icon: &str) -> ForecastData {
    ForecastData {
        date: date.to_string(),
        temperature_max: max,
        temperature_min: min,
        description: description.to_string(),
        icon: icon.to_string(),
    }
}

#[test]
fn latest_readings_with_snow_and_rain_are_snow() {
    let response = measured(12_000, 3_000, 1, 1_000_000).into_weather();
    assert_eq!(response.current, now("Snow", "\u{2744}\u{fe0f}"));
    assert_eq!(response.forecast, Vec::new());
}

#[test]
fn latest_readings_with_rain_under_full_cloud_are_rain() {
    assert_eq!(
        measured(1, 0, 0, 1_000_000).into_weather().current,
        now("Rain", "\u{1f327}\u{fe0f}")
    );
    assert_eq!(
        measured(0, 1, 0, 1_000_000).into_weather().current,
        now("Rain", "\u{1f327}\u{fe0f}")
    );
}

#[test]
fn dry_latest_readings_go_by_cloud_cover() {
    assert_eq!(
        measured(0, 0, 0, 1_000_000).into_weather().current,
        now("Overcast", "\u{2601}\u{fe0f}")
    );
    assert_eq!(
        measured(0, 0, 0, 800_000).into_weather().current,
        now("Partly Cloudy", "\u{26c5}")
    );
    assert_eq!(
        measured(0, 0, 0, 500_000).into_weather().current,
        now("Mostly Clear", "\u{1f324}\u{fe0f}")
    );
    assert_eq!(
        measured(0, 0, 0, 200_000).into_weather().current,
        now("Clear", "\u{2600}\u{fe0f}")
    );
}

#[test]
fn series_report_normalises_to_conditions_and_outlook() {
    let mut report = measured(0, 0, 0, 300_000);
    report.samples = vec![
        reading("2024-01-10 23:00", 10_000, 0, 9, 0),
        reading("2024-01-11 00:00", -20_000, 5_000, 0, 1_000_000),
        reading("2024-01-11 12:00", 15_000, 0, 2_000, 1_000_000),
        reading("2024-01-12 00:00", 30_000, 4_000, 0, 0),
        reading("2024-01-12 12:00", 65_000, 0, 0, 0),
        reading("2024-01-13 00:00", 20_000, 0, 0, 900_000),
    ];
    assert_eq!(
        report.into_weather(),
        WeatherResponse {
            current: now("Mostly Clear", "\u{1f324}\u{fe0f}"),
            forecast: vec![
                day("Tomorrow", 15_000, -20_000, "Snow", "\u{2744}\u{fe0f}"),
                day("Day After", 65_000, 30_000, "Rain", "\u{1f327}\u{fe0f}"),
                day("3 Days", 20_000, 20_000, "Overcast", "\u{2601}\u{fe0f}"),
            ],
        }
    );
}

#[test]
fn series_query_ends_with_weather() {
    assert_eq!(
        series_arrived(Reply::Payload(measured(0, 0, 3, 0))),
        Ok(WeatherResponse { current: now("Snow", "\u{2744}\u{fe0f}"), forecast: Vec::new() })
    );
}

#[test]
fn series_query_ends_on_failure() {
    assert_eq!(
        series_arrived(Reply::Unreachable("no route".to_string())),
        Err("Failed to fetch weather data: no route".to_string())
    );
    assert_eq!(
        series_arrived(Reply::Refused(Status::new(400).unwrap())),
        Err("Weather API error: 400 Bad Request".to_string())
    );
    assert_eq!(
        series_arrived(Reply::Malformed("EOF".to_string())),
        Err("Failed to parse weather data: EOF".to_string())
    );
}
