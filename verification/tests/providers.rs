use weather_dashboard::airvisual::{
    AirVisualCurrent, AirVisualData, AirVisualPollution, AirVisualResponse,
};
use weather_dashboard::model::{ForecastData, WeatherData};
use weather_dashboard::openweather::{
    missing_conditions_reason, OpenWeatherForecastItem, OpenWeatherForecastResponse, OpenWeatherMain, OpenWeatherResponse,
    OpenWeatherSys, OpenWeatherWeather, OpenWeatherWind,
};

fn conditions(description: &str, icon: &str) -> OpenWeatherWeather {
    OpenWeatherWeather { description: description.to_string(), icon: icon.to_string() }
}

fn report(weather: Vec<OpenWeatherWeather>) -> OpenWeatherResponse {
    OpenWeatherResponse {
        main: OpenWeatherMain { temp: 213_700, humidity: 71 },
        weather,
        wind: OpenWeatherWind { speed: 41_200 },
        name: "Lisbon".to_string(),
        sys: OpenWeatherSys { country: "PT".to_string() },
    }
}

fn item(time: &str, temp: i64, description: &str, icon: &str) -> OpenWeatherForecastItem {
    OpenWeatherForecastItem {
        dt_txt: time.to_string(),
        main: OpenWeatherMain { temp, humidity: 50 },
        weather: vec![conditions(description, icon)],
    }
}

fn bare(time: &str, temp: i64) -> OpenWeatherForecastItem {
    OpenWeatherForecastItem {
        dt_txt: time.to_string(),
        main: OpenWeatherMain { temp, humidity: 50 },
        weather: Vec::new(),
    }
}

fn outlook_entry(date: &str, max: i64, min: i64, description: &str, icon: &str) -> ForecastData {
    ForecastData {
        date: date.to_string(),
        temperature_max: max,
        temperature_min: min,
        description: description.to_string(),
        icon: icon.to_string(),
    }
}

fn answer(aqius: i32) -> AirVisualResponse {
    AirVisualResponse {
        data: AirVisualData {
            current: AirVisualCurrent {
                pollution: AirVisualPollution {
                    aqius,
                    mainus: "p2".to_string(),
                    aqicn: 20,
                    maincn: "p1".to_string(),
                },
            },
        },
    }
}

#[test]
fn report_with_conditions_is_described() {
    assert!(report(vec![conditions("mist", "50d")]).has_description());
    assert!(!report(Vec::new()).has_description());
}

#[test]
fn report_normalises_to_current_conditions() {
    let current =
        report(vec![conditions("light rain", "10d"), conditions("mist", "50d")]).into_weather_data();
    assert_eq!(
        current,
        Some(WeatherData {
            temperature: 213_700,
            humidity: 71,
            wind_speed: 41_200,
            description: "light rain".to_string(),
            icon: "10d".to_string(),
            city: "Lisbon".to_string(),
            country: "PT".to_string(),
        })
    );
}

#[test]
fn report_without_conditions_does_not_normalise() {
    assert_eq!(report(Vec::new()).into_weather_data(), None);
}

#[test]
fn reason_for_missing_conditions() {
    assert_eq!(missing_conditions_reason(), "missing weather conditions");
}

#[test]
fn forecast_outlook_reports_first_item_of_each_day() {
    let forecast = OpenWeatherForecastResponse {
        list: vec![
            item("2024-03-01 21:00:00", 100_000, "clear sky", "01n"),
            item("2024-03-02 00:00:00", 90_000, "few clouds", "02n"),
            item("2024-03-02 03:00:00", 80_000, "rain", "10n"),
            item("2024-03-02 12:00:00", 150_000, "clear sky", "01d"),
            item("2024-03-03 00:00:00", 70_000, "snow", "13n"),
            item("2024-03-03 12:00:00", 60_000, "mist", "50d"),
            item("2024-03-04 00:00:00", 110_000, "broken clouds", "04n"),
            item("2024-03-05 00:00:00", 500_000, "clear sky", "01n"),
        ],
    };
    assert!(forecast.has_descriptions());
    assert_eq!(
        forecast.outlook(),
        Some(vec![
            outlook_entry("Tomorrow", 150_000, 80_000, "few clouds", "02n"),
            outlook_entry("Day After", 70_000, 60_000, "snow", "13n"),
            outlook_entry("3 Days", 110_000, 110_000, "broken clouds", "04n"),
        ])
    );
}

#[test]
fn forecast_outlook_of_one_day_or_none_is_empty() {
    let nothing = OpenWeatherForecastResponse { list: Vec::new() };
    assert!(nothing.has_descriptions());
    assert_eq!(nothing.outlook(), Some(Vec::new()));
    let today = OpenWeatherForecastResponse {
        list: vec![bare("2024-03-01 18:00:00", 1), bare("2024-03-01 21:00:00", 2)],
    };
    assert!(today.has_descriptions());
    assert_eq!(today.outlook(), Some(Vec::new()));
}

#[test]
fn forecast_needs_conditions_only_where_a_day_opens() {
    let usable = OpenWeatherForecastResponse {
        list: vec![
            bare("d0 00:00", 1),
            item("d1 00:00", 2, "rain", "10d"),
            bare("d1 03:00", 3),
            bare("d0 06:00", 9),
            item("d2 00:00", 4, "snow", "13d"),
            item("d3 00:00", 5, "mist", "50d"),
            bare("d4 00:00", 6),
        ],
    };
    assert!(usable.has_descriptions());
    assert_eq!(
        usable.outlook(),
        Some(vec![
            outlook_entry("Tomorrow", 3, 2, "rain", "10d"),
            outlook_entry("Day After", 4, 4, "snow", "13d"),
            outlook_entry("3 Days", 5, 5, "mist", "50d"),
        ])
    );
}

#[test]
fn forecast_without_conditions_where_a_day_opens_is_not_described() {
    let second = OpenWeatherForecastResponse {
        list: vec![
            item("d0 00:00", 1, "rain", "10d"),
            item("d1 00:00", 2, "rain", "10d"),
            bare("d2 00:00", 3),
            item("d2 03:00", 3, "rain", "10d"),
        ],
    };
    assert!(!second.has_descriptions());
    assert_eq!(second.outlook(), None);
    let first = OpenWeatherForecastResponse {
        list: vec![item("d0 00:00", 1, "rain", "10d"), bare("d1 00:00", 2)],
    };
    assert!(!first.has_descriptions());
    assert_eq!(first.outlook(), None);
}

#[test]
fn answer_normalises_to_reading_of_its_us_index() {
    let reading = answer(75).air_quality();
    assert_eq!(reading.aqi, 75);
    assert_eq!(reading.category, "Moderate");
    assert_eq!(reading.color, "#FFFF00");
    assert_eq!(
        (reading.pm25, reading.pm10, reading.o3, reading.no2, reading.so2, reading.co),
        (625_000, 937_500, 31_250, 12_500, 6_250, 62_500)
    );
}

#[test]
fn answer_with_hazardous_index() {
    let reading = answer(500).air_quality();
    assert_eq!(reading.category, "Hazardous");
    assert_eq!(reading.color, "#7E0023");
    // 200.0 + 0.5 * 200 = 300.0
    assert_eq!(reading.pm25, 3_000_000);
}
