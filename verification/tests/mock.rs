use weather_dashboard::mock::{get_mock_air_quality, get_mock_weather, MOCK_AQI};
use weather_dashboard::model::{AirQualityData, ForecastData, WeatherData, WeatherResponse};

fn fixture(city: &str) -> WeatherResponse {
    WeatherResponse {
        current: WeatherData {
            temperature: 225_000,
            humidity: 65,
            wind_speed: 32_000,
            description: "Partly cloudy".to_string(),
            icon: "02d".to_string(),
            city: city.to_string(),
            country: "US".to_string(),
        },
        forecast: vec![
            ForecastData {
                date: "Tomorrow".to_string(),
                temperature_max: 250_000,
                temperature_min: 180_000,
                description: "Sunny".to_string(),
                icon: "01d".to_string(),
            },
            ForecastData {
                date: "Day After".to_string(),
                temperature_max: 230_000,
                temperature_min: 160_000,
                description: "Partly cloudy".to_string(),
                icon: "02d".to_string(),
            },
            ForecastData {
                date: "3 Days".to_string(),
                temperature_max: 200_000,
                temperature_min: 140_000,
                description: "Light rain".to_string(),
                icon: "10d".to_string(),
            },
        ],
    }
}

#[test]
fn mock_weather_is_the_fixture() {
    assert_eq!(get_mock_weather("Paris".to_string()), Ok(fixture("Paris")));
}

#[test]
fn mock_weather_keeps_the_city_as_given() {
    assert_eq!(get_mock_weather(String::new()), Ok(fixture("")));
    assert_eq!(get_mock_weather("S\u{e3}o Paulo ".to_string()), Ok(fixture("S\u{e3}o Paulo ")));
}

#[test]
fn mock_weather_is_the_same_each_time() {
    assert_eq!(get_mock_weather("Oslo".to_string()), get_mock_weather("Oslo".to_string()));
}

#[test]
fn mock_air_quality_is_the_fixture() {
    assert_eq!(MOCK_AQI, 45);
    assert_eq!(
        get_mock_air_quality("Paris".to_string()),
        Ok(AirQualityData {
            aqi: 45,
            category: "Good".to_string(),
            color: "#00E400".to_string(),
            pm25: 125_000,
            pm10: 200_000,
            o3: 400,
            no2: 150,
            so2: 80,
            co: 3_000,
        })
    );
}

#[test]
fn mock_air_quality_ignores_the_city() {
    assert_eq!(get_mock_air_quality("Oslo".to_string()), get_mock_air_quality(String::new()));
}
