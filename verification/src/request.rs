//! The upstream endpoints: their request URLs and the API keys they need.

use vstd::prelude::*;
use vstd::string::StringExecFns;

verus! {

/// The three upstream calls.
#[derive(Clone, Copy, Debug, PartialEq, Eq, Structural)]
pub enum Endpoint {
    /// OpenWeatherMap, current conditions of a city.
    CurrentWeather,
    /// OpenWeatherMap, five-day forecast of a city.
    Forecast,
    /// AirVisual, air quality of a city.
    AirQuality,
}

/// The two upstream services.
#[derive(Clone, Copy, Debug, PartialEq, Eq, Structural)]
pub enum Provider {
    OpenWeatherMap,
    AirVisual,
}

impl Provider {
    /// The text that stands where a key has not been configured yet.
    pub open spec fn placeholder(self) -> Seq<char> {
        match self {
            Provider::OpenWeatherMap => "YOUR_OPENWEATHER_API_KEY"@,
            Provider::AirVisual => "YOUR_AIRVISUAL_API_KEY"@,
        }
    }

    /// The error shown while the key is still the placeholder.
    pub open spec fn missing_key(self) -> Seq<char> {
        match self {
            Provider::OpenWeatherMap => "Please add your OpenWeatherMap API key to the Rust code"@,
            Provider::AirVisual => "Please add your AirVisual API key to the Rust code"@,
        }
    }

    /// Accepts a configured key and rejects the placeholder.
    pub fn check_key(self, api_key: &str) -> (checked: Result<(), String>)
        ensures
            checked is Ok <==> api_key@ != self.placeholder(),
            checked matches Err(message) ==> message@ == self.missing_key(),
    {
        let placeholder = match self {
            Provider::OpenWeatherMap => "YOUR_OPENWEATHER_API_KEY".to_string(),
            Provider::AirVisual => "YOUR_AIRVISUAL_API_KEY".to_string(),
        };
        if api_key.to_owned() == placeholder {
            Err(
                match self {
                    Provider::OpenWeatherMap => {
                        "Please add your OpenWeatherMap API key to the Rust code".to_string()
                    },
                    Provider::AirVisual => {
                        "Please add your AirVisual API key to the Rust code".to_string()
                    },
                },
            )
        } else {
            Ok(())
        }
    }
}

impl Endpoint {
    /// The service behind the endpoint.
    pub open spec fn provider(self) -> Provider {
        match self {
            Endpoint::CurrentWeather => Provider::OpenWeatherMap,
            Endpoint::Forecast => Provider::OpenWeatherMap,
            Endpoint::AirQuality => Provider::AirVisual,
        }
    }

    /// The URL up to the city.
    pub open spec fn url_head(self) -> Seq<char> {
        match self {
            Endpoint::CurrentWeather => "https://api.openweathermap.org/data/2.5/weather?q="@,
            Endpoint::Forecast => "https://api.openweathermap.org/data/2.5/forecast?q="@,
            Endpoint::AirQuality => "https://api.airvisual.com/v2/city?city="@,
        }
    }

    /// The URL between the city and the key.
    pub open spec fn url_middle(self) -> Seq<char> {
        match self {
            Endpoint::CurrentWeather => "&appid="@,
            Endpoint::Forecast => "&appid="@,
            Endpoint::AirQuality => "&state=&country=&key="@,
        }
    }

    /// The URL after the key.
    pub open spec fn url_tail(self) -> Seq<char> {
        match self {
            Endpoint::CurrentWeather => "&units=metric"@,
            Endpoint::Forecast => "&units=metric"@,
            Endpoint::AirQuality => ""@,
        }
    }

    /// The URL of the request for `city` with `api_key`. City and key are
    /// inserted as they are.
    pub open spec fn url(self, city: Seq<char>, api_key: Seq<char>) -> Seq<char> {
        self.url_head() + city + self.url_middle() + api_key + self.url_tail()
    }

    /// The service behind the endpoint.
    pub fn service(self) -> (provider: Provider)
        ensures
            provider == self.provider(),
    {
        match self {
            Endpoint::CurrentWeather => Provider::OpenWeatherMap,
            Endpoint::Forecast => Provider::OpenWeatherMap,
            Endpoint::AirQuality => Provider::AirVisual,
        }
    }

    /// Builds the URL of the request for `city` with `api_key`.
    pub fn request_url(self, city: &str, api_key: &str) -> (url: String)
        ensures
            url@ == self.url(city@, api_key@),
    {
        let mut url = match self {
            Endpoint::CurrentWeather => {
                "https://api.openweathermap.org/data/2.5/weather?q=".to_string()
            },
            Endpoint::Forecast => "https://api.openweathermap.org/data/2.5/forecast?q=".to_string(),
            Endpoint::AirQuality => "https://api.airvisual.com/v2/city?city=".to_string(),
        };
        url.append(city);
        url.append(
            match self {
                Endpoint::CurrentWeather => "&appid=",
                Endpoint::Forecast => "&appid=",
                Endpoint::AirQuality => "&state=&country=&key=",
            },
        );
        url.append(api_key);
        url.append(
            match self {
                Endpoint::CurrentWeather => "&units=metric",
                Endpoint::Forecast => "&units=metric",
                Endpoint::AirQuality => "",
            },
        );
        url
    }
}

} // verus!
