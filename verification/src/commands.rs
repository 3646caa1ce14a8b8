//! The two live queries, as the steps between their requests.
//!
//! A query never performs a request itself. It says which URL to fetch, and
//! takes the [`Reply`] to decide what comes next: another request, the
//! result, or the error to show. Whoever drives a query fetches each URL once
//! and hands the reply to the state that named it.

use vstd::prelude::*;
use crate::airvisual::AirVisualResponse;
use crate::aqi::reading_of;
use crate::days::forecast_days;
use crate::forecast::SeriesReport;
use crate::model::{AirQualityData, WeatherResponse, WeatherResponseView};
use crate::openweather::{
    item_dates, missing_conditions, missing_conditions_reason, reports,
    OpenWeatherForecastResponse, OpenWeatherResponse,
};
use crate::reply::Reply;
use crate::request::{Endpoint, Provider};

verus! {

/// A weather query whose request for the current conditions is due.
#[derive(Debug, Clone, PartialEq, Eq)]
pub struct AwaitingCurrent {
    /// The URL to fetch now.
    pub url: String,
    /// The URL to fetch once the current conditions are in.
    pub forecast_url: String,
}

/// A weather query whose request for the forecast is due.
#[derive(Debug, Clone, PartialEq, Eq)]
pub struct AwaitingForecast {
    /// The URL to fetch now.
    pub url: String,
    /// The current conditions as they were reported.
    pub current: OpenWeatherResponse,
}

/// An air-quality query whose request is due.
#[derive(Debug, Clone, PartialEq, Eq)]
pub struct AwaitingAirQuality {
    /// The URL to fetch now.
    pub url: String,
}

/// `response` is the weather that a report and a forecast normalise to: the
/// report's conditions, and one entry for each day of the forecast's outlook.
pub open spec fn is_weather_of(
    current: OpenWeatherResponse,
    forecast: OpenWeatherForecastResponse,
    response: WeatherResponseView,
) -> bool {
    let days = forecast_days(item_dates(forecast.list@));
    &&& response.current == current.conditions()
    &&& response.forecast.len() == days.len()
    &&& forall|k: int|
        0 <= k < days.len() ==> reports(forecast.list@, days[k], k, #[trigger] response.forecast[k])
}

/// The error that ends a weather query when the reply to its request for the
/// forecast is in, if there is one.
///
/// A failed reply gives its own error. A forecast that leaves a day of the
/// outlook undescribed is shown as a forecast that did not decode, and a
/// report that names no conditions as a report that did not decode, in that
/// order.
pub open spec fn weather_failure(
    current: OpenWeatherResponse,
    reply: Reply<OpenWeatherForecastResponse>,
) -> Option<Seq<char>> {
    match reply {
        Reply::Payload(forecast) => {
            if !forecast.is_described() {
                Some(Endpoint::Forecast.malformed_notice() + missing_conditions())
            } else if !current.is_described() {
                Some(Endpoint::CurrentWeather.malformed_notice() + missing_conditions())
            } else {
                None
            }
        },
        _ => reply.failure(Endpoint::Forecast),
    }
}

/// Starts a weather query for `city`.
///
/// Fails, before any request, while `api_key` is still the placeholder.
/// Otherwise the current conditions are to be fetched first.
pub fn get_weather(city: &str, api_key: &str) -> (started: Result<AwaitingCurrent, String>)
    ensures
        started is Ok <==> api_key@ != Provider::OpenWeatherMap.placeholder(),
        started matches Err(message) ==> message@ == Provider::OpenWeatherMap.missing_key(),
        started matches Ok(query) ==> query.url@ == Endpoint::CurrentWeather.url(city@, api_key@),
        started matches Ok(query) ==> query.forecast_url@ == Endpoint::Forecast.url(
            city@,
            api_key@,
        ),
{
    match Provider::OpenWeatherMap.check_key(api_key) {
        Err(message) => Err(message),
        Ok(()) => Ok(
            AwaitingCurrent {
                url: Endpoint::CurrentWeather.request_url(city, api_key),
                forecast_url: Endpoint::Forecast.request_url(city, api_key),
            },
        ),
    }
}

impl AwaitingCurrent {
    /// Takes the reply to the request for the current conditions.
    ///
    /// A failure ends the query with its error. A report is kept, and the
    /// forecast is to be fetched next.
    pub fn current_arrived(self, reply: Reply<OpenWeatherResponse>) -> (next: Result<
        AwaitingForecast,
        String,
    >)
        ensures
            next is Err <==> reply.failure(Endpoint::CurrentWeather) is Some,
            next matches Err(message) ==> reply.failure(Endpoint::CurrentWeather) == Some(
                message@,
            ),
            next matches Ok(query) ==> reply == Reply::Payload(query.current),
            next matches Ok(query) ==> query.url@ == self.forecast_url@,
    {
        match reply.settle(Endpoint::CurrentWeather) {
            Err(message) => Err(message),
            Ok(current) => Ok(AwaitingForecast { url: self.forecast_url, current }),
        }
    }
}

impl AwaitingForecast {
    /// Takes the reply to the request for the forecast and ends the query.
    ///
    /// A failure gives its error. So does a forecast that leaves a day of the
    /// outlook undescribed, and so does a report that names no conditions.
    /// Otherwise the query ends with the weather: the reported conditions and
    /// the outlook grouped from the forecast.
    pub fn forecast_arrived(self, reply: Reply<OpenWeatherForecastResponse>) -> (finished: Result<
        WeatherResponse,
        String,
    >)
        ensures
            finished is Err <==> weather_failure(self.current, reply) is Some,
            finished matches Err(message) ==> weather_failure(self.current, reply) == Some(
                message@,
            ),
            finished matches Ok(response) ==> (reply matches Reply::Payload(forecast)
                && is_weather_of(self.current, forecast, response@)),
    {
        let forecast = match reply.settle(Endpoint::Forecast) {
            Err(message) => {
                return Err(message);
            },
            Ok(forecast) => forecast,
        };
        let outlook = match forecast.outlook() {
            None => {
                return Err(Endpoint::Forecast.malformed_error(missing_conditions_reason()));
            },
            Some(outlook) => outlook,
        };
        match self.current.into_weather_data() {
            None => Err(Endpoint::CurrentWeather.malformed_error(missing_conditions_reason())),
            Some(current) => Ok(WeatherResponse { current, forecast: outlook }),
        }
    }
}

/// Ends a weather query at a provider of measurements, which a single
/// request answers, with the reply to that request.
///
/// A failure gives its error. A report gives the weather: the conditions
/// inferred for its latest readings and the outlook grouped from its series.
pub fn series_arrived(reply: Reply<SeriesReport>) -> (finished: Result<WeatherResponse, String>)
    ensures
        finished is Err <==> reply.failure(Endpoint::CurrentWeather) is Some,
        finished matches Err(message) ==> reply.failure(Endpoint::CurrentWeather) == Some(
            message@,
        ),
        finished matches Ok(response) ==> (reply matches Reply::Payload(report)
            && report.is_shown_as(response@)),
{
    match reply.settle(Endpoint::CurrentWeather) {
        Err(message) => Err(message),
        Ok(report) => Ok(report.into_weather()),
    }
}

/// Starts an air-quality query for `city`.
///
/// Fails, before any request, while `api_key` is still the placeholder.
pub fn get_air_quality(city: &str, api_key: &str) -> (started: Result<AwaitingAirQuality, String>)
    ensures
        started is Ok <==> api_key@ != Provider::AirVisual.placeholder(),
        started matches Err(message) ==> message@ == Provider::AirVisual.missing_key(),
        started matches Ok(query) ==> query.url@ == Endpoint::AirQuality.url(city@, api_key@),
{
    match Provider::AirVisual.check_key(api_key) {
        Err(message) => Err(message),
        Ok(()) => Ok(AwaitingAirQuality { url: Endpoint::AirQuality.request_url(city, api_key) }),
    }
}

impl AwaitingAirQuality {
    /// Takes the reply to the request and ends the query.
    ///
    /// A failure gives its error. An answer gives the reading for the index
    /// that it reports.
    pub fn arrived(self, reply: Reply<AirVisualResponse>) -> (finished: Result<
        AirQualityData,
        String,
    >)
        ensures
            finished is Err <==> reply.failure(Endpoint::AirQuality) is Some,
            finished matches Err(message) ==> reply.failure(Endpoint::AirQuality) == Some(
                message@,
            ),
            finished matches Ok(reading) ==> (reply matches Reply::Payload(answer) && reading@
                == reading_of(answer.index())),
    {
        match reply.settle(Endpoint::AirQuality) {
            Err(message) => Err(message),
            Ok(answer) => Ok(answer.air_quality()),
        }
    }
}

} // verus!
