//! What one request brought back, and the error shown for each failure.

use vstd::prelude::*;
use vstd::string::StringExecFns;
use crate::request::Endpoint;
use crate::status::{status_text, Status};

verus! {

/// The outcome of one HTTP GET, as the caller that performed it reports it.
#[derive(Debug, Clone, PartialEq, Eq)]
pub enum Reply<P> {
    /// No response arrived. The text is the transport's account of why.
    Unreachable(String),
    /// A response arrived, with this status in place of a success.
    Refused(Status),
    /// A successful response arrived, but its body did not decode. The text
    /// is the decoder's account of why.
    Malformed(String),
    /// A successful response arrived, and this is its decoded body.
    Payload(P),
}

impl Endpoint {
    /// How the error starts when no response arrived.
    pub open spec fn unreachable_notice(self) -> Seq<char> {
        match self {
            Endpoint::CurrentWeather => "Failed to fetch weather data: "@,
            Endpoint::Forecast => "Failed to fetch forecast data: "@,
            Endpoint::AirQuality => "Failed to fetch air quality data: "@,
        }
    }

    /// How the error starts when the status was not a success.
    pub open spec fn refused_notice(self) -> Seq<char> {
        match self {
            Endpoint::CurrentWeather => "Weather API error: "@,
            Endpoint::Forecast => "Forecast API error: "@,
            Endpoint::AirQuality => "Air quality API error: "@,
        }
    }

    /// How the error starts when the body did not decode.
    pub open spec fn malformed_notice(self) -> Seq<char> {
        match self {
            Endpoint::CurrentWeather => "Failed to parse weather data: "@,
            Endpoint::Forecast => "Failed to parse forecast data: "@,
            Endpoint::AirQuality => "Failed to parse air quality data: "@,
        }
    }

    /// The error for a request that brought no response.
    pub fn unreachable_error(self, reason: &str) -> (message: String)
        ensures
            message@ == self.unreachable_notice() + reason@,
    {
        let mut message = match self {
            Endpoint::CurrentWeather => "Failed to fetch weather data: ".to_string(),
            Endpoint::Forecast => "Failed to fetch forecast data: ".to_string(),
            Endpoint::AirQuality => "Failed to fetch air quality data: ".to_string(),
        };
        message.append(reason);
        message
    }

    /// The error for a response whose status was not a success.
    pub fn refused_error(self, status: Status) -> (message: String)
        ensures
            message@ == self.refused_notice() + status_text(status.code()),
    {
        let mut message = match self {
            Endpoint::CurrentWeather => "Weather API error: ".to_string(),
            Endpoint::Forecast => "Forecast API error: ".to_string(),
            Endpoint::AirQuality => "Air quality API error: ".to_string(),
        };
        let status = status.text();
        message.append(status.as_str());
        message
    }

    /// The error for a body that did not decode.
    pub fn malformed_error(self, reason: &str) -> (message: String)
        ensures
            message@ == self.malformed_notice() + reason@,
    {
        let mut message = match self {
            Endpoint::CurrentWeather => "Failed to parse weather data: ".to_string(),
            Endpoint::Forecast => "Failed to parse forecast data: ".to_string(),
            Endpoint::AirQuality => "Failed to parse air quality data: ".to_string(),
        };
        message.append(reason);
        message
    }
}

impl<P> Reply<P> {
    /// The error that the reply to a request of `endpoint` is shown as, if it
    /// is a failure.
    pub open spec fn failure(self, endpoint: Endpoint) -> Option<Seq<char>> {
        match self {
            Reply::Unreachable(reason) => Some(endpoint.unreachable_notice() + reason@),
            Reply::Refused(status) => Some(endpoint.refused_notice() + status_text(status.code())),
            Reply::Malformed(reason) => Some(endpoint.malformed_notice() + reason@),
            Reply::Payload(_) => None,
        }
    }

    /// Turns the reply to a request of `endpoint` into its payload or into
    /// the error to show.
    pub fn settle(self, endpoint: Endpoint) -> (settled: Result<P, String>)
        ensures
            self matches Reply::Payload(payload) ==> settled == Ok::<P, String>(payload),
            settled matches Err(message) ==> self.failure(endpoint) == Some(message@),
            settled is Err <==> self.failure(endpoint) is Some,
    {
        match self {
            Reply::Unreachable(reason) => Err(endpoint.unreachable_error(reason.as_str())),
            Reply::Refused(status) => Err(endpoint.refused_error(status)),
            Reply::Malformed(reason) => Err(endpoint.malformed_error(reason.as_str())),
            Reply::Payload(payload) => Ok(payload),
        }
    }
}

} // verus!
