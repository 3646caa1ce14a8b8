//! Backend command logic of a desktop weather dashboard: request planning,
//! reply handling, response normalisation, forecast grouping and air-quality
//! categorisation, all stated over plain values and verified.

pub mod airvisual;
pub mod aqi;
pub mod commands;
pub mod days;
pub mod forecast;
pub mod mock;
pub mod model;
pub mod openweather;
pub mod reply;
pub mod request;
pub mod series;
pub mod sky;
pub mod status;
pub mod units;
