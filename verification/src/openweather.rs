//! The OpenWeatherMap payloads and their normalisation.

use vstd::prelude::*;
use crate::days::{
    date_of, date_portion, day_label, forecast_days, label_for, lemma_forecast_days, select_days,
    texts, OUTLOOK_DAYS,
};
use crate::model::{ForecastData, ForecastDataView, WeatherData, WeatherDataView};
use crate::series::{first_on, is_highest_on, is_lowest_on, opens_day, range_on};
use crate::units::Decimal;

verus! {

/// The `main` object of a report.
#[derive(Debug, Clone, PartialEq, Eq)]
pub struct OpenWeatherMain {
    pub temp: Decimal,
    pub humidity: i32,
}

/// One element of the `weather` array of a report.
#[derive(Debug, Clone, PartialEq, Eq)]
pub struct OpenWeatherWeather {
    pub description: String,
    pub icon: String,
}

/// The `wind` object of a report.
#[derive(Debug, Clone, PartialEq, Eq)]
pub struct OpenWeatherWind {
    pub speed: Decimal,
}

/// The `sys` object of a report.
#[derive(Debug, Clone, PartialEq, Eq)]
pub struct OpenWeatherSys {
    pub country: String,
}

/// The report of current conditions.
#[derive(Debug, Clone, PartialEq, Eq)]
pub struct OpenWeatherResponse {
    pub main: OpenWeatherMain,
    pub weather: Vec<OpenWeatherWeather>,
    pub wind: OpenWeatherWind,
    pub name: String,
    pub sys: OpenWeatherSys,
}

/// One three-hourly item of the five-day forecast.
#[derive(Debug, Clone, PartialEq, Eq)]
pub struct OpenWeatherForecastItem {
    pub dt_txt: String,
    pub main: OpenWeatherMain,
    pub weather: Vec<OpenWeatherWeather>,
}

/// The five-day forecast.
#[derive(Debug, Clone, PartialEq, Eq)]
pub struct OpenWeatherForecastResponse {
    pub list: Vec<OpenWeatherForecastItem>,
}

impl OpenWeatherResponse {
    /// The report names its conditions: the `weather` array is not empty.
    pub open spec fn is_described(&self) -> bool {
        self.weather@.len() > 0
    }

    /// Whether the report names its conditions.
    pub fn has_description(&self) -> (described: bool)
        ensures
            described == self.is_described(),
    {
        self.weather.len() > 0
    }

    /// The current conditions that the report gives: its readings, the first
    /// element of its `weather` array, its place name and country.
    pub open spec fn conditions(&self) -> WeatherDataView {
        WeatherDataView {
            temperature: self.main.temp as int,
            humidity: self.main.humidity as int,
            wind_speed: self.wind.speed as int,
            description: self.weather@[0].description@,
            icon: self.weather@[0].icon@,
            city: self.name@,
            country: self.sys.country@,
        }
    }

    /// Normalises the report, if it names its conditions.
    pub fn into_weather_data(self) -> (current: Option<WeatherData>)
        ensures
            current is Some <==> self.is_described(),
            current matches Some(data) ==> data@ == self.conditions(),
    {
        if self.weather.len() == 0 {
            return None;
        }
        let description = self.weather[0].description.clone();
        let icon = self.weather[0].icon.clone();
        Some(
            WeatherData {
                temperature: self.main.temp,
                humidity: self.main.humidity,
                wind_speed: self.wind.speed,
                description,
                icon,
                city: self.name,
                country: self.sys.country,
            },
        )
    }
}

/// The date of each item.
pub open spec fn item_dates(items: Seq<OpenWeatherForecastItem>) -> Seq<Seq<char>> {
    Seq::new(items.len(), |i: int| date_of(items[i].dt_txt@))
}

/// The temperature of each item.
pub open spec fn item_temperatures(items: Seq<OpenWeatherForecastItem>) -> Seq<Decimal> {
    Seq::new(items.len(), |i: int| items[i].main.temp)
}

/// `entry` is the outlook's entry at `position` for `day`: it carries the
/// label of that position, the highest and lowest temperature of the day's
/// items, and the description and icon that the day's first item reports.
pub open spec fn reports(
    items: Seq<OpenWeatherForecastItem>,
    day: Seq<char>,
    position: int,
    entry: ForecastDataView,
) -> bool {
    &&& entry.date == day_label(position)
    &&& is_highest_on(item_dates(items), item_temperatures(items), day, entry.temperature_max)
    &&& is_lowest_on(item_dates(items), item_temperatures(items), day, entry.temperature_min)
    &&& exists|first: int|
        {
            &&& opens_day(item_dates(items), day, first)
            &&& items[first].weather@.len() > 0
            &&& entry.description == #[trigger] items[first].weather@[0].description@
            &&& entry.icon == items[first].weather@[0].icon@
        }
}

/// `entries` is the outlook of a forecast with these items: one entry for
/// each day of the outlook, in the order of the days.
pub open spec fn is_outlook_of(
    items: Seq<OpenWeatherForecastItem>,
    entries: Seq<ForecastData>,
) -> bool {
    let days = forecast_days(item_dates(items));
    &&& entries.len() == days.len()
    &&& forall|k: int| 0 <= k < entries.len() ==> reports(items, days[k], k, #[trigger] entries[k]@)
}

/// What is said of a payload that decoded but does not name the weather
/// conditions where they are needed.
pub open spec fn missing_conditions() -> Seq<char> {
    "missing weather conditions"@
}

/// What is said of a payload that does not name the weather conditions.
pub fn missing_conditions_reason() -> (reason: &'static str)
    ensures
        reason@ == missing_conditions(),
{
    "missing weather conditions"
}

impl OpenWeatherForecastResponse {
    /// Every day of the outlook is described: the first item of each of them
    /// has a non-empty `weather` array.
    pub open spec fn is_described(&self) -> bool {
        let dates = item_dates(self.list@);
        forall|i: int|
            0 <= i < self.list@.len() && forecast_days(dates).contains(dates[i]) && opens_day(
                dates,
                dates[i],
                i,
            ) ==> (#[trigger] self.list@[i]).weather@.len() > 0
    }

    fn dates(&self) -> (dates: Vec<String>)
        ensures
            texts(dates@) == item_dates(self.list@),
    {
        let mut dates: Vec<String> = Vec::new();
        let mut i: usize = 0;
        while i < self.list.len()
            invariant
                i <= self.list.len(),
                dates.len() == i,
                forall|j: int| 0 <= j < i ==> dates@[j]@ == date_of(self.list@[j].dt_txt@),
            decreases self.list.len() - i,
        {
            dates.push(date_portion(self.list[i].dt_txt.as_str()));
            i += 1;
        }
        dates
    }

    fn temperatures(&self) -> (temperatures: Vec<Decimal>)
        ensures
            temperatures@ == item_temperatures(self.list@),
    {
        let mut temperatures: Vec<Decimal> = Vec::new();
        let mut i: usize = 0;
        while i < self.list.len()
            invariant
                i <= self.list.len(),
                temperatures.len() == i,
                forall|j: int| 0 <= j < i ==> temperatures@[j] == self.list@[j].main.temp,
            decreases self.list.len() - i,
        {
            temperatures.push(self.list[i].main.temp);
            i += 1;
        }
        temperatures
    }

    /// Whether every day of the outlook is described.
    pub fn has_descriptions(&self) -> (described: bool)
        ensures
            described == self.is_described(),
    {
        let dates = self.dates();
        let days = select_days(&dates);
        let ghost all = item_dates(self.list@);
        proof {
            lemma_forecast_days(all);
        }
        let mut k: usize = 0;
        while k < days.len()
            invariant
                k <= days.len(),
                all == item_dates(self.list@),
                texts(dates@) == all,
                texts(days@) == forecast_days(all),
                forall|day: Seq<char>| forecast_days(all).contains(day) ==> all.contains(day),
                forall|j: int, i: int|
                    0 <= j < k && #[trigger] opens_day(all, forecast_days(all)[j], i)
                        ==> self.list@[i].weather@.len() > 0,
            decreases days.len() - k,
        {
            let day = &days[k];
            proof {
                assert(texts(days@)[k as int] == day@);
            }
            let first = first_on(&dates, day);
            if self.list[first].weather.len() == 0 {
                return false;
            }
            assert forall|i: int| #[trigger]
                opens_day(all, forecast_days(all)[k as int], i) implies self.list@[i].weather@.len()
                > 0 by {
                assert(i == first);
            }
            k += 1;
        }
        proof {
            assert forall|i: int|
                0 <= i < self.list@.len() && forecast_days(all).contains(all[i]) && opens_day(
                    all,
                    all[i],
                    i,
                ) implies (#[trigger] self.list@[i]).weather@.len() > 0 by {
                let j = choose|j: int|
                    0 <= j < forecast_days(all).len() && forecast_days(all)[j] == all[i];
                assert(opens_day(all, forecast_days(all)[j], i));
            }
        }
        true
    }

    /// Groups the forecast into the outlook for the days after the first, if
    /// every day of the outlook is described.
    ///
    /// Items are grouped by the date portion of `dt_txt`. The first date of
    /// the list is the current day and is left out; each of the next distinct
    /// dates, in the order in which the list reaches them and up to three,
    /// gives one entry.
    pub fn outlook(&self) -> (outlook: Option<Vec<ForecastData>>)
        ensures
            outlook is Some <==> self.is_described(),
            outlook matches Some(entries) ==> is_outlook_of(self.list@, entries@),
            outlook matches Some(entries) ==> entries@.len() <= OUTLOOK_DAYS,
    {
        if !self.has_descriptions() {
            return None;
        }
        let dates = self.dates();
        let temperatures = self.temperatures();
        let days = select_days(&dates);
        let ghost all = item_dates(self.list@);
        proof {
            lemma_forecast_days(all);
        }
        let mut outlook: Vec<ForecastData> = Vec::new();
        let mut k: usize = 0;
        while k < days.len()
            invariant
                k <= days.len(),
                outlook.len() == k,
                self.is_described(),
                all == item_dates(self.list@),
                texts(dates@) == all,
                temperatures@ == item_temperatures(self.list@),
                texts(days@) == forecast_days(all),
                forall|day: Seq<char>| forecast_days(all).contains(day) ==> all.contains(day),
                forall|j: int|
                    0 <= j < k ==> reports(
                        self.list@,
                        forecast_days(all)[j],
                        j,
                        #[trigger] outlook@[j]@,
                    ),
            decreases days.len() - k,
        {
            let day = &days[k];
            proof {
                assert(texts(days@)[k as int] == day@);
            }
            let (high, low) = range_on(&dates, &temperatures, day);
            let first = first_on(&dates, day);
            let reported = &self.list[first].weather[0];
            outlook.push(
                ForecastData {
                    date: label_for(k),
                    temperature_max: high,
                    temperature_min: low,
                    description: reported.description.clone(),
                    icon: reported.icon.clone(),
                },
            );
            k += 1;
        }
        Some(outlook)
    }
}

} // verus!
