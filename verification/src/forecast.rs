//! Normalisation of a report of measurements: the description inferred for
//! the latest readings, and the grouping of an hourly or three-hourly series
//! into a daily outlook.

use vstd::prelude::*;
use crate::days::{
    date_of, date_portion, day_label, forecast_days, label_for, lemma_forecast_days, select_days,
    texts, OUTLOOK_DAYS,
};
use crate::model::{
    ForecastData, ForecastDataView, WeatherData, WeatherDataView, WeatherResponse,
    WeatherResponseView,
};
use crate::series::{
    count_of, count_on, is_highest_on, is_lowest_on, range_on, total_of, total_on,
};
use crate::sky::{classify_sample, classify_totals, sky_of, Sky};
use crate::units::Decimal;

verus! {

/// One reading of a time series. `time` starts with the date, which a space
/// separates from the time of day.
#[derive(Debug, Clone, PartialEq, Eq)]
pub struct Sample {
    pub time: String,
    pub temperature: Decimal,
    pub rain: Decimal,
    pub showers: Decimal,
    pub snowfall: Decimal,
    pub cloud_cover: Decimal,
}

/// The date of each sample.
pub open spec fn sample_dates(samples: Seq<Sample>) -> Seq<Seq<char>> {
    Seq::new(samples.len(), |i: int| date_of(samples[i].time@))
}

/// The temperature of each sample.
pub open spec fn temperatures(samples: Seq<Sample>) -> Seq<Decimal> {
    Seq::new(samples.len(), |i: int| samples[i].temperature)
}

/// The rain of each sample.
pub open spec fn rains(samples: Seq<Sample>) -> Seq<Decimal> {
    Seq::new(samples.len(), |i: int| samples[i].rain)
}

/// The showers of each sample.
pub open spec fn showers(samples: Seq<Sample>) -> Seq<Decimal> {
    Seq::new(samples.len(), |i: int| samples[i].showers)
}

/// The snowfall of each sample.
pub open spec fn snowfalls(samples: Seq<Sample>) -> Seq<Decimal> {
    Seq::new(samples.len(), |i: int| samples[i].snowfall)
}

/// The cloud cover of each sample.
pub open spec fn cloud_covers(samples: Seq<Sample>) -> Seq<Decimal> {
    Seq::new(samples.len(), |i: int| samples[i].cloud_cover)
}

/// The description inferred for `day`: from its summed snowfall, rain and
/// showers and from its mean cloud cover.
pub open spec fn sky_on(samples: Seq<Sample>, day: Seq<char>) -> Sky {
    let dates = sample_dates(samples);
    sky_of(
        total_on(dates, snowfalls(samples), day),
        total_on(dates, rains(samples), day),
        total_on(dates, showers(samples), day),
        total_on(dates, cloud_covers(samples), day),
        count_on(dates, day) as int,
    )
}

/// `entry` is the outlook's entry at `position` for `day`: it carries the
/// label of that position, the highest and lowest temperature of the day's
/// samples, and the description and icon inferred for the day.
pub open spec fn summarizes(
    samples: Seq<Sample>,
    day: Seq<char>,
    position: int,
    entry: ForecastDataView,
) -> bool {
    &&& entry.date == day_label(position)
    &&& is_highest_on(sample_dates(samples), temperatures(samples), day, entry.temperature_max)
    &&& is_lowest_on(sample_dates(samples), temperatures(samples), day, entry.temperature_min)
    &&& entry.description == sky_on(samples, day).label()
    &&& entry.icon == sky_on(samples, day).icon()
}

/// A series split into its columns.
struct Columns {
    dates: Vec<String>,
    temperature: Vec<Decimal>,
    rain: Vec<Decimal>,
    showers: Vec<Decimal>,
    snowfall: Vec<Decimal>,
    cloud_cover: Vec<Decimal>,
}

fn columns_of(samples: &Vec<Sample>) -> (columns: Columns)
    ensures
        texts(columns.dates@) == sample_dates(samples@),
        columns.temperature@ == temperatures(samples@),
        columns.rain@ == rains(samples@),
        columns.showers@ == showers(samples@),
        columns.snowfall@ == snowfalls(samples@),
        columns.cloud_cover@ == cloud_covers(samples@),
{
    let mut columns = Columns {
        dates: Vec::new(),
        temperature: Vec::new(),
        rain: Vec::new(),
        showers: Vec::new(),
        snowfall: Vec::new(),
        cloud_cover: Vec::new(),
    };
    let mut i: usize = 0;
    while i < samples.len()
        invariant
            i <= samples.len(),
            columns.dates.len() == i,
            columns.temperature.len() == i,
            columns.rain.len() == i,
            columns.showers.len() == i,
            columns.snowfall.len() == i,
            columns.cloud_cover.len() == i,
            forall|j: int| 0 <= j < i ==> columns.dates@[j]@ == date_of(samples@[j].time@),
            forall|j: int| 0 <= j < i ==> columns.temperature@[j] == samples@[j].temperature,
            forall|j: int| 0 <= j < i ==> columns.rain@[j] == samples@[j].rain,
            forall|j: int| 0 <= j < i ==> columns.showers@[j] == samples@[j].showers,
            forall|j: int| 0 <= j < i ==> columns.snowfall@[j] == samples@[j].snowfall,
            forall|j: int| 0 <= j < i ==> columns.cloud_cover@[j] == samples@[j].cloud_cover,
        decreases samples.len() - i,
    {
        let sample = &samples[i];
        columns.dates.push(date_portion(sample.time.as_str()));
        columns.temperature.push(sample.temperature);
        columns.rain.push(sample.rain);
        columns.showers.push(sample.showers);
        columns.snowfall.push(sample.snowfall);
        columns.cloud_cover.push(sample.cloud_cover);
        i += 1;
    }
    columns
}

/// Groups a series into the outlook for the days after the first.
///
/// Samples are grouped by the date portion of their timestamps. The first
/// date of the series is the current day and is left out; each of the next
/// distinct dates, in the order in which the series reaches them and up to
/// three, gives one entry.
pub fn group_forecast(samples: &Vec<Sample>) -> (outlook: Vec<ForecastData>)
    ensures
        outlook@.len() == forecast_days(sample_dates(samples@)).len(),
        outlook@.len() <= OUTLOOK_DAYS,
        forall|k: int|
            0 <= k < outlook@.len() ==> summarizes(
                samples@,
                forecast_days(sample_dates(samples@))[k],
                k,
                #[trigger] outlook@[k]@,
            ),
{
    let columns = columns_of(samples);
    let days = select_days(&columns.dates);
    let ghost dates = sample_dates(samples@);
    proof {
        lemma_forecast_days(dates);
    }
    let mut outlook: Vec<ForecastData> = Vec::new();
    let mut k: usize = 0;
    while k < days.len()
        invariant
            k <= days.len(),
            outlook.len() == k,
            dates == sample_dates(samples@),
            texts(columns.dates@) == dates,
            columns.temperature@ == temperatures(samples@),
            columns.rain@ == rains(samples@),
            columns.showers@ == showers(samples@),
            columns.snowfall@ == snowfalls(samples@),
            columns.cloud_cover@ == cloud_covers(samples@),
            texts(days@) == forecast_days(dates),
            forall|day: Seq<char>| forecast_days(dates).contains(day) ==> dates.contains(day),
            forall|j: int|
                0 <= j < k ==> summarizes(
                    samples@,
                    forecast_days(dates)[j],
                    j,
                    #[trigger] outlook@[j]@,
                ),
        decreases days.len() - k,
    {
        let day = &days[k];
        proof {
            assert(texts(days@)[k as int] == day@);
        }
        let (high, low) = range_on(&columns.dates, &columns.temperature, day);
        let sky = classify_totals(
            total_of(&columns.dates, &columns.snowfall, day),
            total_of(&columns.dates, &columns.rain, day),
            total_of(&columns.dates, &columns.showers, day),
            total_of(&columns.dates, &columns.cloud_cover, day),
            count_of(&columns.dates, day),
        );
        outlook.push(
            ForecastData {
                date: label_for(k),
                temperature_max: high,
                temperature_min: low,
                description: sky.name(),
                icon: sky.glyph(),
            },
        );
        k += 1;
    }
    outlook
}

/// A day on which any snow fell is shown as snow, whatever rain, showers and
/// cloud cover were measured on it.
pub proof fn lemma_snowy_day(
    samples: Seq<Sample>,
    day: Seq<char>,
    position: int,
    entry: ForecastDataView,
)
    requires
        summarizes(samples, day, position, entry),
        total_on(sample_dates(samples), snowfalls(samples), day) > 0,
    ensures
        entry.description == Sky::Snow.label(),
        entry.icon == Sky::Snow.icon(),
{
}

/// A day without snowfall on which any rain or showers fell is shown as
/// rain, whatever cloud cover was measured on it.
pub proof fn lemma_rainy_day(
    samples: Seq<Sample>,
    day: Seq<char>,
    position: int,
    entry: ForecastDataView,
)
    requires
        summarizes(samples, day, position, entry),
        total_on(sample_dates(samples), snowfalls(samples), day) <= 0,
        total_on(sample_dates(samples), rains(samples), day) > 0 || total_on(
            sample_dates(samples),
            showers(samples),
            day,
        ) > 0,
    ensures
        entry.description == Sky::Rain.label(),
        entry.icon == Sky::Rain.icon(),
{
}

/// What a provider of measurements reports for one place: the latest
/// readings, and the series that the outlook is grouped from.
#[derive(Debug, Clone, PartialEq, Eq)]
pub struct SeriesReport {
    pub city: String,
    pub country: String,
    pub temperature: Decimal,
    pub humidity: i32,
    pub wind_speed: Decimal,
    pub rain: Decimal,
    pub showers: Decimal,
    pub snowfall: Decimal,
    pub cloud_cover: Decimal,
    pub samples: Vec<Sample>,
}

impl SeriesReport {
    /// The description inferred for the latest readings.
    pub open spec fn sky(&self) -> Sky {
        sky_of(
            self.snowfall as int,
            self.rain as int,
            self.showers as int,
            self.cloud_cover as int,
            1,
        )
    }

    /// The current conditions that the report gives: its latest readings
    /// under the description and icon inferred for them.
    pub open spec fn conditions(&self) -> WeatherDataView {
        WeatherDataView {
            temperature: self.temperature as int,
            humidity: self.humidity as int,
            wind_speed: self.wind_speed as int,
            description: self.sky().label(),
            icon: self.sky().icon(),
            city: self.city@,
            country: self.country@,
        }
    }

    /// `response` is the weather that the report normalises to: its current
    /// conditions, and one entry for each day of the outlook of its series.
    pub open spec fn is_shown_as(&self, response: WeatherResponseView) -> bool {
        let days = forecast_days(sample_dates(self.samples@));
        &&& response.current == self.conditions()
        &&& response.forecast.len() == days.len()
        &&& forall|k: int|
            0 <= k < days.len() ==> summarizes(
                self.samples@,
                days[k],
                k,
                #[trigger] response.forecast[k],
            )
    }

    /// Normalises the report: the current conditions, and the outlook grouped
    /// from the series.
    pub fn into_weather(self) -> (response: WeatherResponse)
        ensures
            self.is_shown_as(response@),
            response.forecast@.len() <= OUTLOOK_DAYS,
    {
        let sky = classify_sample(self.snowfall, self.rain, self.showers, self.cloud_cover);
        let forecast = group_forecast(&self.samples);
        WeatherResponse {
            current: WeatherData {
                temperature: self.temperature,
                humidity: self.humidity,
                wind_speed: self.wind_speed,
                description: sky.name(),
                icon: sky.glyph(),
                city: self.city,
                country: self.country,
            },
            forecast,
        }
    }
}

/// In the weather that a report of measurements normalises to, snowfall
/// outranks everything else: latest readings with any snowfall are shown as
/// snow, and so is each day of the outlook on which any snow fell, whatever
/// rain, showers and cloud cover were measured.
pub proof fn lemma_snow_first_in_weather(report: SeriesReport, response: WeatherResponseView)
    requires
        report.is_shown_as(response),
    ensures
        report.snowfall > 0 ==> response.current.description == Sky::Snow.label()
            && response.current.icon == Sky::Snow.icon(),
        forall|k: int|
            0 <= k < response.forecast.len() && total_on(
                sample_dates(report.samples@),
                snowfalls(report.samples@),
                forecast_days(sample_dates(report.samples@))[k],
            ) > 0 ==> (#[trigger] response.forecast[k]).description == Sky::Snow.label()
                && response.forecast[k].icon == Sky::Snow.icon(),
{
}

/// In the weather that a report of measurements normalises to, rain and
/// showers outrank cloud cover: without snowfall, latest readings with any
/// rain or showers are shown as rain, and so is each day of the outlook on
/// which any rain or showers fell, whatever cloud cover was measured.
pub proof fn lemma_rain_before_clouds_in_weather(
    report: SeriesReport,
    response: WeatherResponseView,
)
    requires
        report.is_shown_as(response),
    ensures
        report.snowfall <= 0 && (report.rain > 0 || report.showers > 0)
            ==> response.current.description == Sky::Rain.label() && response.current.icon
            == Sky::Rain.icon(),
        forall|k: int|
            0 <= k < response.forecast.len() && total_on(
                sample_dates(report.samples@),
                snowfalls(report.samples@),
                forecast_days(sample_dates(report.samples@))[k],
            ) <= 0 && (total_on(
                sample_dates(report.samples@),
                rains(report.samples@),
                forecast_days(sample_dates(report.samples@))[k],
            ) > 0 || total_on(
                sample_dates(report.samples@),
                showers(report.samples@),
                forecast_days(sample_dates(report.samples@))[k],
            ) > 0) ==> (#[trigger] response.forecast[k]).description == Sky::Rain.label()
                && response.forecast[k].icon == Sky::Rain.icon(),
{
}

} // verus!
