//! The six gauges and what a scrape does to them.

use vstd::prelude::*;
use crate::reading::Reading;
use crate::response::WeatherReadings;
use crate::scrape::ScrapeError;

verus! {

/// One of the six gauges. Each is a single series without labels.
#[derive(Clone, Copy, Debug, PartialEq, Eq, Structural)]
pub enum Metric {
    Temperature,
    TemperatureFeelsLike,
    WindSpeed,
    Humidity,
    Precipitation,
    ScrapeState,
}

impl Metric {
    /// The name under which the gauge is published.
    pub open spec fn spec_name(self) -> Seq<char> {
        match self {
            Metric::Temperature => "climacell_temperature"@,
            Metric::TemperatureFeelsLike => "climacell_temperature_feels_like"@,
            Metric::WindSpeed => "climacell_wind_speed"@,
            Metric::Humidity => "climacell_humidity"@,
            Metric::Precipitation => "climacell_precipitation"@,
            Metric::ScrapeState => "climacell_state"@,
        }
    }

    /// The description that is published with the gauge.
    pub open spec fn spec_help(self) -> Seq<char> {
        match self {
            Metric::Temperature => "Temperature"@,
            Metric::TemperatureFeelsLike => "Apparent Temperature"@,
            Metric::WindSpeed => "Wind speed"@,
            Metric::Humidity => "Humidity"@,
            Metric::Precipitation => "Precipitation"@,
            Metric::ScrapeState => "Scrape state"@,
        }
    }

    /// The six gauges, each once.
    pub open spec fn spec_all() -> Seq<Metric> {
        seq![
            Metric::Temperature,
            Metric::TemperatureFeelsLike,
            Metric::WindSpeed,
            Metric::Humidity,
            Metric::Precipitation,
            Metric::ScrapeState,
        ]
    }

    /// The name under which the gauge is published.
    pub fn name(self) -> (name: &'static str)
        ensures
            name@ == self.spec_name(),
    {
        match self {
            Metric::Temperature => "climacell_temperature",
            Metric::TemperatureFeelsLike => "climacell_temperature_feels_like",
            Metric::WindSpeed => "climacell_wind_speed",
            Metric::Humidity => "climacell_humidity",
            Metric::Precipitation => "climacell_precipitation",
            Metric::ScrapeState => "climacell_state",
        }
    }

    /// The description that is published with the gauge.
    pub fn help(self) -> (help: &'static str)
        ensures
            help@ == self.spec_help(),
    {
        match self {
            Metric::Temperature => "Temperature",
            Metric::TemperatureFeelsLike => "Apparent Temperature",
            Metric::WindSpeed => "Wind speed",
            Metric::Humidity => "Humidity",
            Metric::Precipitation => "Precipitation",
            Metric::ScrapeState => "Scrape state",
        }
    }

    /// The six gauges, each once.
    pub fn all() -> (all: [Metric; 6])
        ensures
            all@ == Metric::spec_all(),
    {
        let all = [
            Metric::Temperature,
            Metric::TemperatureFeelsLike,
            Metric::WindSpeed,
            Metric::Humidity,
            Metric::Precipitation,
            Metric::ScrapeState,
        ];
        assert(all@ =~= Metric::spec_all());
        all
    }
}

/// No two gauges are published under one name.
pub proof fn lemma_names_are_distinct(a: Metric, b: Metric)
    requires
        a != b,
    ensures
        a.spec_name() != b.spec_name(),
{
    reveal_strlit("climacell_temperature");
    reveal_strlit("climacell_temperature_feels_like");
    reveal_strlit("climacell_wind_speed");
    reveal_strlit("climacell_humidity");
    reveal_strlit("climacell_precipitation");
    reveal_strlit("climacell_state");
    assert(a.spec_name().len() != b.spec_name().len());
}

/// Every gauge stands in the list of all gauges.
pub proof fn lemma_all_is_complete(m: Metric)
    ensures
        Metric::spec_all().contains(m),
{
    let all = Metric::spec_all();
    match m {
        Metric::Temperature => assert(all[0] == m),
        Metric::TemperatureFeelsLike => assert(all[1] == m),
        Metric::WindSpeed => assert(all[2] == m),
        Metric::Humidity => assert(all[3] == m),
        Metric::Precipitation => assert(all[4] == m),
        Metric::ScrapeState => assert(all[5] == m),
    }
}

/// The values of the six gauges: the conditions last observed, and whether the last scrape
/// succeeded.
///
/// The conditions are those of the last scrape that succeeded. A scrape that fails leaves
/// them as they are, so after a failure they are stale, and only the scrape-state gauge
/// tells.
#[derive(Clone, Copy, Debug, PartialEq, Eq, Structural)]
pub struct MetricSet {
    pub weather: WeatherReadings,
    pub last_scrape_succeeded: bool,
}

impl MetricSet {
    /// The value of a gauge. The scrape-state gauge is `1.0` after a scrape that succeeded
    /// and `0.0` otherwise.
    pub open spec fn spec_value(self, metric: Metric) -> Reading {
        match metric {
            Metric::Temperature => self.weather.temperature,
            Metric::TemperatureFeelsLike => self.weather.temperature_feels_like,
            Metric::WindSpeed => self.weather.wind_speed,
            Metric::Humidity => self.weather.humidity,
            Metric::Precipitation => self.weather.precipitation,
            Metric::ScrapeState => if self.last_scrape_succeeded {
                Reading::spec_one()
            } else {
                Reading::spec_zero()
            },
        }
    }

    /// The gauges before the first scrape: all six at `0.0`.
    pub open spec fn spec_new() -> MetricSet {
        MetricSet {
            weather: WeatherReadings {
                temperature: Reading::spec_zero(),
                temperature_feels_like: Reading::spec_zero(),
                wind_speed: Reading::spec_zero(),
                humidity: Reading::spec_zero(),
                precipitation: Reading::spec_zero(),
            },
            last_scrape_succeeded: false,
        }
    }

    /// The gauges after a scrape with the given outcome: a success overwrites the five
    /// conditions and sets the scrape state, a failure of any kind clears the scrape state and
    /// touches nothing else.
    pub open spec fn recorded(self, outcome: Result<WeatherReadings, ScrapeError>) -> MetricSet {
        match outcome {
            Ok(readings) => MetricSet { weather: readings, last_scrape_succeeded: true },
            Err(_) => MetricSet { weather: self.weather, last_scrape_succeeded: false },
        }
    }

    /// The gauges before the first scrape: all six at `0.0`.
    #[verifier::when_used_as_spec(spec_new)]
    pub fn new() -> (m: MetricSet)
        ensures
            m == MetricSet::spec_new(),
            forall|metric: Metric| #[trigger] m.spec_value(metric) == Reading::spec_zero(),
    {
        let zero = Reading::zero();
        MetricSet {
            weather: WeatherReadings {
                temperature: zero,
                temperature_feels_like: zero,
                wind_speed: zero,
                humidity: zero,
                precipitation: zero,
            },
            last_scrape_succeeded: false,
        }
    }

    /// The value of a gauge.
    #[verifier::when_used_as_spec(spec_value)]
    pub fn value(self, metric: Metric) -> (r: Reading)
        ensures
            r == self.spec_value(metric),
    {
        match metric {
            Metric::Temperature => self.weather.temperature,
            Metric::TemperatureFeelsLike => self.weather.temperature_feels_like,
            Metric::WindSpeed => self.weather.wind_speed,
            Metric::Humidity => self.weather.humidity,
            Metric::Precipitation => self.weather.precipitation,
            Metric::ScrapeState => if self.last_scrape_succeeded {
                Reading::one()
            } else {
                Reading::zero()
            },
        }
    }

    /// Takes in the outcome of one scrape.
    pub fn record(&mut self, outcome: &Result<WeatherReadings, ScrapeError>)
        ensures
            *final(self) == old(self).recorded(*outcome),
    {
        match outcome {
            Ok(readings) => {
                self.last_scrape_succeeded = true;
                self.weather = *readings;
            },
            Err(_) => {
                self.last_scrape_succeeded = false;
            },
        }
    }
}

} // verus!
