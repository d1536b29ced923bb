//! What the weather provider answers, in the two shapes the provider has used.
//!
//! A decoded body is handed to the library as one of these values. The nested shape may
//! be decoded and still hold no conditions at all; [`UpstreamResponse::readings`] says when
//! a response holds them, and which.

use vstd::prelude::*;
use crate::reading::Reading;

verus! {

/// The five conditions of one interval, under the names the provider gives them.
#[derive(Clone, Copy, Debug, PartialEq, Eq, Structural)]
pub struct Values {
    pub temperature: Reading,
    pub temperature_apparent: Reading,
    pub humidity: Reading,
    pub wind_speed: Reading,
    pub precipitation_intensity: Reading,
}

/// One interval of a timeline.
#[derive(Clone, Debug)]
pub struct Interval {
    pub start_time: String,
    pub values: Values,
}

/// One timeline: the intervals of one time step.
#[derive(Clone, Debug)]
pub struct Timeline {
    pub timestep: String,
    pub start_time: String,
    pub end_time: String,
    pub intervals: Vec<Interval>,
}

/// The payload of the nested shape.
#[derive(Clone, Debug)]
pub struct Data {
    pub timelines: Vec<Timeline>,
}

/// The nested shape: the conditions are the values of the first interval of the first
/// timeline.
#[derive(Clone, Debug)]
pub struct TomorrowWeatherApiResponse {
    pub data: Data,
}

/// One condition of the flat shape: an object with a single numeric value.
#[derive(Clone, Copy, Debug, PartialEq, Eq, Structural)]
pub struct Measurement {
    pub value: Reading,
}

/// The flat shape: one object for each of the five conditions.
#[derive(Clone, Copy, Debug, PartialEq, Eq, Structural)]
pub struct ClimacellWeatherApiResponse {
    pub temp: Measurement,
    pub feels_like: Measurement,
    pub wind_speed: Measurement,
    pub humidity: Measurement,
    pub precipitation: Measurement,
}

/// A decoded response, in the shape it came in.
#[derive(Clone, Debug)]
pub enum UpstreamResponse {
    Flat(ClimacellWeatherApiResponse),
    Nested(TomorrowWeatherApiResponse),
}

/// The five conditions, under the names of the gauges that publish them.
#[derive(Clone, Copy, Debug, PartialEq, Eq, Structural)]
pub struct WeatherReadings {
    pub temperature: Reading,
    pub temperature_feels_like: Reading,
    pub wind_speed: Reading,
    pub humidity: Reading,
    pub precipitation: Reading,
}

impl Values {
    /// Each condition under its gauge's name, unchanged.
    pub open spec fn spec_readings(self) -> WeatherReadings {
        WeatherReadings {
            temperature: self.temperature,
            temperature_feels_like: self.temperature_apparent,
            wind_speed: self.wind_speed,
            humidity: self.humidity,
            precipitation: self.precipitation_intensity,
        }
    }

    /// Each condition under its gauge's name, unchanged.
    #[verifier::when_used_as_spec(spec_readings)]
    pub fn readings(self) -> (r: WeatherReadings)
        ensures
            r == self.spec_readings(),
    {
        WeatherReadings {
            temperature: self.temperature,
            temperature_feels_like: self.temperature_apparent,
            wind_speed: self.wind_speed,
            humidity: self.humidity,
            precipitation: self.precipitation_intensity,
        }
    }
}

impl TomorrowWeatherApiResponse {
    /// A response holds conditions when it has a first timeline and that timeline has a
    /// first interval.
    pub open spec fn has_current_values(&self) -> bool {
        self.data.timelines@.len() > 0 && self.data.timelines@[0].intervals@.len() > 0
    }

    /// The values of the first interval of the first timeline, where there is one.
    pub open spec fn spec_current_values(&self) -> Option<Values> {
        if self.has_current_values() {
            Some(self.data.timelines@[0].intervals@[0].values)
        } else {
            None
        }
    }

    /// The values of the first interval of the first timeline; `None` where the response has
    /// no timeline, or its first timeline has no interval.
    #[verifier::when_used_as_spec(spec_current_values)]
    pub fn current_values(&self) -> (r: Option<Values>)
        ensures
            r == self.spec_current_values(),
            r is Some <==> self.has_current_values(),
    {
        if self.data.timelines.len() < 1 {
            None
        } else if self.data.timelines[0].intervals.len() < 1 {
            None
        } else {
            Some(self.data.timelines[0].intervals[0].values)
        }
    }
}

impl ClimacellWeatherApiResponse {
    /// The value of each of the five objects, under its gauge's name, unchanged.
    pub open spec fn spec_readings(self) -> WeatherReadings {
        WeatherReadings {
            temperature: self.temp.value,
            temperature_feels_like: self.feels_like.value,
            wind_speed: self.wind_speed.value,
            humidity: self.humidity.value,
            precipitation: self.precipitation.value,
        }
    }

    /// The value of each of the five objects, under its gauge's name, unchanged.
    #[verifier::when_used_as_spec(spec_readings)]
    pub fn readings(self) -> (r: WeatherReadings)
        ensures
            r == self.spec_readings(),
    {
        WeatherReadings {
            temperature: self.temp.value,
            temperature_feels_like: self.feels_like.value,
            wind_speed: self.wind_speed.value,
            humidity: self.humidity.value,
            precipitation: self.precipitation.value,
        }
    }
}

impl UpstreamResponse {
    /// A flat response always holds the five conditions; a nested one holds them when it
    /// has a first interval in its first timeline.
    pub open spec fn is_well_formed(&self) -> bool {
        match self {
            UpstreamResponse::Flat(_) => true,
            UpstreamResponse::Nested(nested) => nested.has_current_values(),
        }
    }

    /// The conditions that the response holds, where it holds any.
    pub open spec fn spec_readings(&self) -> Option<WeatherReadings> {
        match self {
            UpstreamResponse::Flat(flat) => Some(flat.spec_readings()),
            UpstreamResponse::Nested(nested) => match nested.spec_current_values() {
                Some(values) => Some(values.spec_readings()),
                None => None,
            },
        }
    }

    /// The conditions that the response holds; `None` exactly where a nested response is
    /// empty at either level.
    #[verifier::when_used_as_spec(spec_readings)]
    pub fn readings(&self) -> (r: Option<WeatherReadings>)
        ensures
            r == self.spec_readings(),
            r is Some <==> self.is_well_formed(),
    {
        match self {
            UpstreamResponse::Flat(flat) => Some(flat.readings()),
            UpstreamResponse::Nested(nested) => match nested.current_values() {
                Some(values) => Some(values.readings()),
                None => None,
            },
        }
    }
}

} // verus!
