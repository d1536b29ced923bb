//! The decisions of a weather metrics exporter.
//!
//! On every scrape the exporter asks a weather provider for the current conditions at one
//! place and publishes them as six gauges. This crate holds what is decided on the way: the
//! request that is sent, what a response is worth, and what each outcome does to the gauges.
//! Sending the request, decoding the body and serving the gauges are left to the caller.

pub mod config;
pub mod metrics;
pub mod percent;
pub mod reading;
pub mod request;
pub mod response;
pub mod scrape;

pub use config::Config;
pub use metrics::{Metric, MetricSet};
pub use percent::percent_encode;
pub use reading::Reading;
pub use request::{request_url, upstream_request, UpstreamRequest};
pub use response::{
    ClimacellWeatherApiResponse, Data, Interval, Measurement, Timeline,
    TomorrowWeatherApiResponse, UpstreamResponse, Values, WeatherReadings,
};
pub use scrape::{FetchError, ScrapeError, ScrapeReply};
