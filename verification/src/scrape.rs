//! One scrape: from what the fetch brought back to the gauges and the reply.

use vstd::prelude::*;
use crate::metrics::{Metric, MetricSet};
use crate::reading::Reading;
use crate::response::{TomorrowWeatherApiResponse, UpstreamResponse, WeatherReadings};

verus! {

/// Why a fetch brought back no response.
#[derive(Clone, Copy, Debug, PartialEq, Eq, Structural)]
pub enum FetchError {
    /// The request could not be sent, or no answer came.
    Transport,
    /// The body is not a response of the expected shape.
    Decode,
}

/// Why a scrape failed.
#[derive(Clone, Copy, Debug, PartialEq, Eq, Structural)]
pub enum ScrapeError {
    /// The request could not be sent, or no answer came.
    Transport,
    /// The body is not a response of the expected shape.
    Decode,
    /// The response was decoded and holds no conditions: it has no timeline, or its first
    /// timeline has no interval.
    StructuralEmpty,
}

/// The status of every reply to a scrape.
pub const REPLY_STATUS: u16 = 200;

/// The reply to a scrape.
#[derive(Clone, Debug)]
pub struct ScrapeReply {
    pub status: u16,
    pub content_type: String,
    pub body: String,
}

/// What a fetch is worth: the conditions of a well-formed response, and otherwise the reason
/// why there are none.
pub open spec fn spec_outcome(fetched: Result<UpstreamResponse, FetchError>) -> Result<
    WeatherReadings,
    ScrapeError,
> {
    match fetched {
        Err(FetchError::Transport) => Err(ScrapeError::Transport),
        Err(FetchError::Decode) => Err(ScrapeError::Decode),
        Ok(response) => match response.spec_readings() {
            Some(readings) => Ok(readings),
            None => Err(ScrapeError::StructuralEmpty),
        },
    }
}

/// What a fetch is worth. The outcome is `Ok` exactly for a response that holds conditions;
/// each failure of the fetch is handed on, and a decoded response without conditions is
/// `StructuralEmpty`.
pub fn outcome(fetched: &Result<UpstreamResponse, FetchError>) -> (r: Result<
    WeatherReadings,
    ScrapeError,
>)
    ensures
        r == spec_outcome(*fetched),
        (r is Ok) <==> (*fetched matches Ok(response) && response.is_well_formed()),
        (r matches Err(ScrapeError::Transport)) <==> (*fetched matches Err(FetchError::Transport)),
        (r matches Err(ScrapeError::Decode)) <==> (*fetched matches Err(FetchError::Decode)),
        (r matches Err(ScrapeError::StructuralEmpty)) <==> (*fetched matches Ok(response)
            && !response.is_well_formed()),
{
    match fetched {
        Err(FetchError::Transport) => Err(ScrapeError::Transport),
        Err(FetchError::Decode) => Err(ScrapeError::Decode),
        Ok(response) => match response.readings() {
            Some(readings) => Ok(readings),
            None => Err(ScrapeError::StructuralEmpty),
        },
    }
}

/// Runs the part of a scrape that follows the fetch: the gauges take in what the fetch is
/// worth, which is returned.
///
/// After a success the five conditions are those of the response and the scrape state is
/// `1.0`. After a failure of any kind the scrape state is `0.0` and the five conditions are
/// what they were.
pub fn scrape(metrics: &mut MetricSet, fetched: &Result<UpstreamResponse, FetchError>) -> (r:
    Result<WeatherReadings, ScrapeError>)
    ensures
        r == spec_outcome(*fetched),
        *final(metrics) == old(metrics).recorded(r),
        r matches Ok(readings) ==> final(metrics).weather == readings,
        r is Ok ==> final(metrics).spec_value(Metric::ScrapeState) == Reading::spec_one(),
        r is Err ==> final(metrics).weather == old(metrics).weather,
        r is Err ==> final(metrics).spec_value(Metric::ScrapeState) == Reading::spec_zero(),
{
    let r = outcome(fetched);
    metrics.record(&r);
    r
}

/// The reply to a scrape: the rendered gauges as plain text, with the same status whatever
/// the outcome of the scrape was. A failed scrape shows in the scrape-state gauge and nowhere
/// else.
pub fn reply(rendered: String) -> (r: ScrapeReply)
    ensures
        r.status == REPLY_STATUS,
        r.content_type@ == "text/plain; charset=utf-8"@,
        r.body == rendered,
{
    ScrapeReply {
        status: REPLY_STATUS,
        content_type: "text/plain; charset=utf-8".to_owned(),
        body: rendered,
    }
}

/// A response that holds conditions is published exactly: after the scrape each of the five
/// weather gauges holds the very bit pattern of the field it is made from, whatever the gauges
/// held before, and the scrape state is `1.0`.
pub proof fn lemma_well_formed_response_is_published(before: MetricSet, response: UpstreamResponse)
    requires
        response.is_well_formed(),
    ensures
        spec_outcome(Ok(response)) is Ok,
        ({
            let after = before.recorded(spec_outcome(Ok(response)));
            &&& after.spec_value(Metric::ScrapeState) == Reading::spec_one()
            &&& match response {
                UpstreamResponse::Flat(flat) => {
                    &&& after.spec_value(Metric::Temperature) == flat.temp.value
                    &&& after.spec_value(Metric::TemperatureFeelsLike) == flat.feels_like.value
                    &&& after.spec_value(Metric::WindSpeed) == flat.wind_speed.value
                    &&& after.spec_value(Metric::Humidity) == flat.humidity.value
                    &&& after.spec_value(Metric::Precipitation) == flat.precipitation.value
                },
                UpstreamResponse::Nested(nested) => {
                    let values = nested.data.timelines@[0].intervals@[0].values;
                    &&& after.spec_value(Metric::Temperature) == values.temperature
                    &&& after.spec_value(Metric::TemperatureFeelsLike)
                        == values.temperature_apparent
                    &&& after.spec_value(Metric::WindSpeed) == values.wind_speed
                    &&& after.spec_value(Metric::Humidity) == values.humidity
                    &&& after.spec_value(Metric::Precipitation) == values.precipitation_intensity
                },
            }
        }),
{
}

/// A fetch that failed, in transport or in decoding, clears the scrape state and leaves each
/// of the five weather gauges at the value it held before. A second failure changes nothing
/// more.
pub proof fn lemma_failed_fetch_keeps_conditions(before: MetricSet, error: FetchError)
    ensures
        spec_outcome(Err(error)) is Err,
        ({
            let after = before.recorded(spec_outcome(Err(error)));
            &&& after.spec_value(Metric::ScrapeState) == Reading::spec_zero()
            &&& forall|metric: Metric|
                metric != Metric::ScrapeState ==> #[trigger] after.spec_value(metric)
                    == before.spec_value(metric)
            &&& after.recorded(spec_outcome(Err(error))) == after
        }),
{
}

/// A nested response without a timeline, or whose first timeline has no interval, is a failed
/// scrape like any other: the outcome is `StructuralEmpty`, the scrape state is `0.0`, and
/// the five weather gauges hold what they held before.
pub proof fn lemma_empty_response_is_a_failure(before: MetricSet, nested: TomorrowWeatherApiResponse)
    requires
        nested.data.timelines@.len() == 0 || nested.data.timelines@[0].intervals@.len() == 0,
    ensures
        spec_outcome(Ok(UpstreamResponse::Nested(nested))) == Err::<WeatherReadings, ScrapeError>(
            ScrapeError::StructuralEmpty,
        ),
        ({
            let after = before.recorded(spec_outcome(Ok(UpstreamResponse::Nested(nested))));
            &&& after.spec_value(Metric::ScrapeState) == Reading::spec_zero()
            &&& after.weather == before.weather
        }),
{
}

/// The scrape-state gauge never holds anything but `0.0` and `1.0`, and it holds `1.0`
/// exactly after a fetch that brought back a response with conditions.
pub proof fn lemma_scrape_state_tells_success(
    before: MetricSet,
    fetched: Result<UpstreamResponse, FetchError>,
)
    ensures
        ({
            let state = before.recorded(spec_outcome(fetched)).spec_value(Metric::ScrapeState);
            &&& state == Reading::spec_one() || state == Reading::spec_zero()
            &&& state == Reading::spec_one() <==> (fetched matches Ok(response)
                && response.is_well_formed())
        }),
{
}

} // verus!
