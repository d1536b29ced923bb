use climacell_exporter::scrape::{outcome, reply, scrape, REPLY_STATUS};
use climacell_exporter::{
    ClimacellWeatherApiResponse, Data, FetchError, Interval, Measurement, Metric, MetricSet,
    Reading, ScrapeError, Timeline, TomorrowWeatherApiResponse, UpstreamResponse, Values,
    WeatherReadings,
};

fn reading(number: f64) -> Reading {
    Reading::from_bits(number.to_bits())
}

fn number(reading: Reading) -> f64 {
    f64::from_bits(reading.to_bits())
}

fn values(t: f64, feels: f64, humidity: f64, wind: f64, rain: f64) -> Values {
    Values {
        temperature: reading(t),
        temperature_apparent: reading(feels),
        humidity: reading(humidity),
        wind_speed: reading(wind),
        precipitation_intensity: reading(rain),
    }
}

fn interval(values: Values) -> Interval {
    Interval { start_time: String::from("2021-03-24T14:47:00Z"), values }
}

fn timeline(intervals: Vec<Interval>) -> Timeline {
    Timeline {
        timestep: String::from("current"),
        start_time: String::from("2021-03-24T14:47:00Z"),
        end_time: String::from("2021-03-24T14:47:00Z"),
        intervals,
    }
}

fn nested(timelines: Vec<Timeline>) -> UpstreamResponse {
    UpstreamResponse::Nested(TomorrowWeatherApiResponse { data: Data { timelines } })
}

fn flat(t: f64, feels: f64, wind: f64, humidity: f64, rain: f64) -> UpstreamResponse {
    UpstreamResponse::Flat(ClimacellWeatherApiResponse {
        temp: Measurement { value: reading(t) },
        feels_like: Measurement { value: reading(feels) },
        wind_speed: Measurement { value: reading(wind) },
        humidity: Measurement { value: reading(humidity) },
        precipitation: Measurement { value: reading(rain) },
    })
}

fn stale() -> MetricSet {
    MetricSet {
        weather: WeatherReadings {
            temperature: reading(11.25),
            temperature_feels_like: reading(9.5),
            wind_speed: reading(4.75),
            humidity: reading(81.0),
            precipitation: reading(0.125),
        },
        last_scrape_succeeded: true,
    }
}

#[test]
fn one_and_zero_are_the_doubles_one_and_zero() {
    assert_eq!(number(Reading::one()), 1.0);
    assert_eq!(number(Reading::zero()), 0.0);
    assert_eq!(Reading::one().to_bits(), 1.0f64.to_bits());
    assert_eq!(Reading::zero().to_bits(), 0.0f64.to_bits());
    assert_eq!(Reading::from_bits(21.5f64.to_bits()).to_bits(), 21.5f64.to_bits());
}

#[test]
fn new_metric_set_holds_zero_everywhere() {
    let metrics = MetricSet::new();
    for metric in Metric::all() {
        assert_eq!(metrics.value(metric), Reading::zero());
        assert_eq!(number(metrics.value(metric)), 0.0);
    }
    assert!(!metrics.last_scrape_succeeded);
}

#[test]
fn nested_response_sets_every_gauge_from_its_field() {
    let mut metrics = stale();
    let fetched = Ok(nested(vec![timeline(vec![interval(values(21.5, 20.1, 55.0, 3.2, 0.0))])]));
    let result = scrape(&mut metrics, &fetched);
    assert_eq!(
        result,
        Ok(WeatherReadings {
            temperature: reading(21.5),
            temperature_feels_like: reading(20.1),
            wind_speed: reading(3.2),
            humidity: reading(55.0),
            precipitation: reading(0.0),
        })
    );
    assert_eq!(number(metrics.value(Metric::Temperature)), 21.5);
    assert_eq!(number(metrics.value(Metric::TemperatureFeelsLike)), 20.1);
    assert_eq!(number(metrics.value(Metric::Humidity)), 55.0);
    assert_eq!(number(metrics.value(Metric::WindSpeed)), 3.2);
    assert_eq!(number(metrics.value(Metric::Precipitation)), 0.0);
    assert_eq!(number(metrics.value(Metric::ScrapeState)), 1.0);
}

#[test]
fn flat_response_sets_every_gauge_from_its_field() {
    let mut metrics = MetricSet::new();
    let fetched = Ok(flat(-3.75, -8.5, 12.25, 93.0, 1.5));
    let result = scrape(&mut metrics, &fetched);
    assert!(result.is_ok());
    assert_eq!(number(metrics.value(Metric::Temperature)), -3.75);
    assert_eq!(number(metrics.value(Metric::TemperatureFeelsLike)), -8.5);
    assert_eq!(number(metrics.value(Metric::WindSpeed)), 12.25);
    assert_eq!(number(metrics.value(Metric::Humidity)), 93.0);
    assert_eq!(number(metrics.value(Metric::Precipitation)), 1.5);
    assert_eq!(number(metrics.value(Metric::ScrapeState)), 1.0);
}

#[test]
fn readings_are_carried_bit_for_bit() {
    let negative_zero = (-0.0f64).to_bits();
    let odd_nan = 0x7FF8_0000_0000_1234u64;
    let tiny = 5e-324f64.to_bits();
    let third = (1.0f64 / 3.0).to_bits();
    let huge = f64::MAX.to_bits();
    let response = UpstreamResponse::Nested(TomorrowWeatherApiResponse {
        data: Data {
            timelines: vec![timeline(vec![interval(Values {
                temperature: Reading::from_bits(negative_zero),
                temperature_apparent: Reading::from_bits(odd_nan),
                humidity: Reading::from_bits(tiny),
                wind_speed: Reading::from_bits(third),
                precipitation_intensity: Reading::from_bits(huge),
            })])],
        },
    });
    let mut metrics = MetricSet::new();
    assert!(scrape(&mut metrics, &Ok(response)).is_ok());
    assert_eq!(metrics.value(Metric::Temperature).to_bits(), negative_zero);
    assert_eq!(metrics.value(Metric::TemperatureFeelsLike).to_bits(), odd_nan);
    assert_eq!(metrics.value(Metric::Humidity).to_bits(), tiny);
    assert_eq!(metrics.value(Metric::WindSpeed).to_bits(), third);
    assert_eq!(metrics.value(Metric::Precipitation).to_bits(), huge);
}

#[test]
fn only_the_first_interval_of_the_first_timeline_counts() {
    let response = nested(vec![
        timeline(vec![
            interval(values(1.0, 2.0, 3.0, 4.0, 5.0)),
            interval(values(10.0, 20.0, 30.0, 40.0, 50.0)),
        ]),
        timeline(vec![interval(values(100.0, 200.0, 300.0, 400.0, 500.0))]),
    ]);
    assert_eq!(
        response.readings(),
        Some(WeatherReadings {
            temperature: reading(1.0),
            temperature_feels_like: reading(2.0),
            humidity: reading(3.0),
            wind_speed: reading(4.0),
            precipitation: reading(5.0),
        })
    );
}

#[test]
fn transport_failure_clears_state_and_keeps_the_rest() {
    let mut metrics = stale();
    let result = scrape(&mut metrics, &Err(FetchError::Transport));
    assert_eq!(result, Err(ScrapeError::Transport));
    assert_eq!(number(metrics.value(Metric::ScrapeState)), 0.0);
    assert_eq!(metrics.weather, stale().weather);
    assert_eq!(number(metrics.value(Metric::Temperature)), 11.25);
    assert_eq!(number(metrics.value(Metric::TemperatureFeelsLike)), 9.5);
    assert_eq!(number(metrics.value(Metric::WindSpeed)), 4.75);
    assert_eq!(number(metrics.value(Metric::Humidity)), 81.0);
    assert_eq!(number(metrics.value(Metric::Precipitation)), 0.125);
}

#[test]
fn a_second_failure_changes_nothing_more() {
    let mut metrics = stale();
    let _ = scrape(&mut metrics, &Err(FetchError::Transport));
    let once = metrics;
    let _ = scrape(&mut metrics, &Err(FetchError::Transport));
    assert_eq!(metrics, once);
}

#[test]
fn decode_failure_clears_state_and_keeps_the_rest() {
    let mut metrics = stale();
    let result = scrape(&mut metrics, &Err(FetchError::Decode));
    assert_eq!(result, Err(ScrapeError::Decode));
    assert_eq!(number(metrics.value(Metric::ScrapeState)), 0.0);
    assert_eq!(metrics.weather, stale().weather);
}

#[test]
fn empty_timelines_is_a_failure_without_a_fault() {
    let mut metrics = stale();
    let result = scrape(&mut metrics, &Ok(nested(vec![])));
    assert_eq!(result, Err(ScrapeError::StructuralEmpty));
    assert_eq!(number(metrics.value(Metric::ScrapeState)), 0.0);
    assert_eq!(metrics.weather, stale().weather);
}

#[test]
fn empty_intervals_is_a_failure_without_a_fault() {
    let mut metrics = stale();
    let result = scrape(&mut metrics, &Ok(nested(vec![timeline(vec![])])));
    assert_eq!(result, Err(ScrapeError::StructuralEmpty));
    assert_eq!(number(metrics.value(Metric::ScrapeState)), 0.0);
    assert_eq!(metrics.weather, stale().weather);
}

#[test]
fn empty_first_timeline_hides_a_full_second_one() {
    let response =
        nested(vec![timeline(vec![]), timeline(vec![interval(values(1.0, 2.0, 3.0, 4.0, 5.0))])]);
    assert_eq!(response.readings(), None);
    assert_eq!(outcome(&Ok(response)), Err(ScrapeError::StructuralEmpty));
}

#[test]
fn success_after_failure_sets_state_again() {
    let mut metrics = MetricSet::new();
    let _ = scrape(&mut metrics, &Err(FetchError::Decode));
    assert_eq!(number(metrics.value(Metric::ScrapeState)), 0.0);
    let _ = scrape(&mut metrics, &Ok(flat(1.0, 2.0, 3.0, 4.0, 5.0)));
    assert_eq!(number(metrics.value(Metric::ScrapeState)), 1.0);
    assert_eq!(number(metrics.value(Metric::WindSpeed)), 3.0);
    let _ = scrape(&mut metrics, &Ok(nested(vec![])));
    assert_eq!(number(metrics.value(Metric::ScrapeState)), 0.0);
    assert_eq!(number(metrics.value(Metric::WindSpeed)), 3.0);
}

#[test]
fn outcome_names_each_failure() {
    assert_eq!(outcome(&Err(FetchError::Transport)), Err(ScrapeError::Transport));
    assert_eq!(outcome(&Err(FetchError::Decode)), Err(ScrapeError::Decode));
    assert_eq!(outcome(&Ok(nested(vec![]))), Err(ScrapeError::StructuralEmpty));
    assert_eq!(
        outcome(&Ok(flat(1.0, 2.0, 3.0, 4.0, 5.0))),
        Ok(WeatherReadings {
            temperature: reading(1.0),
            temperature_feels_like: reading(2.0),
            wind_speed: reading(3.0),
            humidity: reading(4.0),
            precipitation: reading(5.0),
        })
    );
}

#[test]
fn record_takes_an_outcome_as_it_is() {
    let mut metrics = stale();
    let fresh = WeatherReadings {
        temperature: reading(1.5),
        temperature_feels_like: reading(2.5),
        wind_speed: reading(3.5),
        humidity: reading(4.5),
        precipitation: reading(5.5),
    };
    metrics.record(&Ok(fresh));
    assert_eq!(metrics, MetricSet { weather: fresh, last_scrape_succeeded: true });
    metrics.record(&Err(ScrapeError::StructuralEmpty));
    assert_eq!(metrics, MetricSet { weather: fresh, last_scrape_succeeded: false });
}

#[test]
fn values_keep_their_gauges_apart() {
    let readings = values(1.0, 2.0, 3.0, 4.0, 5.0).readings();
    assert_eq!(number(readings.temperature), 1.0);
    assert_eq!(number(readings.temperature_feels_like), 2.0);
    assert_eq!(number(readings.humidity), 3.0);
    assert_eq!(number(readings.wind_speed), 4.0);
    assert_eq!(number(readings.precipitation), 5.0);
}

#[test]
fn current_values_are_those_of_the_first_interval() {
    let response = TomorrowWeatherApiResponse {
        data: Data { timelines: vec![timeline(vec![interval(values(1.0, 2.0, 3.0, 4.0, 5.0))])] },
    };
    assert_eq!(response.current_values(), Some(values(1.0, 2.0, 3.0, 4.0, 5.0)));
    let empty = TomorrowWeatherApiResponse { data: Data { timelines: vec![] } };
    assert_eq!(empty.current_values(), None);
}

#[test]
fn reply_is_ok_whatever_the_body() {
    let reply = reply(String::from("climacell_state 0\n"));
    assert_eq!(reply.status, 200);
    assert_eq!(REPLY_STATUS, 200);
    assert_eq!(reply.body, "climacell_state 0\n");
    assert_eq!(reply.content_type, "text/plain; charset=utf-8");
    assert_eq!(self::reply(String::new()).status, 200);
}
