//! The request that a scrape sends to the provider.

use vstd::prelude::*;
use vstd::utf8::encode_utf8;
use crate::config::Config;
use crate::percent::{
    is_plain, is_query_safe, lemma_percent_encode_is_injective,
    lemma_percent_encoded_is_query_safe, lemma_plain_text_is_unchanged, percent_encoded,
    push_percent_encoded,
};

verus! {

/// The address of the provider's endpoint, up to the place.
pub open spec fn endpoint() -> Seq<char> {
    "https://api.tomorrow.io/v4/timelines?location="@
}

/// The conditions that are asked for, and the name of the parameter that holds the key.
pub open spec fn fields_and_key() -> Seq<char> {
    "&fields=temperature&fields=temperatureApparent&fields=humidity&fields=windSpeed&fields=precipitationIntensity&apikey="@
}

/// The end of every address: only the current conditions are asked for.
pub open spec fn timesteps() -> Seq<char> {
    "&timesteps=current"@
}

/// The address that a scrape asks: the endpoint, the place as latitude, a comma and
/// longitude, the five conditions, the key, and the time step. Latitude, longitude and key
/// stand percent-encoded, by their UTF-8 bytes.
pub open spec fn spec_request_url(config: Config) -> Seq<char> {
    endpoint() + percent_encoded(encode_utf8(config.lat@)) + ","@ + percent_encoded(
        encode_utf8(config.lon@),
    ) + fields_and_key() + percent_encoded(encode_utf8(config.token@)) + timesteps()
}

/// The request that a scrape sends.
#[derive(Clone, Debug)]
pub struct UpstreamRequest {
    pub method: String,
    pub url: String,
    pub content_type: String,
}

/// The address that a scrape asks.
pub fn request_url(config: &Config) -> (url: String)
    ensures
        url@ == spec_request_url(*config),
{
    let mut url = String::new();
    url.append("https://api.tomorrow.io/v4/timelines?location=");
    push_percent_encoded(&mut url, config.lat.as_str());
    url.append(",");
    push_percent_encoded(&mut url, config.lon.as_str());
    url.append(
        "&fields=temperature&fields=temperatureApparent&fields=humidity&fields=windSpeed&fields=precipitationIntensity&apikey=",
    );
    push_percent_encoded(&mut url, config.token.as_str());
    url.append("&timesteps=current");
    url
}

/// The request that a scrape sends: one `GET` to [`request_url`], which announces JSON as
/// its content type.
pub fn upstream_request(config: &Config) -> (request: UpstreamRequest)
    ensures
        request.method@ == "GET"@,
        request.url@ == spec_request_url(*config),
        request.content_type@ == "application/json"@,
{
    UpstreamRequest {
        method: "GET".to_owned(),
        url: request_url(config),
        content_type: "application/json".to_owned(),
    }
}

/// Two texts that agree, each made of a query-safe part and a rest that begins with a
/// character that is not query-safe, agree part by part.
proof fn lemma_parts_agree(p: Seq<char>, q: Seq<char>, rest_p: Seq<char>, rest_q: Seq<char>)
    requires
        p + rest_p == q + rest_q,
        forall|i: int| 0 <= i < p.len() ==> is_query_safe(#[trigger] p[i]),
        forall|i: int| 0 <= i < q.len() ==> is_query_safe(#[trigger] q[i]),
        rest_p.len() > 0 && !is_query_safe(rest_p[0]),
        rest_q.len() > 0 && !is_query_safe(rest_q[0]),
    ensures
        p == q,
        rest_p == rest_q,
{
    let whole = p + rest_p;
    if p.len() < q.len() {
        assert(whole[p.len() as int] == rest_p[0]);
        assert((q + rest_q)[p.len() as int] == q[p.len() as int]);
    } else if q.len() < p.len() {
        assert((q + rest_q)[q.len() as int] == rest_q[0]);
        assert(whole[q.len() as int] == p[q.len() as int]);
    }
    assert(p =~= whole.take(p.len() as int));
    assert(q =~= whole.take(p.len() as int));
    assert(rest_p =~= whole.skip(p.len() as int));
    assert(rest_q =~= whole.skip(p.len() as int));
}

/// Two configurations with one address agree in latitude, longitude and key: no value can
/// pass for another, or reach into a parameter that is not its own.
pub proof fn lemma_request_url_is_injective(a: Config, b: Config)
    requires
        spec_request_url(a) == spec_request_url(b),
    ensures
        a.lat@ == b.lat@,
        a.lon@ == b.lon@,
        a.token@ == b.token@,
{
    reveal_strlit(",");
    reveal_strlit(
        "&fields=temperature&fields=temperatureApparent&fields=humidity&fields=windSpeed&fields=precipitationIntensity&apikey=",
    );
    let lat_a = percent_encoded(encode_utf8(a.lat@));
    let lat_b = percent_encoded(encode_utf8(b.lat@));
    let lon_a = percent_encoded(encode_utf8(a.lon@));
    let lon_b = percent_encoded(encode_utf8(b.lon@));
    let key_a = percent_encoded(encode_utf8(a.token@));
    let key_b = percent_encoded(encode_utf8(b.token@));
    lemma_percent_encoded_is_query_safe(encode_utf8(a.lat@));
    lemma_percent_encoded_is_query_safe(encode_utf8(b.lat@));
    lemma_percent_encoded_is_query_safe(encode_utf8(a.lon@));
    lemma_percent_encoded_is_query_safe(encode_utf8(b.lon@));

    let after_lon_a = fields_and_key() + key_a + timesteps();
    let after_lon_b = fields_and_key() + key_b + timesteps();
    let after_lat_a = ","@ + lon_a + after_lon_a;
    let after_lat_b = ","@ + lon_b + after_lon_b;
    let whole = spec_request_url(a);
    let start = endpoint().len() as int;
    assert(lat_a + after_lat_a =~= whole.skip(start));
    assert(lat_b + after_lat_b =~= whole.skip(start));
    assert(after_lat_a[0] == ',' && after_lat_b[0] == ',');
    lemma_parts_agree(lat_a, lat_b, after_lat_a, after_lat_b);

    assert(lon_a + after_lon_a =~= after_lat_a.skip(1));
    assert(lon_b + after_lon_b =~= after_lat_a.skip(1));
    assert(after_lon_a[0] == '&' && after_lon_b[0] == '&');
    lemma_parts_agree(lon_a, lon_b, after_lon_a, after_lon_b);

    let skipped = fields_and_key().len() as int;
    assert(key_a =~= after_lon_a.subrange(skipped, after_lon_a.len() - timesteps().len()));
    assert(key_b =~= after_lon_a.subrange(skipped, after_lon_a.len() - timesteps().len()));

    lemma_percent_encode_is_injective(a.lat@, b.lat@);
    lemma_percent_encode_is_injective(a.lon@, b.lon@);
    lemma_percent_encode_is_injective(a.token@, b.token@);
}

/// Where latitude, longitude and key are plain texts, each stands in the address as it was
/// given.
pub proof fn lemma_plain_values_stand_unchanged(config: Config)
    requires
        is_plain(config.lat@),
        is_plain(config.lon@),
        is_plain(config.token@),
    ensures
        spec_request_url(config) == endpoint() + config.lat@ + ","@ + config.lon@
            + fields_and_key() + config.token@ + timesteps(),
{
    lemma_plain_text_is_unchanged(config.lat@);
    lemma_plain_text_is_unchanged(config.lon@);
    lemma_plain_text_is_unchanged(config.token@);
}

} // verus!
