//! End-to-end checks of the binding: identifier parsing, parameter
//! encoding, request preparation, credentials, and envelopes.

use opensky::assemble_response;
use opensky::Endpoint as _;
use opensky::OpenSkyError;
use opensky::ParamType;
use opensky::{flights, states, track};
use opensky::{BoundingBox, Icao24, OpenSky, State};

fn icao(s: &str) -> Icao24 {
    Icao24::from_str(s).expect("valid identifier")
}

#[test]
fn icao24_rejects_wrong_length() {
    for s in ["", "3c644", "3c64445", "abcdef0123"] {
        match Icao24::from_str(s) {
            Err(OpenSkyError::InvalidIdentifier(t)) => assert_eq!(t, s),
            _ => panic!("expected rejection of {:?}", s),
        }
    }
}

#[test]
fn icao24_rejects_non_hex() {
    for s in ["3c644g", "zzzzzz", "3c 444", "+3c644", "-3c644", "0x3c64"] {
        match Icao24::from_str(s) {
            Err(OpenSkyError::InvalidIdentifier(t)) => assert_eq!(t, s),
            _ => panic!("expected rejection of {:?}", s),
        }
    }
}

#[test]
fn icao24_normalizes_case() {
    assert_eq!(icao("3C6444").as_str(), "3c6444");
    assert_eq!(icao("3c6444").as_str(), "3c6444");
    assert_eq!(icao("ABCDEF").as_str(), "abcdef");
    assert_eq!(icao("00A1F9").as_str(), "00a1f9");
}

#[test]
fn icao24_parse_is_idempotent() {
    let first = icao("3C6444");
    let second = icao(first.as_str());
    assert_eq!(second.as_str(), first.as_str());
}

#[test]
fn icao24_from_valid_normalizes() {
    assert_eq!(Icao24::from_valid("3C6444").as_str(), "3c6444");
    assert_eq!(Icao24::from_valid("00a1f9").as_str(), "00a1f9");
}

#[test]
fn states_own_full_query() {
    let e = states::own::Endpoint::builder()
        .time(-12)
        .icao24(icao("AB0001"))
        .serials(vec![7])
        .build()
        .expect("built");
    assert_eq!(e.parameters().to_query_string(), "time=-12&icao24=ab0001&serials=7");
}

#[test]
fn bounding_box_expands_in_fixed_order() {
    let b = BoundingBox::new(
        10.0f64.to_string(),
        20.0f64.to_string(),
        30.0f64.to_string(),
        40.0f64.to_string(),
    );
    let pairs: Vec<(String, String)> = b.as_pairs();
    let expected = [("lamin", "10"), ("lomin", "20"), ("lamax", "30"), ("lomax", "40")];
    assert_eq!(pairs.len(), expected.len());
    for (got, want) in pairs.iter().zip(expected.iter()) {
        assert_eq!(got.0, want.0);
        assert_eq!(got.1, want.1);
    }
}

#[test]
fn tracks_query_with_no_time() {
    let e = track::Endpoint::builder()
        .icao24(icao("3C6444"))
        .build()
        .expect("built");
    let qs = e.parameters().to_query_string();
    assert_eq!(qs, "icao24=3c6444");
    assert!(!qs.contains("time"));
}

#[test]
fn tracks_query_with_time() {
    let e = track::Endpoint::builder()
        .icao24(icao("3C6444"))
        .time(1_700_000_000)
        .build()
        .expect("built");
    assert_eq!(e.parameters().to_query_string(), "icao24=3c6444&time=1700000000");
}

#[test]
fn tracks_requires_icao24() {
    match track::Endpoint::builder().time(7).build() {
        Err(OpenSkyError::MissingField(f)) => assert_eq!(f, "icao24"),
        _ => panic!("expected a missing-field failure"),
    }
}

#[test]
fn states_own_serials_in_order() {
    let e = states::own::Endpoint::builder()
        .serials(vec![1001, 1002])
        .build()
        .expect("built");
    assert_eq!(e.parameters().to_query_string(), "serials=1001&serials=1002");
}

#[test]
fn states_own_three_serials_three_pairs() {
    let e = states::own::Endpoint::builder()
        .serials(vec![5, 5, 9])
        .build()
        .expect("built");
    assert_eq!(e.parameters().to_query_string(), "serials=5&serials=5&serials=9");
}

#[test]
fn states_all_unset_fields_contribute_nothing() {
    let e = states::all::All::builder().build().expect("built");
    assert_eq!(e.parameters().to_query_string(), "");
}

#[test]
fn states_all_full_query() {
    let b = BoundingBox::new(
        10.0f64.to_string(),
        20.0f64.to_string(),
        30.0f64.to_string(),
        40.0f64.to_string(),
    );
    let e = states::all::All::builder()
        .time(-5)
        .icao24(icao("AB0001"))
        .bounding_box(b)
        .extended(1)
        .build()
        .expect("built");
    assert_eq!(
        e.parameters().to_query_string(),
        "time=-5&icao24=ab0001&lamin=10&lomin=20&lamax=30&lomax=40&extended=1"
    );
}

#[test]
fn flights_aircraft_missing_fields_in_order() {
    match flights::aircraft::Endpoint::builder().build() {
        Err(OpenSkyError::MissingField(f)) => assert_eq!(f, "begin"),
        _ => panic!("expected a missing-field failure"),
    }
    match flights::aircraft::Endpoint::builder().begin(1).build() {
        Err(OpenSkyError::MissingField(f)) => assert_eq!(f, "end"),
        _ => panic!("expected a missing-field failure"),
    }
    match flights::aircraft::Endpoint::builder().begin(1).end(2).build() {
        Err(OpenSkyError::MissingField(f)) => assert_eq!(f, "icao24"),
        _ => panic!("expected a missing-field failure"),
    }
}

#[test]
fn flights_aircraft_query() {
    let e = flights::aircraft::Endpoint::builder()
        .begin(1_517_227_200)
        .end(1_517_230_800)
        .icao24(icao("3C6444"))
        .build()
        .expect("built");
    assert_eq!(e.endpoint(), "flights/aircraft");
    assert_eq!(
        e.parameters().to_query_string(),
        "begin=1517227200&end=1517230800&icao24=3c6444"
    );
}

#[test]
fn flights_all_query_extreme_values() {
    let e = flights::all::Endpoint::builder()
        .begin(0)
        .end(u64::MAX)
        .build()
        .expect("built");
    assert_eq!(
        e.parameters().to_query_string(),
        "begin=0&end=18446744073709551615"
    );
}

#[test]
fn flights_arrival_query() {
    let e = flights::arrival::Endpoint::builder()
        .airport("EDDF".to_string())
        .begin(1_517_227_200)
        .end(1_517_230_800)
        .build()
        .expect("built");
    assert_eq!(e.endpoint(), "flights/arrival");
    assert_eq!(
        e.parameters().to_query_string(),
        "airport=EDDF&begin=1517227200&end=1517230800"
    );
}

#[test]
fn prepare_resolves_url_and_query() {
    let client = OpenSky::new().expect("client");
    let e = track::Endpoint::builder()
        .icao24(icao("3C6444"))
        .build()
        .expect("built");
    let req = client.prepare(&e).expect("prepared");
    assert_eq!(req.url, "https://opensky-network.org/api/tracks?icao24=3c6444");
    assert!(req.body.is_empty());
}

#[test]
fn prepare_without_parameters_has_no_query() {
    let client = OpenSky::new().expect("client");
    let e = states::all::All::builder().build().expect("built");
    let req = client.prepare(&e).expect("prepared");
    assert_eq!(req.url, "https://opensky-network.org/api/states/all");
}

#[test]
fn credential_round_trips_through_header() {
    let mut client = OpenSky::new().expect("client");
    client.set_auth("user:pass");
    let e = states::all::All::builder().build().expect("built");
    let req = client.prepare(&e).expect("prepared");
    assert_eq!(req.headers.len(), 1);
    assert_eq!(req.headers[0].0, "Authorization");
    let value = &req.headers[0].1;
    assert!(value.starts_with("Basic "));
    let decoded = base64::Engine::decode(
        &base64::engine::general_purpose::STANDARD_NO_PAD,
        &value["Basic ".len()..],
    )
    .expect("decodable");
    assert_eq!(decoded, b"user:pass");
}

#[test]
fn no_credential_attaches_no_header() {
    let client = OpenSky::new().expect("client");
    let e = states::all::All::builder().build().expect("built");
    let req = client.prepare(&e).expect("prepared");
    assert!(req.headers.is_empty());
}

#[test]
fn cleared_credential_attaches_no_header() {
    let mut client = OpenSky::new().expect("client");
    client.set_auth("user:pass");
    client.clear_auth();
    let e = states::all::All::builder().build().expect("built");
    let req = client.prepare(&e).expect("prepared");
    assert!(req.headers.is_empty());
}

#[test]
fn envelope_passes_status_through() {
    for status in [200u16, 404, 500, 999] {
        let r = assemble_response(status, "HTTP/1.1".to_string(), Vec::new(), vec![1, 2, 3]);
        assert_eq!(r.status, status);
        assert_eq!(r.version, "HTTP/1.1");
        assert_eq!(r.body, vec![1, 2, 3]);
    }
}

#[test]
fn rest_endpoint_joins_against_base() {
    let client = OpenSky::new().expect("client");
    let url = client.rest_endpoint("tracks").expect("resolved");
    assert_eq!(url, "https://opensky-network.org/api/tracks");
}

#[test]
fn state_equality_is_by_identifier_only() {
    let a = State {
        icao24: "3c6444".to_string(),
        callsign: Some("DLH9LF".to_string()),
        origin_country: "Germany".to_string(),
        time_position: Some(1),
        last_contact: 2,
        longitude: None,
        latitude: None,
        baro_altitude: None,
        on_ground: false,
        velocity: None,
        true_track: None,
        vertical_rate: None,
        sensors: None,
        geo_altitude: None,
        squawk: None,
        spi: false,
        position_source: 0,
    };
    let mut b = a.clone();
    b.callsign = None;
    b.last_contact = 99;
    assert!(a == b);
    let mut c = a.clone();
    c.icao24 = "ab0001".to_string();
    assert!(a != c);
}

#[test]
fn error_kinds_are_named() {
    assert_eq!(
        OpenSkyError::InvalidIdentifier(String::new()).kind(),
        "invalid identifier"
    );
    assert_eq!(OpenSkyError::MissingField(String::new()).kind(), "missing field");
    assert_eq!(OpenSkyError::UrlResolution(String::new()).kind(), "url resolution");
    assert_eq!(OpenSkyError::Header(String::new()).kind(), "header");
    assert_eq!(OpenSkyError::Transport(String::new()).kind(), "transport");
}
