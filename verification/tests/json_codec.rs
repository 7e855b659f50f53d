//! The JSON reader and writer, and the record codecs built on them.

use rubl::json::parse::parse_json;
use rubl::json::value::{JsonNum, JsonValue};
use rubl::json::write::write_json;
use rubl::tools::observations::Observation;
use rubl::tools::region::{RegionInfo, RegionType};

#[test]
fn serializes_to_lowercase() {
    let country = RegionType::Country;
    assert_eq!(write_json(&JsonValue::Str(country.token())), "\"country\"");

    let subnational1 = RegionType::Subnational1;
    assert_eq!(write_json(&JsonValue::Str(subnational1.token())), "\"subnational1\"");

    let subnational2 = RegionType::Subnational2;
    assert_eq!(write_json(&JsonValue::Str(subnational2.token())), "\"subnational2\"");
}

#[test]
fn deserializes_from_lowercase() {
    let country = RegionType::from_token(&"country".to_string());
    assert_eq!(country, Some(RegionType::Country));

    let subnational1 = RegionType::from_token(&"subnational1".to_string());
    assert_eq!(subnational1, Some(RegionType::Subnational1));

    let subnational2 = RegionType::from_token(&"subnational2".to_string());
    assert_eq!(subnational2, Some(RegionType::Subnational2));

    assert_eq!(RegionType::from_token(&"COUNTRY".to_string()), None);
}

#[test]
fn reader_accepts_the_usual_shapes() {
    assert!(matches!(parse_json("null"), Some(JsonValue::Null)));
    assert!(matches!(parse_json("true"), Some(JsonValue::Bool(true))));
    assert!(matches!(parse_json("false"), Some(JsonValue::Bool(false))));
    assert!(matches!(parse_json("  [ ]  "), Some(JsonValue::Arr(_))));
    assert!(matches!(parse_json("{}"), Some(JsonValue::Obj(_))));
    match parse_json("\"a b\\nc\\u0041\"") {
        Some(JsonValue::Str(s)) => assert_eq!(s, "a b\ncA"),
        other => panic!("unexpected: {:?}", other),
    }
}

#[test]
fn reader_rejects_malformed_text() {
    assert!(parse_json("").is_none());
    assert!(parse_json("{invalid}").is_none());
    assert!(parse_json("[1,]").is_none());
    assert!(parse_json("{\"a\":}").is_none());
    assert!(parse_json("01").is_none());
    assert!(parse_json("\"unterminated").is_none());
    assert!(parse_json("nulll").is_none());
    assert!(parse_json("[1] trailing").is_none());
}

#[test]
fn reader_keeps_numbers_exact() {
    match parse_json("35.9132") {
        Some(JsonValue::Num(n)) => {
            assert_eq!(n, JsonNum { neg: false, mantissa: 359132, exp: -4 });
        },
        other => panic!("unexpected: {:?}", other),
    }
    match parse_json("-79") {
        Some(JsonValue::Num(n)) => {
            assert_eq!(n, JsonNum { neg: true, mantissa: 79, exp: 0 });
        },
        other => panic!("unexpected: {:?}", other),
    }
    match parse_json("1.5e3") {
        Some(JsonValue::Num(n)) => {
            assert_eq!(n, JsonNum { neg: false, mantissa: 15, exp: 2 });
        },
        other => panic!("unexpected: {:?}", other),
    }
}

#[test]
fn reader_combines_surrogate_pairs() {
    match parse_json("\"\\ud83d\\ude00\"") {
        Some(JsonValue::Str(s)) => assert_eq!(s, "\u{1f600}"),
        other => panic!("unexpected: {:?}", other),
    }
    assert!(parse_json("\"\\ud83d\"").is_none());
}

#[test]
fn written_text_reads_back_as_written() {
    let obs = Observation {
        common_name: "Groove-billed Ani".into(),
        scientific_name: "Crotophaga sulcirostris".into(),
        location: "Pond \"B\" / trail".into(),
        observation_date: "2023-05-15 10:30".into(),
        count: Some(2),
        location_id: Some("L1".into()),
        latitude: Some(rubl::fixed::Fixed { neg: false, mag: 359132 }),
        longitude: Some(rubl::fixed::Fixed { neg: true, mag: 790558 }),
    };
    let text = write_json(&obs.to_json());
    let back = parse_json(&text).expect("written text is readable");
    let decoded = Observation::from_json(&back).expect("the document denotes an observation");
    assert_eq!(decoded.common_name, obs.common_name);
    assert_eq!(decoded.scientific_name, obs.scientific_name);
    assert_eq!(decoded.location, obs.location);
    assert_eq!(decoded.observation_date, obs.observation_date);
    assert_eq!(decoded.count, obs.count);
    assert_eq!(decoded.location_id, obs.location_id);
    assert_eq!(decoded.latitude, obs.latitude);
    assert_eq!(decoded.longitude, obs.longitude);
}

#[test]
fn observation_decodes_from_wire_shape() {
    let body = "{\"comName\":\"Barn Swallow\",\"sciName\":\"Hirundo rustica\",\"locName\":\"My Backyard\",\"obsDt\":\"2023-05-15 10:30\",\"howMany\":3,\"locId\":\"L123456\",\"lat\":35.91327,\"lng\":-79.05581}";
    let doc = parse_json(body).unwrap();
    let obs = Observation::from_json(&doc).unwrap();
    assert_eq!(obs.common_name, "Barn Swallow");
    assert_eq!(obs.count, Some(3));
    // Coordinates are kept to ten-thousandths, truncated toward zero.
    assert_eq!(obs.latitude, Some(rubl::fixed::Fixed { neg: false, mag: 359132 }));
    assert_eq!(obs.longitude, Some(rubl::fixed::Fixed { neg: true, mag: 790558 }));
}

#[test]
fn observation_rejects_missing_required_field() {
    let body = "{\"sciName\":\"Hirundo rustica\",\"locName\":\"x\",\"obsDt\":\"y\"}";
    let doc = parse_json(body).unwrap();
    assert!(Observation::from_json(&doc).is_none());
}

#[test]
fn region_with_parent_round_trips_through_decoding() {
    let body = "{\"bounds\":null,\"result\":\"North Carolina\",\"code\":\"US-NC\",\"type\":\"subnational1\",\"parent\":{\"bounds\":null,\"result\":\"United States\",\"code\":\"US\",\"type\":\"country\",\"parent\":null,\"longitude\":-98.0,\"latitude\":39.0},\"longitude\":-79.0,\"latitude\":36.0}";
    let doc = parse_json(body).unwrap();
    let region = RegionInfo::from_json(&doc).expect("the document denotes a region record");
    assert_eq!(region.result, "North Carolina");
    assert_eq!(region.region_type, RegionType::Subnational1);
    let parent = region.parent.as_ref().expect("the parent is present");
    assert_eq!(parent.result, "United States");
    assert_eq!(parent.code, "US");
    assert_eq!(parent.region_type, RegionType::Country);
    assert!(parent.parent.is_none());
    assert_eq!(parent.longitude, rubl::fixed::Fixed { neg: true, mag: 980000 });

    // And the decoded record re-encodes to a document that decodes the
    // same way.
    let again = parse_json(&write_json(&region.to_json())).unwrap();
    let back = RegionInfo::from_json(&again).unwrap();
    assert_eq!(back.result, region.result);
    assert_eq!(back.parent.as_ref().unwrap().code, "US");
}

#[test]
fn reader_tolerates_whitespace_everywhere() {
    let body = " { \"code\" : \"US\" , \"name\" : \"United States\" } ";
    let doc = parse_json(body).unwrap();
    let sub = rubl::tools::region::SubRegion::from_json(&doc).unwrap();
    assert_eq!(sub.code, "US");
    assert_eq!(sub.name, "United States");
}

#[test]
fn reader_accepts_nested_arrays() {
    let doc = parse_json("[[1,2],[3]]").unwrap();
    match doc {
        JsonValue::Arr(items) => assert_eq!(items.len(), 2),
        other => panic!("unexpected: {:?}", other),
    }
}
