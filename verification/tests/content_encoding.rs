//! Canonical JSON encodings of the record types, checked through an
//! independent JSON reader, and the compact rendering built on them.

use rubl::content::ToContent;
use rubl::fixed::Fixed;
use rubl::json::write::write_json;
use rubl::tools::hotspot::Hotspot;
use rubl::tools::observations::Observation;
use rubl::tools::region::{Bounds, RegionInfo, RegionType};

fn reparse(v: &rubl::json::value::JsonValue) -> serde_json::Value {
    serde_json::from_str(&write_json(v)).expect("the writer yields valid JSON")
}

#[test]
fn formats_with_all_fields_present() {
    let obs = Observation {
        common_name: "Barn Swallow".into(),
        scientific_name: "Hirundo rustica".into(),
        location: "My Backyard".into(),
        observation_date: "2023-05-15 10:30".into(),
        count: Some(3),
        location_id: Some("L123456".into()),
        latitude: Some(Fixed { neg: false, mag: 359132 }),
        longitude: Some(Fixed { neg: true, mag: 790558 }),
    };

    let json = reparse(&obs.to_json());
    assert_eq!(json["comName"], "Barn Swallow");
    assert_eq!(json["sciName"], "Hirundo rustica");
    assert_eq!(json["locName"], "My Backyard");
    assert_eq!(json["obsDt"], "2023-05-15 10:30");
    assert_eq!(json["howMany"], 3);
    assert_eq!(json["locId"], "L123456");

    let content = obs.to_content();
    assert!(content.is_ok());
}

#[test]
fn handles_missing_optional_fields() {
    let obs = Observation {
        common_name: "Barn Swallow".into(),
        scientific_name: "Hirundo rustica".into(),
        location: "My Backyard".into(),
        observation_date: "2023-05-15 10:30".into(),
        count: None,
        location_id: None,
        latitude: None,
        longitude: None,
    };

    let json = reparse(&obs.to_json());
    assert!(json["howMany"].is_null());
    assert!(json["locId"].is_null());
    assert!(json["lat"].is_null());
    assert!(json["lng"].is_null());

    let content = obs.to_content();
    assert!(content.is_ok());
}

#[test]
fn handles_vec_of_observations() {
    let observations = vec![
        Observation {
            common_name: "Barn Swallow".into(),
            scientific_name: "Hirundo rustica".into(),
            location: "Location 1".into(),
            observation_date: "2023-05-15 10:30".into(),
            count: Some(3),
            location_id: None,
            latitude: None,
            longitude: None,
        },
        Observation {
            common_name: "Eastern Bluebird".into(),
            scientific_name: "Sialia sialis".into(),
            location: "Location 2".into(),
            observation_date: "2023-05-15 11:00".into(),
            count: Some(1),
            location_id: None,
            latitude: None,
            longitude: None,
        },
    ];

    let json = reparse(&rubl::content::obs_list_to_json(&observations));
    assert!(json.is_array());
    assert_eq!(json.as_array().unwrap().len(), 2);
    assert_eq!(json[0]["comName"], "Barn Swallow");
    assert_eq!(json[1]["comName"], "Eastern Bluebird");

    let content = observations.to_content();
    assert!(content.is_ok());
}

#[test]
fn formats_with_all_activity_stats() {
    let hotspot = Hotspot {
        location_id: "L123456".into(),
        name: "Test Hotspot".into(),
        latitude: Fixed { neg: false, mag: 359132 },
        longitude: Fixed { neg: true, mag: 790558 },
        country_code: "US".into(),
        country_name: Some("United States".into()),
        subnational1_code: "US-NC".into(),
        subnational1_name: Some("North Carolina".into()),
        subnational2_code: Some("US-NC-067".into()),
        subnational2_name: Some("Durham".into()),
        is_hotspot: Some(true),
        hierarchical_name: Some("Test Hotspot, Durham, NC, US".into()),
        latest_observation_date: Some("2023-05-15".into()),
        num_species_all_time: Some(150),
        num_checklists_all_time: Some(500),
    };

    let json = reparse(&hotspot.to_json());
    assert_eq!(json["locId"], "L123456");
    assert_eq!(json["locName"], "Test Hotspot");
    assert_eq!(json["lat"], 35.9132);
    assert_eq!(json["lng"], -79.0558);
    assert_eq!(json["numSpeciesAllTime"], 150);
    assert_eq!(json["numChecklistsAllTime"], 500);

    let content = hotspot.to_content();
    assert!(content.is_ok());
}

#[test]
fn content_handles_missing_optional_fields() {
    let hotspot = Hotspot {
        location_id: "L123456".into(),
        name: "Test Hotspot".into(),
        latitude: Fixed { neg: false, mag: 359132 },
        longitude: Fixed { neg: true, mag: 790558 },
        country_code: "US".into(),
        country_name: None,
        subnational1_code: "US-NC".into(),
        subnational1_name: None,
        subnational2_code: None,
        subnational2_name: None,
        is_hotspot: None,
        hierarchical_name: None,
        latest_observation_date: None,
        num_species_all_time: None,
        num_checklists_all_time: None,
    };

    let json = reparse(&hotspot.to_json());
    assert_eq!(json["locId"], "L123456");
    assert_eq!(json["locName"], "Test Hotspot");
    assert!(json["countryName"].is_null());
    assert!(json["numSpeciesAllTime"].is_null());
    assert!(json["numChecklistsAllTime"].is_null());

    let content = hotspot.to_content();
    assert!(content.is_ok());
}

#[test]
fn formats_with_bounds() {
    let region = RegionInfo {
        bounds: Some(Bounds {
            min_x: Fixed { neg: true, mag: 795000 },
            max_x: Fixed { neg: true, mag: 785000 },
            min_y: Fixed { neg: false, mag: 355000 },
            max_y: Fixed { neg: false, mag: 365000 },
        }),
        result: "North Carolina".into(),
        code: "US-NC".into(),
        region_type: RegionType::Subnational1,
        parent: None,
        longitude: Fixed { neg: true, mag: 790000 },
        latitude: Fixed { neg: false, mag: 360000 },
    };

    let json = reparse(&region.to_json());
    assert_eq!(json["result"], "North Carolina");
    assert_eq!(json["code"], "US-NC");
    assert_eq!(json["type"], "subnational1");
    assert_eq!(json["bounds"]["minX"], -79.5);
    assert_eq!(json["bounds"]["maxX"], -78.5);
    assert_eq!(json["longitude"], -79.0);
    assert_eq!(json["latitude"], 36.0);

    let content = region.to_content();
    assert!(content.is_ok());
}

#[test]
fn handles_region_without_bounds() {
    let region = RegionInfo {
        bounds: None,
        result: "United States".into(),
        code: "US".into(),
        region_type: RegionType::Country,
        parent: None,
        longitude: Fixed { neg: true, mag: 980000 },
        latitude: Fixed { neg: false, mag: 390000 },
    };

    let json = reparse(&region.to_json());
    assert_eq!(json["result"], "United States");
    assert_eq!(json["code"], "US");
    assert_eq!(json["type"], "country");
    assert!(json["bounds"].is_null());

    let content = region.to_content();
    assert!(content.is_ok());
}

#[test]
fn handles_region_with_parent() {
    let region = RegionInfo {
        bounds: None,
        result: "North Carolina".into(),
        code: "US-NC".into(),
        region_type: RegionType::Subnational1,
        parent: Some(Box::new(RegionInfo {
            bounds: None,
            result: "United States".into(),
            code: "US".into(),
            region_type: RegionType::Country,
            parent: None,
            longitude: Fixed { neg: true, mag: 980000 },
            latitude: Fixed { neg: false, mag: 390000 },
        })),
        longitude: Fixed { neg: true, mag: 790000 },
        latitude: Fixed { neg: false, mag: 360000 },
    };

    let json = reparse(&region.to_json());
    assert_eq!(json["result"], "North Carolina");
    assert_eq!(json["parent"]["code"], "US");
    assert_eq!(json["parent"]["result"], "United States");
    assert_eq!(json["parent"]["type"], "country");

    let content = region.to_content();
    assert!(content.is_ok());
}

#[test]
fn compact_rendering_is_not_raw_json() {
    let obs = Observation {
        common_name: "Barn Swallow".into(),
        scientific_name: "Hirundo rustica".into(),
        location: "My Backyard".into(),
        observation_date: "2023-05-15 10:30".into(),
        count: Some(3),
        location_id: None,
        latitude: None,
        longitude: None,
    };
    let text = obs.to_content().unwrap();
    // The compact form is line-oriented "key: value" text, not the JSON
    // serialization fed into the encoder.
    assert!(!text.starts_with('{'));
    assert!(text.contains("comName: Barn Swallow"));
}
