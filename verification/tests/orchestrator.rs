//! The composite operations: the day-trip planner and the species finder.

use rubl::api::client::{ApiClient, TransportOutcome};
use rubl::prompts::trip::{day_trip_start, day_trip_step, find_species_finish,
    find_species_start, format_hotspots, format_notable, format_observations,
    parse_day_trip_args, parse_find_species_args, DayTripStep};
use rubl::server::require_api_key;
use rubl::tools::observations::Observation;
use rubl::tools::trip::get_trip_planning_guidelines;

fn ok_body(body: &str) -> TransportOutcome {
    TransportOutcome::Response { status: 200, body: Ok(body.to_string()) }
}

const REGION_INFO_BODY: &str = "{\"bounds\":null,\"result\":\"North Carolina\",\"code\":\"US-NC\",\"type\":\"subnational1\",\"parent\":null,\"longitude\":-79.0,\"latitude\":36.0}";

fn observation_records(n: u32) -> Vec<Observation> {
    (0..n)
        .map(|i| Observation {
            common_name: format!("Species {}", i),
            scientific_name: format!("Avis {}", i),
            location: "Somewhere".into(),
            observation_date: "2023-05-15".into(),
            count: Some(i + 1),
            location_id: None,
            latitude: None,
            longitude: None,
        })
        .collect()
}

#[test]
fn missing_region_is_refused() {
    let r = parse_day_trip_args(None, Some(4), None);
    assert_eq!(r.unwrap_err(), "Missing required argument: region");
}

#[test]
fn duration_defaults_to_six_hours() {
    let args = parse_day_trip_args(Some("US-NC".to_string()), None, None).unwrap();
    assert_eq!(args.duration_hours, 6);
}

#[test]
fn empty_lists_render_explicit_absence() {
    let client = ApiClient::new("k".to_string());
    let args = parse_day_trip_args(Some("US-NC".to_string()), Some(6), None).unwrap();
    let (state, request) = day_trip_start(&client, args);
    assert!(request.url.ends_with("/ref/region/info/US-NC"));

    let step = day_trip_step(&client, state, ok_body(REGION_INFO_BODY)).unwrap();
    let (state, request) = match step {
        DayTripStep::Continue(s, r) => (s, r),
        DayTripStep::Done(_) => panic!("the composition is not finished yet"),
    };
    assert!(request.url.ends_with("/data/obs/US-NC/recent/notable"));

    let step = day_trip_step(&client, state, ok_body("[]")).unwrap();
    let (state, request) = match step {
        DayTripStep::Continue(s, r) => (s, r),
        DayTripStep::Done(_) => panic!("the composition is not finished yet"),
    };
    assert!(request.url.ends_with("/ref/hotspot/US-NC"));
    assert_eq!(request.query[0], ("fmt".to_string(), "json".to_string()));

    let step = day_trip_step(&client, state, ok_body("[]")).unwrap();
    let doc = match step {
        DayTripStep::Done(doc) => doc,
        DayTripStep::Continue(..) => panic!("the composition is finished"),
    };
    assert!(doc.contains("No notable sightings in the last 7 days."));
    assert!(doc.contains("No hotspots found."));
    assert!(doc.contains("Plan a 6-hour birding day trip in North Carolina."));
}

#[test]
fn hotspot_failure_names_the_hotspot_step() {
    let client = ApiClient::new("k".to_string());
    let args = parse_day_trip_args(Some("US-NC".to_string()), Some(6), None).unwrap();
    let (state, _) = day_trip_start(&client, args);

    let step = day_trip_step(&client, state, ok_body(REGION_INFO_BODY)).unwrap();
    let state = match step {
        DayTripStep::Continue(s, _) => s,
        DayTripStep::Done(_) => panic!("the composition is not finished yet"),
    };
    let step = day_trip_step(&client, state, ok_body("[]")).unwrap();
    let state = match step {
        DayTripStep::Continue(s, _) => s,
        DayTripStep::Done(_) => panic!("the composition is not finished yet"),
    };

    let failing = TransportOutcome::Response {
        status: 500,
        body: Ok("Server error occurred".to_string()),
    };
    let err = day_trip_step(&client, state, failing).unwrap_err();
    assert_eq!(err, "Failed to fetch hotspots: eBird API returned 500: Server error occurred");
}

#[test]
fn region_info_failure_names_the_region_step() {
    let client = ApiClient::new("k".to_string());
    let args = parse_day_trip_args(Some("XX".to_string()), None, None).unwrap();
    let (state, _) = day_trip_start(&client, args);
    let failing = TransportOutcome::Failure { message: "dns failure".to_string() };
    let err = day_trip_step(&client, state, failing).unwrap_err();
    assert_eq!(err, "Failed to fetch region info: Network error: dns failure");
}

#[test]
fn target_species_adds_a_fourth_call() {
    let client = ApiClient::new("k".to_string());
    let args = parse_day_trip_args(
        Some("US-NC".to_string()),
        Some(8),
        Some("barswa".to_string()),
    )
    .unwrap();
    let (state, _) = day_trip_start(&client, args);
    let step = day_trip_step(&client, state, ok_body(REGION_INFO_BODY)).unwrap();
    let state = match step {
        DayTripStep::Continue(s, _) => s,
        DayTripStep::Done(_) => panic!("the composition is not finished yet"),
    };
    let step = day_trip_step(&client, state, ok_body("[]")).unwrap();
    let state = match step {
        DayTripStep::Continue(s, _) => s,
        DayTripStep::Done(_) => panic!("the composition is not finished yet"),
    };
    let step = day_trip_step(&client, state, ok_body("[]")).unwrap();
    let (state, request) = match step {
        DayTripStep::Continue(s, r) => (s, r),
        DayTripStep::Done(_) => panic!("the target species still has to be fetched"),
    };
    assert!(request.url.ends_with("/data/obs/US-NC/recent/barswa"));
    assert!(request.query.contains(&("back".to_string(), "14".to_string())));

    let step = day_trip_step(&client, state, ok_body("[]")).unwrap();
    let doc = match step {
        DayTripStep::Done(doc) => doc,
        DayTripStep::Continue(..) => panic!("the composition is finished"),
    };
    assert!(doc.contains("### Target Species: barswa"));
    assert!(doc.contains("No recent observations found."));
    assert!(doc.contains("Plan a 8-hour birding day trip in North Carolina."));
}

#[test]
fn notable_section_keeps_exactly_fifteen_lines() {
    let records = observation_records(25);
    let text = format_notable(&records);
    let lines: Vec<&str> = text.split('\n').collect();
    assert_eq!(lines.len(), 15);
    assert!(lines[0].contains("Species 0"));
    assert!(lines[14].contains("Species 14"));
    assert!(!text.contains("Species 15"));
}

#[test]
fn hotspot_section_keeps_at_most_ten_lines() {
    let hotspots: Vec<rubl::tools::hotspot::Hotspot> = (0..12)
        .map(|i| rubl::tools::hotspot::Hotspot {
            location_id: format!("L{}", i),
            name: format!("Spot {}", i),
            latitude: rubl::fixed::Fixed { neg: false, mag: 359132 },
            longitude: rubl::fixed::Fixed { neg: true, mag: 790558 },
            country_code: "US".into(),
            country_name: None,
            subnational1_code: "US-NC".into(),
            subnational1_name: None,
            subnational2_code: None,
            subnational2_name: None,
            is_hotspot: None,
            hierarchical_name: None,
            latest_observation_date: None,
            num_species_all_time: Some(100 + i),
            num_checklists_all_time: None,
        })
        .collect();
    let text = format_hotspots(&hotspots);
    assert_eq!(text.split('\n').count(), 10);
    assert_eq!(
        text.split('\n').next().unwrap(),
        "- **Spot 0** (ID: L0) — 35.9132°N, -79.0558°W — 100 species all-time"
    );
}

#[test]
fn observation_section_keeps_at_most_twenty_lines() {
    let records = observation_records(23);
    let text = format_observations(&records);
    assert_eq!(text.split('\n').count(), 20);
}

#[test]
fn unknown_count_renders_a_placeholder() {
    let records = vec![Observation {
        common_name: "Barn Swallow".into(),
        scientific_name: "Hirundo rustica".into(),
        location: "My Backyard".into(),
        observation_date: "2023-05-15".into(),
        count: None,
        location_id: None,
        latitude: None,
        longitude: None,
    }];
    let text = format_notable(&records);
    assert_eq!(
        text,
        "- **Barn Swallow** (Hirundo rustica) at My Backyard on 2023-05-15 (count: X)"
    );
}

#[test]
fn find_species_requires_both_arguments() {
    let r = parse_find_species_args(None, Some("US-NC".to_string()));
    assert_eq!(r.unwrap_err(), "Missing required argument: species_code");
    let r = parse_find_species_args(Some("barswa".to_string()), None);
    assert_eq!(r.unwrap_err(), "Missing required argument: region");
}

#[test]
fn find_species_builds_one_document() {
    let client = ApiClient::new("k".to_string());
    let args = parse_find_species_args(
        Some("barswa".to_string()),
        Some("US-NC".to_string()),
    )
    .unwrap();
    let request = find_species_start(&client, &args);
    assert!(request.url.ends_with("/data/obs/US-NC/recent/barswa"));

    let body = "[{\"comName\":\"Barn Swallow\",\"sciName\":\"Hirundo rustica\",\"locName\":\"My Backyard\",\"obsDt\":\"2023-05-15 10:30\",\"howMany\":3}]";
    let doc = find_species_finish(&client, &args, ok_body(body)).unwrap();
    assert!(doc.contains("Find the best locations and times to see **barswa** in US-NC."));
    assert!(doc.contains("- Barn Swallow at My Backyard on 2023-05-15 10:30 (count: 3)"));
}

#[test]
fn find_species_failure_names_the_step() {
    let client = ApiClient::new("k".to_string());
    let args = parse_find_species_args(
        Some("barswa".to_string()),
        Some("US-NC".to_string()),
    )
    .unwrap();
    let failing = TransportOutcome::Response { status: 400, body: Ok("bad".to_string()) };
    let err = find_species_finish(&client, &args, failing).unwrap_err();
    assert_eq!(err, "Failed to fetch species observations: eBird API returned 400: bad");
}

#[test]
fn guidelines_cover_the_day() {
    let guidelines = get_trip_planning_guidelines();
    assert!(guidelines.contains("Dawn"));
    assert!(guidelines.contains("Time of Day"));
    assert!(guidelines.contains("Location Sequencing"));
}

#[test]
fn missing_api_key_prevents_startup() {
    let r = require_api_key(None);
    assert_eq!(r.unwrap_err(), "EBIRD_API_KEY environment variable is required");
}

#[test]
fn present_api_key_is_admitted() {
    let r = require_api_key(Some("SECRET-REDACTED".to_string()));
    assert_eq!(r.unwrap(), "SECRET-REDACTED");
}

#[test]
fn decode_failure_text_names_step_and_cause() {
    let client = ApiClient::new("k".to_string());
    let args = parse_day_trip_args(Some("US-NC".to_string()), None, None).unwrap();
    let (state, _) = day_trip_start(&client, args);
    let step = day_trip_step(&client, state, ok_body(REGION_INFO_BODY)).unwrap();
    let state = match step {
        DayTripStep::Continue(s, _) => s,
        DayTripStep::Done(_) => panic!("the composition is not finished yet"),
    };
    let err = day_trip_step(&client, state, ok_body("{\"not\":\"a list\"}")).unwrap_err();
    assert_eq!(
        err,
        "Failed to fetch notable sightings: Failed to deserialize API response: response body is not a list of observations"
    );
}
