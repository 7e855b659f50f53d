//! Paths, query parameters, and format overrides of every endpoint
//! descriptor.

use rubl::api::endpoint::Endpoint;
use rubl::fixed::Fixed;
use rubl::tools::hotspot::{FetchHotspotInfoRequest, FetchNearbyHotspotsRequest,
    FetchRegionHotspotsRequest};
use rubl::tools::observations::{FetchGeoRecentRequest, FetchHistoricRequest,
    FetchNotableRecentRequest, FetchRegionRecentRequest, FetchSpeciesNearestRequest,
    FetchSpeciesRecentRequest};
use rubl::tools::region::{GetRegionInfoRequest, GetSubRegionsRequest};

fn has_pair(q: &[(String, String)], key: &str, value: &str) -> bool {
    q.iter().any(|p| p.0 == key && p.1 == value)
}

fn has_key(q: &[(String, String)], key: &str) -> bool {
    q.iter().any(|p| p.0 == key)
}

#[test]
fn hotspot_path_includes_region_code() {
    let req = FetchRegionHotspotsRequest { region_code: "US-NC".into(), back: None };
    assert_eq!(req.path(), "ref/hotspot/US-NC");
}

#[test]
fn hotspot_path_with_different_region() {
    let req = FetchRegionHotspotsRequest { region_code: "US-CA".into(), back: Some(7) };
    assert_eq!(req.path(), "ref/hotspot/US-CA");
}

#[test]
fn hotspot_query_includes_back_parameter_when_present() {
    let req = FetchRegionHotspotsRequest { region_code: "US-NC".into(), back: Some(14) };
    let q = req.query();
    assert!(has_pair(&q, "back", "14"));
}

#[test]
fn hotspot_format_returns_json() {
    let req = FetchRegionHotspotsRequest { region_code: "US-NC".into(), back: None };
    assert_eq!(req.format(), Some("json".to_string()));
}

#[test]
fn hotspot_path_is_constant() {
    let req = FetchNearbyHotspotsRequest {
        lat: Fixed { neg: false, mag: 359132 },
        lng: Fixed { neg: true, mag: 790558 },
        dist: None,
        back: None,
    };
    assert_eq!(req.path(), "ref/hotspot/geo");
}

#[test]
fn hotspot_query_includes_coordinates() {
    let req = FetchNearbyHotspotsRequest {
        lat: Fixed { neg: false, mag: 359132 },
        lng: Fixed { neg: true, mag: 790558 },
        dist: None,
        back: None,
    };
    let q = req.query();
    assert!(has_pair(&q, "lat", "35.9132"));
    assert!(has_pair(&q, "lng", "-79.0558"));
}

#[test]
fn hotspot_query_includes_optional_parameters() {
    let req = FetchNearbyHotspotsRequest {
        lat: Fixed { neg: false, mag: 359132 },
        lng: Fixed { neg: true, mag: 790558 },
        dist: Some(Fixed { neg: false, mag: 500000 }),
        back: Some(7),
    };
    let q = req.query();
    let dist = q.iter().find(|p| p.0 == "dist").expect("dist is sent");
    assert_eq!(dist.1.parse::<f64>().unwrap(), 50.0);
    assert!(has_pair(&q, "back", "7"));
}

#[test]
fn hotspot_geo_format_returns_json() {
    let req = FetchNearbyHotspotsRequest {
        lat: Fixed { neg: false, mag: 359132 },
        lng: Fixed { neg: true, mag: 790558 },
        dist: None,
        back: None,
    };
    assert_eq!(req.format(), Some("json".to_string()));
}

#[test]
fn path_includes_location_id() {
    let req = FetchHotspotInfoRequest { loc_id: "L123456".into() };
    assert_eq!(req.path(), "ref/hotspot/info/L123456");
}

#[test]
fn path_with_different_location() {
    let req = FetchHotspotInfoRequest { loc_id: "L789012".into() };
    assert_eq!(req.path(), "ref/hotspot/info/L789012");
}

#[test]
fn query_returns_self() {
    let req = FetchHotspotInfoRequest { loc_id: "L123456".into() };
    // The location id travels in the path; the query carries nothing.
    let _query = req.query();
}

#[test]
fn hotspot_info_format_returns_json() {
    let req = FetchHotspotInfoRequest { loc_id: "L123456".into() };
    assert_eq!(req.format(), Some("json".to_string()));
}

#[test]
fn observations_path_includes_region_code() {
    let req = FetchRegionRecentRequest { region_code: "US-NC".into(), back: None };
    assert_eq!(req.path(), "data/obs/US-NC/recent");
}

#[test]
fn path_with_different_region_code() {
    let req = FetchRegionRecentRequest { region_code: "US-CA".into(), back: None };
    assert_eq!(req.path(), "data/obs/US-CA/recent");
}

#[test]
fn observations_query_includes_back_parameter_when_present() {
    let req = FetchRegionRecentRequest { region_code: "US-NC".into(), back: Some(7) };
    let q = req.query();
    assert!(has_pair(&q, "back", "7"));
}

#[test]
fn query_omits_back_parameter_when_none() {
    let req = FetchRegionRecentRequest { region_code: "US-NC".into(), back: None };
    let q = req.query();
    assert!(!has_key(&q, "back"));
}

#[test]
fn observations_path_is_constant() {
    let req = FetchGeoRecentRequest {
        lat: Fixed { neg: false, mag: 359132 },
        lng: Fixed { neg: true, mag: 790558 },
        back: None,
    };
    assert_eq!(req.path(), "data/obs/geo/recent");
}

#[test]
fn observations_query_includes_coordinates() {
    let req = FetchGeoRecentRequest {
        lat: Fixed { neg: false, mag: 359132 },
        lng: Fixed { neg: true, mag: 790558 },
        back: None,
    };
    let q = req.query();
    assert!(has_pair(&q, "lat", "35.9132"));
    assert!(has_pair(&q, "lng", "-79.0558"));
}

#[test]
fn geo_query_includes_back_parameter_when_present() {
    let req = FetchGeoRecentRequest {
        lat: Fixed { neg: false, mag: 359132 },
        lng: Fixed { neg: true, mag: 790558 },
        back: Some(14),
    };
    let q = req.query();
    assert!(has_pair(&q, "back", "14"));
}

#[test]
fn path_includes_region_code_and_notable() {
    let req = FetchNotableRecentRequest { region_code: "US-NC".into(), back: None };
    assert_eq!(req.path(), "data/obs/US-NC/recent/notable");
}

#[test]
fn query_includes_back_parameter() {
    let req = FetchNotableRecentRequest { region_code: "US-NC".into(), back: Some(3) };
    let q = req.query();
    assert!(has_pair(&q, "back", "3"));
}

#[test]
fn path_includes_region_and_species() {
    let req = FetchSpeciesRecentRequest {
        region_code: "US-NC".into(),
        species_code: "barswa".into(),
        back: None,
    };
    assert_eq!(req.path(), "data/obs/US-NC/recent/barswa");
}

#[test]
fn path_with_different_species() {
    let req = FetchSpeciesRecentRequest {
        region_code: "US-CA".into(),
        species_code: "caltow".into(),
        back: Some(7),
    };
    assert_eq!(req.path(), "data/obs/US-CA/recent/caltow");
}

#[test]
fn query_serializes_back_parameter() {
    let req = FetchSpeciesRecentRequest {
        region_code: "US-NC".into(),
        species_code: "barswa".into(),
        back: Some(10),
    };
    let q = req.query();
    assert!(has_pair(&q, "back", "10"));
}

#[test]
fn path_includes_species_code() {
    let req = FetchSpeciesNearestRequest {
        species_code: "barswa".into(),
        lat: Fixed { neg: false, mag: 359132 },
        lng: Fixed { neg: true, mag: 790558 },
        dist: None,
        back: None,
    };
    assert_eq!(req.path(), "data/nearest/geo/recent/barswa");
}

#[test]
fn nearest_query_includes_coordinates() {
    let req = FetchSpeciesNearestRequest {
        species_code: "barswa".into(),
        lat: Fixed { neg: false, mag: 359132 },
        lng: Fixed { neg: true, mag: 790558 },
        dist: None,
        back: None,
    };
    let q = req.query();
    assert!(has_pair(&q, "lat", "35.9132"));
    assert!(has_pair(&q, "lng", "-79.0558"));
}

#[test]
fn observations_query_includes_optional_parameters() {
    let req = FetchSpeciesNearestRequest {
        species_code: "barswa".into(),
        lat: Fixed { neg: false, mag: 359132 },
        lng: Fixed { neg: true, mag: 790558 },
        dist: Some(25),
        back: Some(7),
    };
    let q = req.query();
    assert!(has_pair(&q, "dist", "25"));
    assert!(has_pair(&q, "back", "7"));
}

#[test]
fn path_formats_date_correctly() {
    let req = FetchHistoricRequest {
        region_code: "US-NC".into(),
        year: 2023,
        month: 1,
        day: 15,
    };
    assert_eq!(req.path(), "data/obs/US-NC/historic/2023/1/15");
}

#[test]
fn path_formats_single_digit_date() {
    let req = FetchHistoricRequest { region_code: "US-NC".into(), year: 2023, month: 5, day: 3 };
    assert_eq!(req.path(), "data/obs/US-NC/historic/2023/5/3");
}

#[test]
fn path_formats_double_digit_date() {
    let req = FetchHistoricRequest {
        region_code: "US-CA".into(),
        year: 2022,
        month: 12,
        day: 31,
    };
    assert_eq!(req.path(), "data/obs/US-CA/historic/2022/12/31");
}

#[test]
fn observations_query_returns_empty_tuple() {
    let req = FetchHistoricRequest {
        region_code: "US-NC".into(),
        year: 2023,
        month: 1,
        day: 15,
    };
    assert_eq!(req.query().len(), 0);
}

#[test]
fn region_path_includes_region_code() {
    let req = GetRegionInfoRequest { region_code: "US-NC".into() };
    assert_eq!(req.path(), "ref/region/info/US-NC");
}

#[test]
fn region_path_with_different_region() {
    let req = GetRegionInfoRequest { region_code: "US-CA".into() };
    assert_eq!(req.path(), "ref/region/info/US-CA");
}

#[test]
fn region_path_with_country_code() {
    let req = GetRegionInfoRequest { region_code: "US".into() };
    assert_eq!(req.path(), "ref/region/info/US");
}

#[test]
fn region_query_returns_empty_tuple() {
    let req = GetRegionInfoRequest { region_code: "US-NC".into() };
    assert_eq!(req.query().len(), 0);
}

#[test]
fn subregions_path_includes_region_code() {
    let req = GetSubRegionsRequest { region_code: "US-NC".into() };
    assert_eq!(req.path(), "ref/region/list/subnational2/US-NC");
}

#[test]
fn subregions_path_with_different_region() {
    let req = GetSubRegionsRequest { region_code: "US-CA".into() };
    assert_eq!(req.path(), "ref/region/list/subnational2/US-CA");
}

#[test]
fn subregions_path_with_country_code() {
    let req = GetSubRegionsRequest { region_code: "US".into() };
    assert_eq!(req.path(), "ref/region/list/subnational2/US");
}

#[test]
fn subregions_query_returns_empty_tuple() {
    let req = GetSubRegionsRequest { region_code: "US-NC".into() };
    assert_eq!(req.query().len(), 0);
}
