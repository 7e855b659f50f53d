//! The typed dispatcher: request construction and outcome classification.

use rubl::api::client::{ApiClient, DecodedResponse, TransportOutcome};
use rubl::api::endpoint::ResponseKind;
use rubl::api::error::ApiError;
use rubl::server::{tool_finish, tool_prepare, ToolCall};
use rubl::tools::hotspot::FetchRegionHotspotsRequest;
use rubl::tools::observations::FetchNotableRecentRequest;

#[test]
fn prepare_builds_url_and_auth_header() {
    let client = ApiClient::new("SECRET-REDACTED".to_string());
    let req = client.prepare(&FetchNotableRecentRequest {
        region_code: "US-NC".into(),
        back: Some(7),
    });
    assert_eq!(req.url, "https://api.ebird.org/v2/data/obs/US-NC/recent/notable");
    assert_eq!(req.header_name, "X-eBirdApiToken");
    assert_eq!(req.header_value, "SECRET-REDACTED");
    assert_eq!(req.kind, ResponseKind::ObservationList);
    assert_eq!(req.query, vec![("back".to_string(), "7".to_string())]);
}

#[test]
fn prepare_injects_format_override_first() {
    let client = ApiClient::with_base_url("http://localhost:9".to_string(), "k".to_string());
    let req = client.prepare(&FetchRegionHotspotsRequest {
        region_code: "US-NC".into(),
        back: Some(7),
    });
    assert_eq!(req.url, "http://localhost:9/ref/hotspot/US-NC");
    assert_eq!(
        req.query,
        vec![
            ("fmt".to_string(), "json".to_string()),
            ("back".to_string(), "7".to_string()),
        ]
    );
}

#[test]
fn non_success_status_yields_http_error_before_any_decoding() {
    // The body is not valid JSON for the response type; the status alone
    // must decide.
    let client = ApiClient::new("k".to_string());
    let outcome = TransportOutcome::Response {
        status: 400,
        body: Ok("Invalid region code".to_string()),
    };
    match client.complete(ResponseKind::ObservationList, outcome) {
        Err(ApiError::HttpError { status, body }) => {
            assert_eq!(status, 400);
            assert_eq!(body, "Invalid region code");
        },
        other => panic!("unexpected: {:?}", other),
    }
}

#[test]
fn success_status_with_undecodable_body_yields_deserialization() {
    let client = ApiClient::new("k".to_string());
    let outcome = TransportOutcome::Response {
        status: 200,
        body: Ok("not json at all".to_string()),
    };
    match client.complete(ResponseKind::ObservationList, outcome) {
        Err(ApiError::Deserialization { .. }) => {},
        other => panic!("unexpected: {:?}", other),
    }
}

#[test]
fn success_status_with_wrong_shape_yields_deserialization() {
    let client = ApiClient::new("k".to_string());
    let outcome = TransportOutcome::Response {
        status: 200,
        body: Ok("{\"unexpected\":true}".to_string()),
    };
    match client.complete(ResponseKind::ObservationList, outcome) {
        Err(ApiError::Deserialization { .. }) => {},
        other => panic!("unexpected: {:?}", other),
    }
}

#[test]
fn transport_failure_yields_network_error() {
    let client = ApiClient::new("k".to_string());
    let outcome = TransportOutcome::Failure { message: "connection refused".to_string() };
    match client.complete(ResponseKind::ObservationList, outcome) {
        Err(ApiError::Network { message }) => assert_eq!(message, "connection refused"),
        other => panic!("unexpected: {:?}", other),
    }
}

#[test]
fn unreadable_error_body_degrades_to_placeholder() {
    let client = ApiClient::new("k".to_string());
    let outcome = TransportOutcome::Response {
        status: 502,
        body: Err("stream closed".to_string()),
    };
    match client.complete(ResponseKind::ObservationList, outcome) {
        Err(ApiError::HttpError { status, body }) => {
            assert_eq!(status, 502);
            assert_eq!(body, "(unable to read response body)");
        },
        other => panic!("unexpected: {:?}", other),
    }
}

#[test]
fn success_body_decodes_into_records() {
    let client = ApiClient::new("k".to_string());
    let body = "[{\"comName\":\"Barn Swallow\",\"sciName\":\"Hirundo rustica\",\"locName\":\"My Backyard\",\"obsDt\":\"2023-05-15 10:30\",\"howMany\":3}]";
    let outcome = TransportOutcome::Response { status: 200, body: Ok(body.to_string()) };
    match client.complete(ResponseKind::ObservationList, outcome) {
        Ok(DecodedResponse::Observations(list)) => {
            assert_eq!(list.len(), 1);
            assert_eq!(list[0].common_name, "Barn Swallow");
            assert_eq!(list[0].count, Some(3));
            assert_eq!(list[0].location_id, None);
        },
        other => panic!("unexpected: {:?}", other),
    }
}

#[test]
fn tool_pipeline_renders_compact_text() {
    let client = ApiClient::new("k".to_string());
    let call = ToolCall::FetchNotableRecent(FetchNotableRecentRequest {
        region_code: "US-NC".into(),
        back: Some(7),
    });
    let prepared = tool_prepare(&client, &call);
    assert_eq!(prepared.url, "https://api.ebird.org/v2/data/obs/US-NC/recent/notable");

    let body = "[{\"comName\":\"Barn Swallow\",\"sciName\":\"Hirundo rustica\",\"locName\":\"My Backyard\",\"obsDt\":\"2023-05-15 10:30\",\"howMany\":3}]";
    let outcome = TransportOutcome::Response { status: 200, body: Ok(body.to_string()) };
    let text = tool_finish(&client, prepared.kind, outcome).expect("the pipeline succeeds");
    assert!(text.contains("Barn Swallow"));
}

#[test]
fn tool_pipeline_reports_error_text() {
    let client = ApiClient::new("k".to_string());
    let outcome = TransportOutcome::Response {
        status: 404,
        body: Ok("Region not found".to_string()),
    };
    let err = tool_finish(&client, ResponseKind::ObservationList, outcome).unwrap_err();
    assert_eq!(err, "eBird API returned 404: Region not found");
}

#[test]
fn tool_pipeline_reports_decode_failure_text() {
    let client = ApiClient::new("k".to_string());
    let outcome = TransportOutcome::Response { status: 200, body: Ok("7".to_string()) };
    let err = tool_finish(&client, ResponseKind::HotspotList, outcome).unwrap_err();
    assert_eq!(
        err,
        "Failed to deserialize API response: response body is not a list of hotspots"
    );
}
