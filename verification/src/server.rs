//! The tool router: the fixed registry of externally invocable tools, each
//! one a pipeline of endpoint construction, dispatch, and encoding.
//!
//! The protocol wiring that carries tool names and raw arguments lives
//! outside the crate; it validates the caller's arguments into one of the
//! request types below, performs the one network round trip, and hands the
//! outcome back. Every decision between those edges is verified.

use vstd::prelude::*;

use crate::api::client::{decode_failure_text, decoded_of, is_success, prepared_for,
    unreadable_body_text, ApiClient, PreparedRequest, TransportOutcome};
use crate::api::endpoint::ResponseKind;
use crate::content::{decoded_json, toon_err_of, toon_ok_of, toon_text_of, ToContent};
use crate::json::write::write_spec;
use crate::text::dec_digits;
use crate::tools::hotspot::{FetchHotspotInfoRequest, FetchNearbyHotspotsRequest,
    FetchRegionHotspotsRequest};
use crate::tools::observations::{FetchGeoRecentRequest, FetchHistoricRequest,
    FetchNotableRecentRequest, FetchRegionRecentRequest, FetchSpeciesNearestRequest,
    FetchSpeciesRecentRequest};
use crate::tools::region::{GetRegionInfoRequest, GetSubRegionsRequest};

verus! {

broadcast use vstd::seq::group_seq_axioms, vstd::std_specs::vec::group_vec_axioms;

/// One validated invocation of a named tool: each variant is one entry of
/// the registry, carrying the validated input of that tool.
#[derive(Debug)]
pub enum ToolCall {
    FetchNotableRecent(FetchNotableRecentRequest),
    FetchRegionRecent(FetchRegionRecentRequest),
    FetchGeoRecent(FetchGeoRecentRequest),
    FetchRegionHotspots(FetchRegionHotspotsRequest),
    FetchNearbyHotspots(FetchNearbyHotspotsRequest),
    FetchHotspotInfo(FetchHotspotInfoRequest),
    GetRegionInfo(GetRegionInfoRequest),
    GetSubRegions(GetSubRegionsRequest),
    FetchSpeciesRecent(FetchSpeciesRecentRequest),
    FetchSpeciesNearest(FetchSpeciesNearestRequest),
    FetchHistoric(FetchHistoricRequest),
}

/// The request a tool invocation puts on the wire: exactly its endpoint
/// descriptor, prepared against the dispatcher's transport.
pub open spec fn tool_prepared(client: ApiClient, call: ToolCall, r: PreparedRequest) -> bool {
    match call {
        ToolCall::FetchNotableRecent(req) => prepared_for(client, r, req),
        ToolCall::FetchRegionRecent(req) => prepared_for(client, r, req),
        ToolCall::FetchGeoRecent(req) => prepared_for(client, r, req),
        ToolCall::FetchRegionHotspots(req) => prepared_for(client, r, req),
        ToolCall::FetchNearbyHotspots(req) => prepared_for(client, r, req),
        ToolCall::FetchHotspotInfo(req) => prepared_for(client, r, req),
        ToolCall::GetRegionInfo(req) => prepared_for(client, r, req),
        ToolCall::GetSubRegions(req) => prepared_for(client, r, req),
        ToolCall::FetchSpeciesRecent(req) => prepared_for(client, r, req),
        ToolCall::FetchSpeciesNearest(req) => prepared_for(client, r, req),
        ToolCall::FetchHistoric(req) => prepared_for(client, r, req),
    }
}

/// Builds the request of one tool invocation.
pub fn tool_prepare(client: &ApiClient, call: &ToolCall) -> (r: PreparedRequest)
    ensures
        tool_prepared(*client, *call, r),
{
    match call {
        ToolCall::FetchNotableRecent(req) => client.prepare(req),
        ToolCall::FetchRegionRecent(req) => client.prepare(req),
        ToolCall::FetchGeoRecent(req) => client.prepare(req),
        ToolCall::FetchRegionHotspots(req) => client.prepare(req),
        ToolCall::FetchNearbyHotspots(req) => client.prepare(req),
        ToolCall::FetchHotspotInfo(req) => client.prepare(req),
        ToolCall::GetRegionInfo(req) => client.prepare(req),
        ToolCall::GetSubRegions(req) => client.prepare(req),
        ToolCall::FetchSpeciesRecent(req) => client.prepare(req),
        ToolCall::FetchSpeciesNearest(req) => client.prepare(req),
        ToolCall::FetchHistoric(req) => client.prepare(req),
    }
}

/// What finishing one tool invocation guarantees: a transport failure or a
/// refused status yields the corresponding error text exactly; a success
/// status yields the compact rendering of the decoded payload exactly when
/// the body decodes and the encoder accepts its canonical representation,
/// and otherwise the decoding or encoding report, exactly. Every error
/// text is a function of the outcome and the kind alone.
pub open spec fn tool_finish_spec(
    kind: ResponseKind,
    outcome: TransportOutcome,
    r: Result<String, String>,
) -> bool {
    match outcome {
        TransportOutcome::Failure { message } => match r {
            Err(m) => m@ == "Network error: "@ + message@,
            _ => false,
        },
        TransportOutcome::Response { status, body } => if !is_success(status) {
            match r {
                Err(m) => m@ == "eBird API returned "@ + dec_digits(status as nat) + ": "@
                    + (match body {
                    Ok(t) => t@,
                    Err(_) => unreadable_body_text(),
                }),
                _ => false,
            }
        } else {
            match r {
                Ok(t) => match decoded_of(outcome, kind) {
                    Some(dv) => toon_ok_of(write_spec(decoded_json(dv))) && t@ == toon_text_of(
                        write_spec(decoded_json(dv)),
                    ),
                    None => false,
                },
                Err(m) => match decoded_of(outcome, kind) {
                    Some(dv) => !toon_ok_of(write_spec(decoded_json(dv))) && m@
                        == "Failed to serialize request parameters: "@ + toon_err_of(
                        write_spec(decoded_json(dv)),
                    ),
                    None => m@ == "Failed to deserialize API response: "@ + decode_failure_text(
                        kind,
                        body,
                    ),
                },
            }
        },
    }
}

/// Dispatches the outcome of one tool invocation: the decoded payload is
/// rendered compactly; every error becomes its descriptive text for the
/// protocol's internal-error report. Nothing is retried.
pub fn tool_finish(client: &ApiClient, kind: ResponseKind, outcome: TransportOutcome) -> (r:
    Result<String, String>)
    ensures
        tool_finish_spec(kind, outcome, r),
{
    match client.complete(kind, outcome) {
        Err(e) => Err(e.message()),
        Ok(d) => {
            proof {
                assert(decoded_of(outcome, kind) == Some(d@));
            }
            match d.to_content() {
                Ok(t) => Ok(t),
                Err(e) => Err(e.message()),
            }
        },
    }
}

/// The guidance text the service reports about itself.
pub fn server_instructions() -> (r: String)
    ensures
        r@
            == "eBird API tools: region hierarchy (get_region_info, list_subregions), notable sightings (fetch_rare), and nearby birding locations (get_nearby_hotspots). Region codes are like US, US-NC, US-NC-067. All tools are read-only."@,
{
    String::from_str(
        "eBird API tools: region hierarchy (get_region_info, list_subregions), notable sightings (fetch_rare), and nearby birding locations (get_nearby_hotspots). Region codes are like US, US-NC, US-NC-067. All tools are read-only.",
    )
}

/// Admits the service's one required secret: without it, the service
/// refuses to start, with a diagnostic naming the missing configuration.
pub fn require_api_key(value: Option<String>) -> (r: Result<String, String>)
    ensures
        match value {
            None => r matches Err(m) && m@ == "EBIRD_API_KEY environment variable is required"@,
            Some(k) => r matches Ok(key) && key == k,
        },
{
    match value {
        Some(k) => Ok(k),
        None => Err(String::from_str("EBIRD_API_KEY environment variable is required")),
    }
}

} // verus!
