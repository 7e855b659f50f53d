//! The typed dispatcher: one authenticated transport description, any
//! endpoint, and one classification of every outcome.
//!
//! The network round trip itself is performed outside the crate. The
//! dispatcher builds the complete request on the way out ([`ApiClient::prepare`])
//! and classifies and decodes whatever came back on the way in
//! ([`ApiClient::complete`]); every decision on both sides is verified.

use vstd::prelude::*;

use crate::api::endpoint::{pairs_view, Endpoint, HttpMethod, ResponseKind};
use crate::api::error::ApiError;
use crate::json::parse::{json_parse_spec, parse_json};
use crate::json::value::JsonSpec;
use crate::tools::hotspot::{hotspot_list_of_json, hotspot_of_json, hotspot_views, Hotspot};
use crate::tools::observations::{obs_list_of_json, obs_views, Observation};
use crate::tools::region::{region_of_json, subregion_list_of_json, subregion_views, RegionInfo,
    SubRegion};

verus! {

broadcast use vstd::seq::group_seq_axioms, vstd::std_specs::vec::group_vec_axioms;

/// The fixed base address of the remote service.
pub open spec fn default_base_url() -> Seq<char> {
    "https://api.ebird.org/v2"@
}

/// The header that carries the secret key on every request.
pub open spec fn auth_header_name() -> Seq<char> {
    "X-eBirdApiToken"@
}

/// The authenticated transport: a base address fixed at construction and
/// the secret key attached to every call.
#[derive(Debug, Clone)]
pub struct ApiClient {
    pub base_url: String,
    pub api_key: String,
}

/// Everything the transport needs to perform one call: the method, the
/// full URL, the query parameters in order, and the one authentication
/// header.
#[derive(Debug)]
pub struct PreparedRequest {
    pub method: HttpMethod,
    pub url: String,
    pub query: Vec<(String, String)>,
    pub header_name: String,
    pub header_value: String,
    pub kind: ResponseKind,
}

/// What the transport reports back from one attempted call: either that
/// the call itself failed, or the status with the body text (or the reason
/// the body could not be read).
#[derive(Debug)]
pub enum TransportOutcome {
    Failure { message: String },
    Response { status: u16, body: Result<String, String> },
}

/// One decoded response payload.
#[derive(Debug)]
pub enum DecodedResponse {
    Observations(Vec<Observation>),
    Hotspots(Vec<Hotspot>),
    HotspotDetail(Hotspot),
    Region(RegionInfo),
    SubRegions(Vec<SubRegion>),
}

/// The mathematical shape of a decoded response payload.
pub enum DecodedView {
    Observations(Seq<crate::tools::observations::ObsView>),
    Hotspots(Seq<crate::tools::hotspot::HotspotView>),
    HotspotDetail(crate::tools::hotspot::HotspotView),
    Region(crate::tools::region::RegionInfoView),
    SubRegions(Seq<crate::tools::region::SubRegionView>),
}

impl View for DecodedResponse {
    type V = DecodedView;

    open spec fn view(&self) -> DecodedView {
        match self {
            DecodedResponse::Observations(list) => DecodedView::Observations(obs_views(list@)),
            DecodedResponse::Hotspots(list) => DecodedView::Hotspots(hotspot_views(list@)),
            DecodedResponse::HotspotDetail(h) => DecodedView::HotspotDetail(h@),
            DecodedResponse::Region(r) => DecodedView::Region(r@),
            DecodedResponse::SubRegions(list) => DecodedView::SubRegions(subregion_views(list@)),
        }
    }
}

/// The payload a JSON document denotes under a given response kind.
pub open spec fn kind_decode(kind: ResponseKind, j: JsonSpec) -> Option<DecodedView> {
    match kind {
        ResponseKind::ObservationList => match obs_list_of_json(j) {
            Some(list) => Some(DecodedView::Observations(list)),
            None => None,
        },
        ResponseKind::HotspotList => match hotspot_list_of_json(j) {
            Some(list) => Some(DecodedView::Hotspots(list)),
            None => None,
        },
        ResponseKind::HotspotOne => match hotspot_of_json(j) {
            Some(h) => Some(DecodedView::HotspotDetail(h)),
            None => None,
        },
        ResponseKind::RegionInfoRecord => match region_of_json(j) {
            Some(r) => Some(DecodedView::Region(r)),
            None => None,
        },
        ResponseKind::SubRegionList => match subregion_list_of_json(j) {
            Some(list) => Some(DecodedView::SubRegions(list)),
            None => None,
        },
    }
}

/// An HTTP status that counts as success.
pub open spec fn is_success(status: u16) -> bool {
    200 <= status < 300
}

/// The query parameters actually sent: the format override, when the
/// endpoint declares one, stands before the endpoint's own parameters, so
/// a caller-supplied format can still override it downstream.
pub open spec fn full_query(fmt: Option<Seq<char>>, q: Seq<(Seq<char>, Seq<char>)>) -> Seq<
    (Seq<char>, Seq<char>),
> {
    match fmt {
        None => q,
        Some(f) => seq![("fmt"@, f)] + q,
    }
}

/// The payload one transport outcome denotes under a response kind: a
/// success status whose body text denotes a document of the expected
/// shape, and nothing otherwise.
pub open spec fn decoded_of(outcome: TransportOutcome, kind: ResponseKind) -> Option<
    DecodedView,
> {
    match outcome {
        TransportOutcome::Response { status, body } => if is_success(status) {
            match body {
                Ok(text) => match json_parse_spec(text@) {
                    Some(j) => kind_decode(kind, j),
                    None => None,
                },
                Err(_) => None,
            }
        } else {
            None
        },
        TransportOutcome::Failure { .. } => None,
    }
}

/// The body text an error report keeps when the body could not be read.
pub open spec fn unreadable_body_text() -> Seq<char> {
    "(unable to read response body)"@
}

/// The fixed phrase reporting that a parsed body did not have the shape a
/// response kind expects.
pub open spec fn shape_failure_text(kind: ResponseKind) -> Seq<char> {
    match kind {
        ResponseKind::ObservationList => "response body is not a list of observations"@,
        ResponseKind::HotspotList => "response body is not a list of hotspots"@,
        ResponseKind::HotspotOne => "response body is not a hotspot"@,
        ResponseKind::RegionInfoRecord => "response body is not a region record"@,
        ResponseKind::SubRegionList => "response body is not a list of regions"@,
    }
}

/// The detail a deserialization report carries: the reason the body could
/// not be read, or the fixed phrase for text that is not valid JSON, or
/// the fixed phrase for a document of the wrong shape.
pub open spec fn decode_failure_text(kind: ResponseKind, body: Result<String, String>) -> Seq<
    char,
> {
    match body {
        Err(m) => m@,
        Ok(text) => match json_parse_spec(text@) {
            None => "response body is not valid JSON"@,
            Some(_) => shape_failure_text(kind),
        },
    }
}

/// The full classification of one transport outcome, as the dispatcher
/// promises it: a transport failure is reported as a network error with
/// the cause preserved; a non-success status is reported as an HTTP error
/// carrying the status and the verbatim body, before any decoding is
/// attempted; on a success status, a body text that denotes a document of
/// the expected shape yields exactly the payload it denotes, and anything
/// else is reported as a deserialization error carrying the fixed phrase
/// for what went wrong. Every error text is a function of the outcome and
/// the kind alone, so the authentication key never appears in one.
pub open spec fn completes(
    kind: ResponseKind,
    outcome: TransportOutcome,
    r: Result<DecodedResponse, ApiError>,
) -> bool {
    match outcome {
        TransportOutcome::Failure { message } => match r {
            Err(ApiError::Network { message: m }) => m == message,
            _ => false,
        },
        TransportOutcome::Response { status, body } => {
            if !is_success(status) {
                match r {
                    Err(ApiError::HttpError { status: s, body: b }) => s == status && b@
                        == (match body {
                        Ok(t) => t@,
                        Err(_) => unreadable_body_text(),
                    }),
                    _ => false,
                }
            } else {
                match r {
                    Ok(d) => (match body {
                        Ok(text) => match json_parse_spec(text@) {
                            Some(j) => kind_decode(kind, j) == Some(d@),
                            None => false,
                        },
                        Err(_) => false,
                    }),
                    Err(ApiError::Deserialization { message }) => message@
                        == decode_failure_text(kind, body) && (match body {
                        Ok(text) => match json_parse_spec(text@) {
                            Some(j) => kind_decode(kind, j) is None,
                            None => true,
                        },
                        Err(_) => true,
                    }),
                    _ => false,
                }
            }
        },
    }
}

/// What a prepared request promises about the endpoint it was built from.
pub open spec fn prepared_for<E: Endpoint>(client: ApiClient, req: PreparedRequest, e: E) -> bool {
    &&& req.method == HttpMethod::Get
    &&& req.url@ == client.base_url@ + "/"@ + e.spec_path()
    &&& pairs_view(req.query@) == full_query(e.spec_format(), e.spec_query())
    &&& req.header_name@ == auth_header_name()
    &&& req.header_value@ == client.api_key@
    &&& req.kind == e.spec_kind()
}

impl ApiClient {
    /// A dispatcher for the fixed upstream service.
    pub fn new(api_key: String) -> (r: ApiClient)
        ensures
            r.base_url@ == default_base_url(),
            r.api_key@ == api_key@,
    {
        ApiClient { base_url: String::from_str("https://api.ebird.org/v2"), api_key }
    }

    /// A dispatcher against an explicit base address, so that several
    /// instances can coexist, including ones aimed at a stand-in service.
    pub fn with_base_url(base_url: String, api_key: String) -> (r: ApiClient)
        ensures
            r.base_url@ == base_url@,
            r.api_key@ == api_key@,
    {
        ApiClient { base_url, api_key }
    }

    /// Builds the complete request for an endpoint: the URL from the base
    /// address and the endpoint's path, the format override (if any)
    /// before the endpoint's own query parameters, and the authentication
    /// header on every call.
    pub fn prepare<E: Endpoint>(&self, endpoint: &E) -> (r: PreparedRequest)
        ensures
            prepared_for(*self, r, *endpoint),
    {
        let path = endpoint.path();
        let mut url = self.base_url.clone();
        url.append("/");
        url.append(path.as_str());
        let mut query: Vec<(String, String)> = Vec::new();
        if let Some(f) = endpoint.format() {
            query.push((String::from_str("fmt"), f));
        }
        let mut own = endpoint.query();
        let ghost own0 = own@;
        query.append(&mut own);
        proof {
            assert(pairs_view(query@) =~~= full_query(
                endpoint.spec_format(),
                endpoint.spec_query(),
            ));
        }
        PreparedRequest {
            method: endpoint.method(),
            url,
            query,
            header_name: String::from_str("X-eBirdApiToken"),
            header_value: self.api_key.clone(),
            kind: endpoint.response_kind(),
        }
    }

    /// Classifies the outcome of one call and, on a success status,
    /// decodes the body into the expected payload.
    ///
    /// The status is examined strictly before any decoding: a non-success
    /// response is never decoded, its body is only kept as text, and a
    /// failure to read that text degrades to a fixed placeholder rather
    /// than aborting the error path.
    pub fn complete(&self, kind: ResponseKind, outcome: TransportOutcome) -> (r: Result<
        DecodedResponse,
        ApiError,
    >)
        ensures
            completes(kind, outcome, r),
    {
        match outcome {
            TransportOutcome::Failure { message } => Err(ApiError::Network { message }),
            TransportOutcome::Response { status, body } => {
                if !(200 <= status && status < 300) {
                    let kept = match body {
                        Ok(t) => t,
                        Err(_) => String::from_str("(unable to read response body)"),
                    };
                    Err(ApiError::HttpError { status, body: kept })
                } else {
                    let text = match body {
                        Ok(t) => t,
                        Err(m) => {
                            return Err(ApiError::Deserialization { message: m });
                        },
                    };
                    let parsed = match parse_json(text.as_str()) {
                        Some(j) => j,
                        None => {
                            return Err(
                                ApiError::Deserialization {
                                    message: String::from_str("response body is not valid JSON"),
                                },
                            );
                        },
                    };
                    match kind {
                        ResponseKind::ObservationList => match crate::tools::observations::obs_list_from_json(
                            &parsed,
                        ) {
                            Some(list) => {
                                proof {
                                    assert(kind_decode(kind, parsed@) == Some(
                                        DecodedView::Observations(obs_views(list@)),
                                    ));
                                }
                                Ok(DecodedResponse::Observations(list))
                            },
                            None => Err(
                                ApiError::Deserialization {
                                    message: String::from_str(
                                        "response body is not a list of observations",
                                    ),
                                },
                            ),
                        },
                        ResponseKind::HotspotList => match crate::tools::hotspot::hotspot_list_from_json(
                            &parsed,
                        ) {
                            Some(list) => {
                                proof {
                                    assert(kind_decode(kind, parsed@) == Some(
                                        DecodedView::Hotspots(hotspot_views(list@)),
                                    ));
                                }
                                Ok(DecodedResponse::Hotspots(list))
                            },
                            None => Err(
                                ApiError::Deserialization {
                                    message: String::from_str(
                                        "response body is not a list of hotspots",
                                    ),
                                },
                            ),
                        },
                        ResponseKind::HotspotOne => match Hotspot::from_json(&parsed) {
                            Some(h) => {
                                proof {
                                    assert(kind_decode(kind, parsed@) == Some(
                                        DecodedView::HotspotDetail(h@),
                                    ));
                                }
                                Ok(DecodedResponse::HotspotDetail(h))
                            },
                            None => Err(
                                ApiError::Deserialization {
                                    message: String::from_str("response body is not a hotspot"),
                                },
                            ),
                        },
                        ResponseKind::RegionInfoRecord => match RegionInfo::from_json(&parsed) {
                            Some(r) => {
                                proof {
                                    assert(kind_decode(kind, parsed@) == Some(
                                        DecodedView::Region(r@),
                                    ));
                                }
                                Ok(DecodedResponse::Region(r))
                            },
                            None => Err(
                                ApiError::Deserialization {
                                    message: String::from_str(
                                        "response body is not a region record",
                                    ),
                                },
                            ),
                        },
                        ResponseKind::SubRegionList => match crate::tools::region::subregion_list_from_json(
                            &parsed,
                        ) {
                            Some(list) => {
                                proof {
                                    assert(kind_decode(kind, parsed@) == Some(
                                        DecodedView::SubRegions(subregion_views(list@)),
                                    ));
                                }
                                Ok(DecodedResponse::SubRegions(list))
                            },
                            None => Err(
                                ApiError::Deserialization {
                                    message: String::from_str(
                                        "response body is not a list of regions",
                                    ),
                                },
                            ),
                        },
                    }
                }
            },
        }
    }
}

} // verus!
