//! The response encoder: any decoded payload, rendered as compact text for
//! the tool-calling protocol.
//!
//! A value is first put into its canonical JSON representation, then that
//! representation is re-rendered in a compact line-oriented form meant to
//! keep token overhead low for the consuming language model. The only
//! failure mode is an encoding failure in that last step, and it is always
//! surfaced.

use vstd::prelude::*;

use crate::api::client::{DecodedResponse, DecodedView};
use crate::api::error::ApiError;
use crate::json::value::{jv_view_seq, jv_view_seq_index, JsonSpec, JsonValue};
use crate::json::write::{write_json, write_spec};
use crate::tools::hotspot::{hotspot_json, hotspot_list_of_json, hotspot_seq_of, hotspot_views,
    Hotspot, HotspotView};
use crate::tools::observations::{obs_json, obs_list_of_json, obs_seq_of, obs_views, ObsView,
    Observation};
use crate::tools::region::{region_json, subregion_json, subregion_list_of_json, subregion_seq_of,
    subregion_views, RegionInfo, SubRegion, SubRegionView};

verus! {

broadcast use vstd::seq::group_seq_axioms, vstd::std_specs::vec::group_vec_axioms;

/// What the compact encoder yields for given JSON text. Object keys are
/// sorted by the encoder, so the result depends on the text alone.
pub uninterp spec fn toon_text_of(json_text: Seq<char>) -> Seq<char>;

/// Whether the compact encoder accepts the given JSON text. Acceptance
/// depends on the text alone.
pub uninterp spec fn toon_ok_of(json_text: Seq<char>) -> bool;

/// What the compact encoder reports about JSON text it does not accept.
/// The report depends on the text alone.
pub uninterp spec fn toon_err_of(json_text: Seq<char>) -> Seq<char>;

/// Relies on `serde_json::from_str` to rebuild the structured value that
/// the given JSON text denotes (converting the argument into the form the
/// encoder takes), and on `toon::encode` to render that value in the
/// compact text form. `toon::encode` itself always yields a string and
/// sorts object keys before emitting them, and the parse is deterministic,
/// so whether the call succeeds, the rendering, and the error report (the
/// parser's own, on text that is not valid JSON) are each functions of the
/// text alone.
#[verifier::external_body]
fn toon_encode_text(json_text: &str) -> (r: Result<String, String>)
    ensures
        r is Ok <==> toon_ok_of(json_text@),
        r matches Ok(t) ==> t@ == toon_text_of(json_text@),
        r matches Err(m) ==> m@ == toon_err_of(json_text@),
{
    match serde_json::from_str::<serde_json::Value>(json_text) {
        Ok(value) => Ok(toon::encode(&value, None)),
        Err(e) => Err(e.to_string()),
    }
}

/// The canonical representation of a list of observations.
pub open spec fn obs_list_json(s: Seq<ObsView>) -> JsonSpec {
    JsonSpec::Arr(s.map_values(|o: ObsView| obs_json(o)))
}

/// The canonical representation of a list of hotspots.
pub open spec fn hotspot_list_json(s: Seq<HotspotView>) -> JsonSpec {
    JsonSpec::Arr(s.map_values(|h: HotspotView| hotspot_json(h)))
}

/// The canonical representation of a list of subdivisions.
pub open spec fn subregion_list_json(s: Seq<SubRegionView>) -> JsonSpec {
    JsonSpec::Arr(s.map_values(|v: SubRegionView| subregion_json(v)))
}

/// The canonical representation of a decoded payload.
pub open spec fn decoded_json(d: DecodedView) -> JsonSpec {
    match d {
        DecodedView::Observations(list) => obs_list_json(list),
        DecodedView::Hotspots(list) => hotspot_list_json(list),
        DecodedView::HotspotDetail(h) => hotspot_json(h),
        DecodedView::Region(r) => region_json(r),
        DecodedView::SubRegions(list) => subregion_list_json(list),
    }
}

/// Renders a list of observations as a JSON document.
pub fn obs_list_to_json(list: &Vec<Observation>) -> (r: JsonValue)
    ensures
        r@ == obs_list_json(obs_views(list@)),
{
    let mut items: Vec<JsonValue> = Vec::new();
    let mut i: usize = 0;
    while i < list.len()
        invariant
            i <= list@.len(),
            items@.len() == i,
            forall|k: int|
                0 <= k < i ==> crate::json::value::jv_view(items@[k]) == obs_json(list@[k]@),
        decreases list@.len() - i,
    {
        items.push(list[i].to_json());
        i += 1;
    }
    let ghost iv = items@;
    let r = JsonValue::Arr(items);
    proof {
        jv_view_seq_index(iv);
        assert(jv_view_seq(iv) =~= obs_views(list@).map_values(|o: ObsView| obs_json(o)));
    }
    r
}

/// Renders a list of hotspots as a JSON document.
pub fn hotspot_list_to_json(list: &Vec<Hotspot>) -> (r: JsonValue)
    ensures
        r@ == hotspot_list_json(hotspot_views(list@)),
{
    let mut items: Vec<JsonValue> = Vec::new();
    let mut i: usize = 0;
    while i < list.len()
        invariant
            i <= list@.len(),
            items@.len() == i,
            forall|k: int|
                0 <= k < i ==> crate::json::value::jv_view(items@[k]) == hotspot_json(
                    list@[k]@,
                ),
        decreases list@.len() - i,
    {
        items.push(list[i].to_json());
        i += 1;
    }
    let ghost iv = items@;
    let r = JsonValue::Arr(items);
    proof {
        jv_view_seq_index(iv);
        assert(jv_view_seq(iv) =~= hotspot_views(list@).map_values(
            |h: HotspotView| hotspot_json(h),
        ));
    }
    r
}

/// Renders a list of subdivisions as a JSON document.
pub fn subregion_list_to_json(list: &Vec<SubRegion>) -> (r: JsonValue)
    ensures
        r@ == subregion_list_json(subregion_views(list@)),
{
    let mut items: Vec<JsonValue> = Vec::new();
    let mut i: usize = 0;
    while i < list.len()
        invariant
            i <= list@.len(),
            items@.len() == i,
            forall|k: int|
                0 <= k < i ==> crate::json::value::jv_view(items@[k]) == subregion_json(
                    list@[k]@,
                ),
        decreases list@.len() - i,
    {
        items.push(list[i].to_json());
        i += 1;
    }
    let ghost iv = items@;
    let r = JsonValue::Arr(items);
    proof {
        jv_view_seq_index(iv);
        assert(jv_view_seq(iv) =~= subregion_views(list@).map_values(
            |v: SubRegionView| subregion_json(v),
        ));
    }
    r
}

/// Serializes a canonical representation and renders it compactly. The
/// rendering succeeds exactly when the encoder accepts the serialized
/// text; the only failure is that encoding failure, surfaced as a
/// serialization error carrying the encoder's report.
fn render_content(j: &JsonValue) -> (r: Result<String, ApiError>)
    ensures
        r is Ok <==> toon_ok_of(write_spec(j@)),
        r matches Ok(t) ==> t@ == toon_text_of(write_spec(j@)),
        r matches Err(e) ==> e matches ApiError::Serialization { message } && message@
            == toon_err_of(write_spec(j@)),
{
    let text = write_json(j);
    match toon_encode_text(text.as_str()) {
        Ok(t) => Ok(t),
        Err(m) => Err(ApiError::Serialization { message: m }),
    }
}

/// A value that can be returned through the tool-calling protocol as
/// compact text.
pub trait ToContent {
    /// The canonical intermediate representation of this value.
    spec fn encoded(&self) -> JsonSpec;

    /// Renders the value for the tool-calling protocol: it succeeds
    /// exactly when the encoder accepts the serialized canonical
    /// representation, and an encoding failure is surfaced, never dropped.
    fn to_content(&self) -> (r: Result<String, ApiError>)
        ensures
            r is Ok <==> toon_ok_of(write_spec(self.encoded())),
            r matches Ok(t) ==> t@ == toon_text_of(write_spec(self.encoded())),
            r matches Err(e) ==> e matches ApiError::Serialization { message } && message@
                == toon_err_of(write_spec(self.encoded())),
    ;
}

impl ToContent for Observation {
    open spec fn encoded(&self) -> JsonSpec {
        obs_json(self@)
    }

    fn to_content(&self) -> (r: Result<String, ApiError>) {
        render_content(&self.to_json())
    }
}

impl ToContent for Vec<Observation> {
    open spec fn encoded(&self) -> JsonSpec {
        obs_list_json(obs_views(self@))
    }

    fn to_content(&self) -> (r: Result<String, ApiError>) {
        render_content(&obs_list_to_json(self))
    }
}

impl ToContent for Hotspot {
    open spec fn encoded(&self) -> JsonSpec {
        hotspot_json(self@)
    }

    fn to_content(&self) -> (r: Result<String, ApiError>) {
        render_content(&self.to_json())
    }
}

impl ToContent for Vec<Hotspot> {
    open spec fn encoded(&self) -> JsonSpec {
        hotspot_list_json(hotspot_views(self@))
    }

    fn to_content(&self) -> (r: Result<String, ApiError>) {
        render_content(&hotspot_list_to_json(self))
    }
}

impl ToContent for RegionInfo {
    open spec fn encoded(&self) -> JsonSpec {
        region_json(self@)
    }

    fn to_content(&self) -> (r: Result<String, ApiError>) {
        render_content(&self.to_json())
    }
}

impl ToContent for Vec<SubRegion> {
    open spec fn encoded(&self) -> JsonSpec {
        subregion_list_json(subregion_views(self@))
    }

    fn to_content(&self) -> (r: Result<String, ApiError>) {
        render_content(&subregion_list_to_json(self))
    }
}

impl ToContent for DecodedResponse {
    open spec fn encoded(&self) -> JsonSpec {
        decoded_json(self@)
    }

    fn to_content(&self) -> (r: Result<String, ApiError>) {
        match self {
            DecodedResponse::Observations(list) => list.to_content(),
            DecodedResponse::Hotspots(list) => list.to_content(),
            DecodedResponse::HotspotDetail(h) => h.to_content(),
            DecodedResponse::Region(info) => info.to_content(),
            DecodedResponse::SubRegions(list) => list.to_content(),
        }
    }
}


/// Reading back an encoded list of observations yields it unchanged,
/// record for record.
pub proof fn lemma_obs_list_round_trip(s: Seq<ObsView>)
    requires
        forall|k: int| 0 <= k < s.len() ==> (#[trigger] s[k]).wf(),
    ensures
        obs_list_of_json(obs_list_json(s)) == Some(s),
    decreases s.len(),
{
    let docs = s.map_values(|o: ObsView| obs_json(o));
    if s.len() == 0 {
        assert(docs =~= Seq::<JsonSpec>::empty());
        assert(obs_seq_of(docs) == Some(Seq::<ObsView>::empty()));
        assert(Seq::<ObsView>::empty() =~= s);
    } else {
        lemma_obs_list_round_trip(s.drop_last());
        assert(docs.drop_last() =~= s.drop_last().map_values(|o: ObsView| obs_json(o)));
        crate::tools::observations::lemma_obs_round_trip(s.last());
        assert(docs.last() == obs_json(s.last()));
        assert(s.drop_last().push(s.last()) =~= s);
    }
}

/// Reading back an encoded list of hotspots yields it unchanged, record
/// for record.
pub proof fn lemma_hotspot_list_round_trip(s: Seq<HotspotView>)
    requires
        forall|k: int| 0 <= k < s.len() ==> (#[trigger] s[k]).wf(),
    ensures
        hotspot_list_of_json(hotspot_list_json(s)) == Some(s),
    decreases s.len(),
{
    let docs = s.map_values(|h: HotspotView| hotspot_json(h));
    if s.len() == 0 {
        assert(docs =~= Seq::<JsonSpec>::empty());
        assert(hotspot_seq_of(docs) == Some(Seq::<HotspotView>::empty()));
        assert(Seq::<HotspotView>::empty() =~= s);
    } else {
        lemma_hotspot_list_round_trip(s.drop_last());
        assert(docs.drop_last() =~= s.drop_last().map_values(|h: HotspotView| hotspot_json(h)));
        crate::tools::hotspot::lemma_hotspot_round_trip(s.last());
        assert(docs.last() == hotspot_json(s.last()));
        assert(s.drop_last().push(s.last()) =~= s);
    }
}

/// Reading back an encoded list of subdivisions yields it unchanged,
/// record for record.
pub proof fn lemma_subregion_list_round_trip(s: Seq<SubRegionView>)
    ensures
        subregion_list_of_json(subregion_list_json(s)) == Some(s),
    decreases s.len(),
{
    let docs = s.map_values(|v: SubRegionView| subregion_json(v));
    if s.len() == 0 {
        assert(docs =~= Seq::<JsonSpec>::empty());
        assert(subregion_seq_of(docs) == Some(Seq::<SubRegionView>::empty()));
        assert(Seq::<SubRegionView>::empty() =~= s);
    } else {
        lemma_subregion_list_round_trip(s.drop_last());
        assert(docs.drop_last() =~= s.drop_last().map_values(
            |v: SubRegionView| subregion_json(v),
        ));
        crate::tools::region::lemma_subregion_round_trip(s.last());
        assert(docs.last() == subregion_json(s.last()));
        assert(s.drop_last().push(s.last()) =~= s);
    }
}

} // verus!
