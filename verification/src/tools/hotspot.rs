//! Hotspot records and the endpoint descriptors for hotspot queries.
//!
//! The hotspot listing endpoints default to a non-JSON format upstream, so
//! their descriptors force JSON through the format override.

use vstd::prelude::*;

use crate::api::endpoint::{lemma_no_query_sep_concat, no_query_sep, pairs_view, Endpoint,
    HttpMethod, ResponseKind};
use crate::codec::{get_opt_bool, get_opt_str, get_opt_u32, get_req_fixed, get_req_str,
    opt_bool_json, opt_bool_of, opt_str_json, opt_str_of, opt_u32_json, opt_u32_of,
    opt_bool_value, opt_str_value, opt_u32_value, req_fixed_of, req_str_of};
use crate::fixed::{fixed_chars, fixed_num_spec, fixed_to_num, fixed_to_string, Fixed};
use crate::json::value::{jv_view_fields, jv_view_fields_index, JsonSpec, JsonValue};
use crate::text::{dec_digits, u32_to_string};

verus! {

broadcast use vstd::seq::group_seq_axioms, vstd::std_specs::vec::group_vec_axioms,
    vstd::string::group_string_axioms;

/// One tracked birding location, with its aggregate activity statistics.
#[derive(Debug)]
pub struct Hotspot {
    pub location_id: String,
    pub name: String,
    pub latitude: Fixed,
    pub longitude: Fixed,
    pub country_code: String,
    pub country_name: Option<String>,
    pub subnational1_code: String,
    pub subnational1_name: Option<String>,
    pub subnational2_code: Option<String>,
    pub subnational2_name: Option<String>,
    pub is_hotspot: Option<bool>,
    pub hierarchical_name: Option<String>,
    pub latest_observation_date: Option<String>,
    pub num_species_all_time: Option<u32>,
    pub num_checklists_all_time: Option<u32>,
}

/// The mathematical shape of a hotspot.
pub struct HotspotView {
    pub location_id: Seq<char>,
    pub name: Seq<char>,
    pub latitude: Fixed,
    pub longitude: Fixed,
    pub country_code: Seq<char>,
    pub country_name: Option<Seq<char>>,
    pub subnational1_code: Seq<char>,
    pub subnational1_name: Option<Seq<char>>,
    pub subnational2_code: Option<Seq<char>>,
    pub subnational2_name: Option<Seq<char>>,
    pub is_hotspot: Option<bool>,
    pub hierarchical_name: Option<Seq<char>>,
    pub latest_observation_date: Option<Seq<char>>,
    pub num_species_all_time: Option<u32>,
    pub num_checklists_all_time: Option<u32>,
}

impl HotspotView {
    /// Coordinates carry one representation per value.
    pub open spec fn wf(self) -> bool {
        self.latitude.wf() && self.longitude.wf()
    }
}

impl View for Hotspot {
    type V = HotspotView;

    open spec fn view(&self) -> HotspotView {
        HotspotView {
            location_id: self.location_id@,
            name: self.name@,
            latitude: self.latitude,
            longitude: self.longitude,
            country_code: self.country_code@,
            country_name: self.country_name.deep_view(),
            subnational1_code: self.subnational1_code@,
            subnational1_name: self.subnational1_name.deep_view(),
            subnational2_code: self.subnational2_code.deep_view(),
            subnational2_name: self.subnational2_name.deep_view(),
            is_hotspot: self.is_hotspot,
            hierarchical_name: self.hierarchical_name.deep_view(),
            latest_observation_date: self.latest_observation_date.deep_view(),
            num_species_all_time: self.num_species_all_time,
            num_checklists_all_time: self.num_checklists_all_time,
        }
    }
}

/// The JSON document denoting a hotspot, under the upstream field names.
pub open spec fn hotspot_json(h: HotspotView) -> JsonSpec {
    JsonSpec::Obj(
        seq![
            ("locId"@, JsonSpec::Str(h.location_id)),
            ("locName"@, JsonSpec::Str(h.name)),
            ("lat"@, JsonSpec::Num(fixed_num_spec(h.latitude))),
            ("lng"@, JsonSpec::Num(fixed_num_spec(h.longitude))),
            ("countryCode"@, JsonSpec::Str(h.country_code)),
            ("countryName"@, opt_str_json(h.country_name)),
            ("subnational1Code"@, JsonSpec::Str(h.subnational1_code)),
            ("subnational1Name"@, opt_str_json(h.subnational1_name)),
            ("subnational2Code"@, opt_str_json(h.subnational2_code)),
            ("subnational2Name"@, opt_str_json(h.subnational2_name)),
            ("isHotspot"@, opt_bool_json(h.is_hotspot)),
            ("hierarchicalName"@, opt_str_json(h.hierarchical_name)),
            ("latestObsDt"@, opt_str_json(h.latest_observation_date)),
            ("numSpeciesAllTime"@, opt_u32_json(h.num_species_all_time)),
            ("numChecklistsAllTime"@, opt_u32_json(h.num_checklists_all_time)),
        ],
    )
}

/// The hotspot a JSON document denotes, if it has the expected shape.
pub open spec fn hotspot_of_json(j: JsonSpec) -> Option<HotspotView> {
    match (
        req_str_of(j.field("locId"@)),
        req_str_of(j.field("locName"@)),
        req_fixed_of(j.field("lat"@)),
        req_fixed_of(j.field("lng"@)),
        req_str_of(j.field("countryCode"@)),
        opt_str_of(j.field("countryName"@)),
        req_str_of(j.field("subnational1Code"@)),
        opt_str_of(j.field("subnational1Name"@)),
    ) {
        (
            Some(location_id),
            Some(name),
            Some(latitude),
            Some(longitude),
            Some(country_code),
            Some(country_name),
            Some(subnational1_code),
            Some(subnational1_name),
        ) => match (
            opt_str_of(j.field("subnational2Code"@)),
            opt_str_of(j.field("subnational2Name"@)),
            opt_bool_of(j.field("isHotspot"@)),
            opt_str_of(j.field("hierarchicalName"@)),
            opt_str_of(j.field("latestObsDt"@)),
            opt_u32_of(j.field("numSpeciesAllTime"@)),
            opt_u32_of(j.field("numChecklistsAllTime"@)),
        ) {
            (
                Some(subnational2_code),
                Some(subnational2_name),
                Some(is_hotspot),
                Some(hierarchical_name),
                Some(latest_observation_date),
                Some(num_species_all_time),
                Some(num_checklists_all_time),
            ) => Some(
                HotspotView {
                    location_id,
                    name,
                    latitude,
                    longitude,
                    country_code,
                    country_name,
                    subnational1_code,
                    subnational1_name,
                    subnational2_code,
                    subnational2_name,
                    is_hotspot,
                    hierarchical_name,
                    latest_observation_date,
                    num_species_all_time,
                    num_checklists_all_time,
                },
            ),
            _ => None,
        },
        _ => None,
    }
}

impl Hotspot {
    /// Renders this hotspot as a JSON document.
    pub fn to_json(&self) -> (r: JsonValue)
        ensures
            r@ == hotspot_json(self@),
    {
        let mut fields: Vec<(String, JsonValue)> = Vec::new();
        fields.push((String::from_str("locId"), JsonValue::Str(self.location_id.clone())));
        fields.push((String::from_str("locName"), JsonValue::Str(self.name.clone())));
        fields.push((String::from_str("lat"), JsonValue::Num(fixed_to_num(&self.latitude))));
        fields.push((String::from_str("lng"), JsonValue::Num(fixed_to_num(&self.longitude))));
        fields.push((String::from_str("countryCode"), JsonValue::Str(self.country_code.clone())));
        fields.push((String::from_str("countryName"), opt_str_value(&self.country_name)));
        fields.push((
            String::from_str("subnational1Code"),
            JsonValue::Str(self.subnational1_code.clone()),
        ));
        fields.push((String::from_str("subnational1Name"), opt_str_value(&self.subnational1_name)));
        fields.push((String::from_str("subnational2Code"), opt_str_value(&self.subnational2_code)));
        fields.push((String::from_str("subnational2Name"), opt_str_value(&self.subnational2_name)));
        fields.push((String::from_str("isHotspot"), opt_bool_value(&self.is_hotspot)));
        fields.push((String::from_str("hierarchicalName"), opt_str_value(&self.hierarchical_name)));
        fields.push((
            String::from_str("latestObsDt"),
            opt_str_value(&self.latest_observation_date),
        ));
        fields.push((String::from_str("numSpeciesAllTime"), opt_u32_value(&self.num_species_all_time)));
        fields.push((
            String::from_str("numChecklistsAllTime"),
            opt_u32_value(&self.num_checklists_all_time),
        ));
        let ghost fv = fields@;
        let r = JsonValue::Obj(fields);
        proof {
            jv_view_fields_index(fv);
            assert(jv_view_fields(fv) =~= seq![
                ("locId"@, JsonSpec::Str(self.location_id@)),
                ("locName"@, JsonSpec::Str(self.name@)),
                ("lat"@, JsonSpec::Num(fixed_num_spec(self.latitude))),
                ("lng"@, JsonSpec::Num(fixed_num_spec(self.longitude))),
                ("countryCode"@, JsonSpec::Str(self.country_code@)),
                ("countryName"@, opt_str_json(self.country_name.deep_view())),
                ("subnational1Code"@, JsonSpec::Str(self.subnational1_code@)),
                ("subnational1Name"@, opt_str_json(self.subnational1_name.deep_view())),
                ("subnational2Code"@, opt_str_json(self.subnational2_code.deep_view())),
                ("subnational2Name"@, opt_str_json(self.subnational2_name.deep_view())),
                ("isHotspot"@, opt_bool_json(self.is_hotspot)),
                ("hierarchicalName"@, opt_str_json(self.hierarchical_name.deep_view())),
                ("latestObsDt"@, opt_str_json(self.latest_observation_date.deep_view())),
                ("numSpeciesAllTime"@, opt_u32_json(self.num_species_all_time)),
                ("numChecklistsAllTime"@, opt_u32_json(self.num_checklists_all_time)),
            ]);
        }
        r
    }

    /// Reads a hotspot out of a JSON document, when it has the expected
    /// shape.
    pub fn from_json(j: &JsonValue) -> (r: Option<Hotspot>)
        ensures
            match r {
                Some(h) => hotspot_of_json(j@) == Some(h@) && h@.wf(),
                None => hotspot_of_json(j@) is None,
            },
    {
        let fields = match j {
            JsonValue::Obj(fields) => fields,
            _ => { return None; },
        };
        let location_id = match get_req_str(fields, &String::from_str("locId")) {
            Some(s) => s,
            None => { return None; },
        };
        let name = match get_req_str(fields, &String::from_str("locName")) {
            Some(s) => s,
            None => { return None; },
        };
        let latitude = match get_req_fixed(fields, &String::from_str("lat")) {
            Some(f) => f,
            None => { return None; },
        };
        let longitude = match get_req_fixed(fields, &String::from_str("lng")) {
            Some(f) => f,
            None => { return None; },
        };
        let country_code = match get_req_str(fields, &String::from_str("countryCode")) {
            Some(s) => s,
            None => { return None; },
        };
        let country_name = match get_opt_str(fields, &String::from_str("countryName")) {
            Some(s) => s,
            None => { return None; },
        };
        let subnational1_code = match get_req_str(fields, &String::from_str("subnational1Code")) {
            Some(s) => s,
            None => { return None; },
        };
        let subnational1_name = match get_opt_str(fields, &String::from_str("subnational1Name")) {
            Some(s) => s,
            None => { return None; },
        };
        let subnational2_code = match get_opt_str(fields, &String::from_str("subnational2Code")) {
            Some(s) => s,
            None => { return None; },
        };
        let subnational2_name = match get_opt_str(fields, &String::from_str("subnational2Name")) {
            Some(s) => s,
            None => { return None; },
        };
        let is_hotspot = match get_opt_bool(fields, &String::from_str("isHotspot")) {
            Some(b) => b,
            None => { return None; },
        };
        let hierarchical_name = match get_opt_str(fields, &String::from_str("hierarchicalName")) {
            Some(s) => s,
            None => { return None; },
        };
        let latest_observation_date = match get_opt_str(fields, &String::from_str("latestObsDt")) {
            Some(s) => s,
            None => { return None; },
        };
        let num_species_all_time = match get_opt_u32(
            fields,
            &String::from_str("numSpeciesAllTime"),
        ) {
            Some(c) => c,
            None => { return None; },
        };
        let num_checklists_all_time = match get_opt_u32(
            fields,
            &String::from_str("numChecklistsAllTime"),
        ) {
            Some(c) => c,
            None => { return None; },
        };
        Some(
            Hotspot {
                location_id,
                name,
                latitude,
                longitude,
                country_code,
                country_name,
                subnational1_code,
                subnational1_name,
                subnational2_code,
                subnational2_name,
                is_hotspot,
                hierarchical_name,
                latest_observation_date,
                num_species_all_time,
                num_checklists_all_time,
            },
        )
    }
}

/// Reading back an encoded hotspot yields it unchanged, field for field.
pub proof fn lemma_hotspot_round_trip(h: HotspotView)
    requires
        h.wf(),
    ensures
        hotspot_of_json(hotspot_json(h)) == Some(h),
{
    reveal_strlit("locId");
    reveal_strlit("locName");
    reveal_strlit("lat");
    reveal_strlit("lng");
    reveal_strlit("countryCode");
    reveal_strlit("countryName");
    reveal_strlit("subnational1Code");
    reveal_strlit("subnational1Name");
    reveal_strlit("subnational2Code");
    reveal_strlit("subnational2Name");
    reveal_strlit("isHotspot");
    reveal_strlit("hierarchicalName");
    reveal_strlit("latestObsDt");
    reveal_strlit("numSpeciesAllTime");
    reveal_strlit("numChecklistsAllTime");
    crate::fixed::lemma_fixed_num_round_trip(h.latitude);
    crate::fixed::lemma_fixed_num_round_trip(h.longitude);
    let fs = seq![
        ("locId"@, JsonSpec::Str(h.location_id)),
        ("locName"@, JsonSpec::Str(h.name)),
        ("lat"@, JsonSpec::Num(fixed_num_spec(h.latitude))),
        ("lng"@, JsonSpec::Num(fixed_num_spec(h.longitude))),
        ("countryCode"@, JsonSpec::Str(h.country_code)),
        ("countryName"@, opt_str_json(h.country_name)),
        ("subnational1Code"@, JsonSpec::Str(h.subnational1_code)),
        ("subnational1Name"@, opt_str_json(h.subnational1_name)),
        ("subnational2Code"@, opt_str_json(h.subnational2_code)),
        ("subnational2Name"@, opt_str_json(h.subnational2_name)),
        ("isHotspot"@, opt_bool_json(h.is_hotspot)),
        ("hierarchicalName"@, opt_str_json(h.hierarchical_name)),
        ("latestObsDt"@, opt_str_json(h.latest_observation_date)),
        ("numSpeciesAllTime"@, opt_u32_json(h.num_species_all_time)),
        ("numChecklistsAllTime"@, opt_u32_json(h.num_checklists_all_time)),
    ];
    assert(hotspot_json(h) == JsonSpec::Obj(fs));
    assert("locId"@.len() == 5 && "locName"@.len() == 7 && "lat"@.len() == 3 && "lng"@.len()
        == 3);
    assert("countryCode"@.len() == 11 && "countryName"@.len() == 11);
    assert("subnational1Code"@.len() == 16 && "subnational1Name"@.len() == 16);
    assert("subnational2Code"@.len() == 16 && "subnational2Name"@.len() == 16);
    assert("isHotspot"@.len() == 9 && "hierarchicalName"@.len() == 16);
    assert("latestObsDt"@.len() == 11 && "numSpeciesAllTime"@.len() == 17);
    assert("numChecklistsAllTime"@.len() == 20);
    assert("lat"@[1] == 'a' && "lng"@[1] == 'n');
    assert("countryCode"@[7] == 'C' && "countryName"@[7] == 'N' && "latestObsDt"@[0] == 'l'
        && "countryCode"@[0] == 'c');
    assert("subnational1Code"@[11] == '1' && "subnational2Code"@[11] == '2');
    assert("subnational1Name"@[11] == '1' && "subnational2Name"@[11] == '2');
    assert("subnational1Code"@[12] == 'C' && "subnational1Name"@[12] == 'N');
    assert("subnational2Code"@[12] == 'C' && "subnational2Name"@[12] == 'N');
    assert("hierarchicalName"@[0] == 'h' && "subnational1Code"@[0] == 's'
        && "subnational1Name"@[0] == 's' && "subnational2Code"@[0] == 's'
        && "subnational2Name"@[0] == 's');
    crate::json::value::lemma_field_of_at(fs, "locId"@, 0);
    crate::json::value::lemma_field_of_at(fs, "locName"@, 1);
    crate::json::value::lemma_field_of_at(fs, "lat"@, 2);
    crate::json::value::lemma_field_of_at(fs, "lng"@, 3);
    crate::json::value::lemma_field_of_at(fs, "countryCode"@, 4);
    crate::json::value::lemma_field_of_at(fs, "countryName"@, 5);
    crate::json::value::lemma_field_of_at(fs, "subnational1Code"@, 6);
    crate::json::value::lemma_field_of_at(fs, "subnational1Name"@, 7);
    crate::json::value::lemma_field_of_at(fs, "subnational2Code"@, 8);
    crate::json::value::lemma_field_of_at(fs, "subnational2Name"@, 9);
    crate::json::value::lemma_field_of_at(fs, "isHotspot"@, 10);
    crate::json::value::lemma_field_of_at(fs, "hierarchicalName"@, 11);
    crate::json::value::lemma_field_of_at(fs, "latestObsDt"@, 12);
    crate::json::value::lemma_field_of_at(fs, "numSpeciesAllTime"@, 13);
    crate::json::value::lemma_field_of_at(fs, "numChecklistsAllTime"@, 14);
}

/// The sequence of hotspots a JSON document denotes, if it is an array of
/// hotspot documents.
pub open spec fn hotspot_list_of_json(j: JsonSpec) -> Option<Seq<HotspotView>> {
    match j {
        JsonSpec::Arr(items) => hotspot_seq_of(items),
        _ => None,
    }
}

/// The hotspots a sequence of documents denotes, if every document denotes
/// one.
pub open spec fn hotspot_seq_of(items: Seq<JsonSpec>) -> Option<Seq<HotspotView>>
    decreases items.len(),
{
    if items.len() == 0 {
        Some(Seq::empty())
    } else {
        match (hotspot_seq_of(items.drop_last()), hotspot_of_json(items.last())) {
            (Some(front), Some(h)) => Some(front.push(h)),
            _ => None,
        }
    }
}

/// The views of a sequence of hotspots.
pub open spec fn hotspot_views(s: Seq<Hotspot>) -> Seq<HotspotView> {
    Seq::new(s.len(), |i: int| s[i]@)
}

/// A sequence of documents denotes no hotspot list once one element fails
/// to denote a hotspot.
proof fn lemma_hotspot_seq_of_element_failure(items: Seq<JsonSpec>, i: int)
    requires
        0 <= i < items.len(),
        hotspot_of_json(items[i]) is None,
    ensures
        hotspot_seq_of(items) is None,
    decreases items.len(),
{
    if items.len() > 0 {
        if i < items.len() - 1 {
            lemma_hotspot_seq_of_element_failure(items.drop_last(), i);
        }
    }
}

/// Reads a list of hotspots out of a JSON document.
pub fn hotspot_list_from_json(j: &JsonValue) -> (r: Option<Vec<Hotspot>>)
    ensures
        match r {
            Some(list) => hotspot_list_of_json(j@) == Some(hotspot_views(list@)),
            None => hotspot_list_of_json(j@) is None,
        },
{
    let items = match j {
        JsonValue::Arr(items) => items,
        _ => { return None; },
    };
    let ghost views = crate::json::value::jv_view_seq(items@);
    proof {
        crate::json::value::jv_view_seq_index(items@);
        assert(views.take(0) =~= Seq::<JsonSpec>::empty());
    }
    let mut out: Vec<Hotspot> = Vec::new();
    let mut i: usize = 0;
    while i < items.len()
        invariant
            i <= items@.len(),
            views == crate::json::value::jv_view_seq(items@),
            views.len() == items@.len(),
            forall|k: int|
                0 <= k < items@.len() ==> views[k] == crate::json::value::jv_view(items@[k]),
            j@ == JsonSpec::Arr(views),
            hotspot_seq_of(views.take(i as int)) == Some(hotspot_views(out@)),
        decreases items@.len() - i,
    {
        let h = match Hotspot::from_json(&items[i]) {
            Some(h) => h,
            None => {
                proof {
                    lemma_hotspot_seq_of_element_failure(views, i as int);
                }
                return None;
            },
        };
        out.push(h);
        proof {
            assert(views.take(i + 1).drop_last() =~= views.take(i as int));
            assert(hotspot_views(out@) =~= match hotspot_seq_of(views.take(i as int)) {
                Some(front) => front.push(h@),
                None => Seq::empty(),
            });
        }
        i += 1;
    }
    proof {
        assert(views.take(views.len() as int) =~= views);
    }
    Some(out)
}

/// Hotspots of a region.
#[derive(Debug, Clone)]
pub struct FetchRegionHotspotsRequest {
    pub region_code: String,
    pub back: Option<u32>,
}

impl Endpoint for FetchRegionHotspotsRequest {
    open spec fn spec_path(&self) -> Seq<char> {
        "ref/hotspot/"@ + self.region_code@
    }

    open spec fn spec_query(&self) -> Seq<(Seq<char>, Seq<char>)> {
        match self.back {
            None => Seq::empty(),
            Some(b) => seq![("back"@, dec_digits(b as nat))],
        }
    }

    open spec fn spec_format(&self) -> Option<Seq<char>> {
        Some("json"@)
    }

    fn method(&self) -> (r: HttpMethod) {
        HttpMethod::Get
    }

    fn path(&self) -> (r: String) {
        let mut s = String::from_str("ref/hotspot/");
        s.append(self.region_code.as_str());
        s
    }

    fn query(&self) -> (r: Vec<(String, String)>) {
        let mut q: Vec<(String, String)> = Vec::new();
        if let Some(b) = self.back {
            q.push((String::from_str("back"), u32_to_string(b)));
        }
        proof {
            assert(pairs_view(q@) =~= self.spec_query());
        }
        q
    }

    fn format(&self) -> (r: Option<String>) {
        Some(String::from_str("json"))
    }

    open spec fn spec_kind(&self) -> ResponseKind {
        ResponseKind::HotspotList
    }

    fn response_kind(&self) -> (r: ResponseKind) {
        ResponseKind::HotspotList
    }
}

/// Hotspots near a point.
#[derive(Debug, Clone)]
pub struct FetchNearbyHotspotsRequest {
    pub lat: Fixed,
    pub lng: Fixed,
    pub dist: Option<Fixed>,
    pub back: Option<u32>,
}

impl Endpoint for FetchNearbyHotspotsRequest {
    open spec fn spec_path(&self) -> Seq<char> {
        "ref/hotspot/geo"@
    }

    open spec fn spec_query(&self) -> Seq<(Seq<char>, Seq<char>)> {
        let coords = seq![
            ("lat"@, fixed_chars(self.lat)),
            ("lng"@, fixed_chars(self.lng)),
        ];
        let with_dist = match self.dist {
            None => coords,
            Some(d) => coords + seq![("dist"@, fixed_chars(d))],
        };
        match self.back {
            None => with_dist,
            Some(b) => with_dist + seq![("back"@, dec_digits(b as nat))],
        }
    }

    open spec fn spec_format(&self) -> Option<Seq<char>> {
        Some("json"@)
    }

    fn method(&self) -> (r: HttpMethod) {
        HttpMethod::Get
    }

    fn path(&self) -> (r: String) {
        String::from_str("ref/hotspot/geo")
    }

    fn query(&self) -> (r: Vec<(String, String)>) {
        let mut q: Vec<(String, String)> = Vec::new();
        q.push((String::from_str("lat"), fixed_to_string(&self.lat)));
        q.push((String::from_str("lng"), fixed_to_string(&self.lng)));
        if let Some(d) = self.dist {
            q.push((String::from_str("dist"), fixed_to_string(&d)));
        }
        if let Some(b) = self.back {
            q.push((String::from_str("back"), u32_to_string(b)));
        }
        proof {
            assert(pairs_view(q@) =~= self.spec_query());
        }
        q
    }

    fn format(&self) -> (r: Option<String>) {
        Some(String::from_str("json"))
    }

    open spec fn spec_kind(&self) -> ResponseKind {
        ResponseKind::HotspotList
    }

    fn response_kind(&self) -> (r: ResponseKind) {
        ResponseKind::HotspotList
    }
}

/// Details of one hotspot.
#[derive(Debug, Clone)]
pub struct FetchHotspotInfoRequest {
    pub loc_id: String,
}

impl Endpoint for FetchHotspotInfoRequest {
    open spec fn spec_path(&self) -> Seq<char> {
        "ref/hotspot/info/"@ + self.loc_id@
    }

    open spec fn spec_query(&self) -> Seq<(Seq<char>, Seq<char>)> {
        Seq::empty()
    }

    open spec fn spec_format(&self) -> Option<Seq<char>> {
        Some("json"@)
    }

    fn method(&self) -> (r: HttpMethod) {
        HttpMethod::Get
    }

    fn path(&self) -> (r: String) {
        let mut s = String::from_str("ref/hotspot/info/");
        s.append(self.loc_id.as_str());
        s
    }

    fn query(&self) -> (r: Vec<(String, String)>) {
        let q: Vec<(String, String)> = Vec::new();
        proof {
            assert(pairs_view(q@) =~= self.spec_query());
        }
        q
    }

    fn format(&self) -> (r: Option<String>) {
        Some(String::from_str("json"))
    }

    open spec fn spec_kind(&self) -> ResponseKind {
        ResponseKind::HotspotOne
    }

    fn response_kind(&self) -> (r: ResponseKind) {
        ResponseKind::HotspotOne
    }
}


/// A hotspot path never holds an unescaped query separator, as long as the
/// code the caller validated holds none.
pub proof fn lemma_region_hotspots_path_clean(r: FetchRegionHotspotsRequest)
    requires
        no_query_sep(r.region_code@),
    ensures
        no_query_sep(r.spec_path()),
{
    reveal_strlit("ref/hotspot/");
    lemma_no_query_sep_concat("ref/hotspot/"@, r.region_code@);
}

/// The nearby-hotspot path is fixed and holds no query separator.
pub proof fn lemma_nearby_hotspots_path_clean(r: FetchNearbyHotspotsRequest)
    ensures
        no_query_sep(r.spec_path()),
{
    reveal_strlit("ref/hotspot/geo");
}

/// See [`lemma_region_hotspots_path_clean`].
pub proof fn lemma_hotspot_info_path_clean(r: FetchHotspotInfoRequest)
    requires
        no_query_sep(r.loc_id@),
    ensures
        no_query_sep(r.spec_path()),
{
    reveal_strlit("ref/hotspot/info/");
    lemma_no_query_sep_concat("ref/hotspot/info/"@, r.loc_id@);
}

/// Absent parameters are left out of the wire request entirely; only the
/// coordinates and the format override always travel.
pub proof fn lemma_nearby_hotspots_omits_absent_params(r: FetchNearbyHotspotsRequest)
    requires
        r.dist is None,
        r.back is None,
    ensures
        r.spec_query() =~= seq![
            ("lat"@, fixed_chars(r.lat)),
            ("lng"@, fixed_chars(r.lng)),
        ],
{
}

} // verus!
