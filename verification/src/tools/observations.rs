//! Observation records and the endpoint descriptors for sighting queries.

use vstd::prelude::*;

use crate::api::endpoint::{lemma_no_query_sep_concat, no_query_sep, pairs_view, Endpoint,
    HttpMethod, ResponseKind};
use crate::codec::{get_opt_fixed, get_opt_str, get_opt_u32, get_req_str, opt_fixed_json,
    opt_fixed_of, opt_str_json, opt_str_of, opt_u32_json, opt_u32_of, opt_fixed_value,
    opt_str_value, opt_u32_value, req_str_of};
use crate::fixed::{fixed_chars, fixed_to_string, Fixed};
use crate::json::value::{jv_view_fields, jv_view_fields_index, JsonSpec, JsonValue};
use crate::text::{dec_digits, u32_to_string};

verus! {

broadcast use vstd::seq::group_seq_axioms, vstd::std_specs::vec::group_vec_axioms, vstd::string::group_string_axioms;

/// One reported sighting. Ordinary and notable sightings share this shape;
/// only the endpoint that produced them tells them apart.
#[derive(Debug)]
pub struct Observation {
    pub common_name: String,
    pub scientific_name: String,
    pub location: String,
    pub observation_date: String,
    pub count: Option<u32>,
    pub location_id: Option<String>,
    pub latitude: Option<Fixed>,
    pub longitude: Option<Fixed>,
}

/// Notable and rare sightings are the same record.
pub type RareBird = Observation;

/// The mathematical shape of an observation.
pub struct ObsView {
    pub common_name: Seq<char>,
    pub scientific_name: Seq<char>,
    pub location: Seq<char>,
    pub observation_date: Seq<char>,
    pub count: Option<u32>,
    pub location_id: Option<Seq<char>>,
    pub latitude: Option<Fixed>,
    pub longitude: Option<Fixed>,
}

impl ObsView {
    /// Coordinates carry one representation per value.
    pub open spec fn wf(self) -> bool {
        &&& (self.latitude matches Some(f) ==> f.wf())
        &&& (self.longitude matches Some(f) ==> f.wf())
    }
}

impl View for Observation {
    type V = ObsView;

    open spec fn view(&self) -> ObsView {
        ObsView {
            common_name: self.common_name@,
            scientific_name: self.scientific_name@,
            location: self.location@,
            observation_date: self.observation_date@,
            count: self.count,
            location_id: self.location_id.deep_view(),
            latitude: self.latitude,
            longitude: self.longitude,
        }
    }
}

/// The JSON document denoting an observation, under the upstream field
/// names.
pub open spec fn obs_json(o: ObsView) -> JsonSpec {
    JsonSpec::Obj(
        seq![
            ("comName"@, JsonSpec::Str(o.common_name)),
            ("sciName"@, JsonSpec::Str(o.scientific_name)),
            ("locName"@, JsonSpec::Str(o.location)),
            ("obsDt"@, JsonSpec::Str(o.observation_date)),
            ("howMany"@, opt_u32_json(o.count)),
            ("locId"@, opt_str_json(o.location_id)),
            ("lat"@, opt_fixed_json(o.latitude)),
            ("lng"@, opt_fixed_json(o.longitude)),
        ],
    )
}

/// The observation a JSON document denotes, if it has the expected shape.
pub open spec fn obs_of_json(j: JsonSpec) -> Option<ObsView> {
    match (
        req_str_of(j.field("comName"@)),
        req_str_of(j.field("sciName"@)),
        req_str_of(j.field("locName"@)),
        req_str_of(j.field("obsDt"@)),
        opt_u32_of(j.field("howMany"@)),
        opt_str_of(j.field("locId"@)),
        opt_fixed_of(j.field("lat"@)),
        opt_fixed_of(j.field("lng"@)),
    ) {
        (
            Some(common_name),
            Some(scientific_name),
            Some(location),
            Some(observation_date),
            Some(count),
            Some(location_id),
            Some(latitude),
            Some(longitude),
        ) => Some(
            ObsView {
                common_name,
                scientific_name,
                location,
                observation_date,
                count,
                location_id,
                latitude,
                longitude,
            },
        ),
        _ => None,
    }
}

impl Observation {
    /// Renders this observation as a JSON document.
    pub fn to_json(&self) -> (r: JsonValue)
        ensures
            r@ == obs_json(self@),
    {
        let mut fields: Vec<(String, JsonValue)> = Vec::new();
        fields.push((String::from_str("comName"), JsonValue::Str(self.common_name.clone())));
        fields.push((String::from_str("sciName"), JsonValue::Str(self.scientific_name.clone())));
        fields.push((String::from_str("locName"), JsonValue::Str(self.location.clone())));
        fields.push((String::from_str("obsDt"), JsonValue::Str(self.observation_date.clone())));
        fields.push((String::from_str("howMany"), opt_u32_value(&self.count)));
        fields.push((String::from_str("locId"), opt_str_value(&self.location_id)));
        fields.push((String::from_str("lat"), opt_fixed_value(&self.latitude)));
        fields.push((String::from_str("lng"), opt_fixed_value(&self.longitude)));
        let ghost fv = fields@;
        let r = JsonValue::Obj(fields);
        proof {
            jv_view_fields_index(fv);
            assert(jv_view_fields(fv) =~= seq![
                ("comName"@, JsonSpec::Str(self.common_name@)),
                ("sciName"@, JsonSpec::Str(self.scientific_name@)),
                ("locName"@, JsonSpec::Str(self.location@)),
                ("obsDt"@, JsonSpec::Str(self.observation_date@)),
                ("howMany"@, opt_u32_json(self.count)),
                ("locId"@, opt_str_json(self.location_id.deep_view())),
                ("lat"@, opt_fixed_json(self.latitude)),
                ("lng"@, opt_fixed_json(self.longitude)),
            ]);
        }
        r
    }

    /// Reads an observation out of a JSON document, when it has the
    /// expected shape.
    pub fn from_json(j: &JsonValue) -> (r: Option<Observation>)
        ensures
            match r {
                Some(o) => obs_of_json(j@) == Some(o@) && o@.wf(),
                None => obs_of_json(j@) is None,
            },
    {
        let fields = match j {
            JsonValue::Obj(fields) => fields,
            _ => { return None; },
        };
        let common_name = match get_req_str(fields, &String::from_str("comName")) {
            Some(s) => s,
            None => { return None; },
        };
        let scientific_name = match get_req_str(fields, &String::from_str("sciName")) {
            Some(s) => s,
            None => { return None; },
        };
        let location = match get_req_str(fields, &String::from_str("locName")) {
            Some(s) => s,
            None => { return None; },
        };
        let observation_date = match get_req_str(fields, &String::from_str("obsDt")) {
            Some(s) => s,
            None => { return None; },
        };
        let count = match get_opt_u32(fields, &String::from_str("howMany")) {
            Some(c) => c,
            None => { return None; },
        };
        let location_id = match get_opt_str(fields, &String::from_str("locId")) {
            Some(s) => s,
            None => { return None; },
        };
        let latitude = match get_opt_fixed(fields, &String::from_str("lat")) {
            Some(f) => f,
            None => { return None; },
        };
        let longitude = match get_opt_fixed(fields, &String::from_str("lng")) {
            Some(f) => f,
            None => { return None; },
        };
        Some(
            Observation {
                common_name,
                scientific_name,
                location,
                observation_date,
                count,
                location_id,
                latitude,
                longitude,
            },
        )
    }
}

/// Reading back an encoded observation yields it unchanged, field for
/// field.
pub proof fn lemma_obs_round_trip(o: ObsView)
    requires
        o.wf(),
    ensures
        obs_of_json(obs_json(o)) == Some(o),
{
    reveal_strlit("comName");
    reveal_strlit("sciName");
    reveal_strlit("locName");
    reveal_strlit("obsDt");
    reveal_strlit("howMany");
    reveal_strlit("locId");
    reveal_strlit("lat");
    reveal_strlit("lng");
    crate::codec::lemma_opt_fixed_round_trip(o.latitude);
    crate::codec::lemma_opt_fixed_round_trip(o.longitude);
    let fs = seq![
        ("comName"@, JsonSpec::Str(o.common_name)),
        ("sciName"@, JsonSpec::Str(o.scientific_name)),
        ("locName"@, JsonSpec::Str(o.location)),
        ("obsDt"@, JsonSpec::Str(o.observation_date)),
        ("howMany"@, opt_u32_json(o.count)),
        ("locId"@, opt_str_json(o.location_id)),
        ("lat"@, opt_fixed_json(o.latitude)),
        ("lng"@, opt_fixed_json(o.longitude)),
    ];
    assert(obs_json(o) == JsonSpec::Obj(fs));
    assert("comName"@[0] == 'c');
    assert("sciName"@[0] == 's');
    assert("locName"@[0] == 'l');
    assert("obsDt"@[0] == 'o');
    assert("howMany"@[0] == 'h');
    assert("locId"@[0] == 'l');
    assert("lat"@[1] == 'a');
    assert("lng"@[1] == 'n');
    assert("comName"@.len() == 7 && "sciName"@.len() == 7 && "locName"@.len() == 7);
    assert("obsDt"@.len() == 5 && "howMany"@.len() == 7 && "locId"@.len() == 5);
    assert("lat"@.len() == 3 && "lng"@.len() == 3);
    crate::json::value::lemma_field_of_at(fs, "comName"@, 0);
    crate::json::value::lemma_field_of_at(fs, "sciName"@, 1);
    crate::json::value::lemma_field_of_at(fs, "locName"@, 2);
    crate::json::value::lemma_field_of_at(fs, "obsDt"@, 3);
    crate::json::value::lemma_field_of_at(fs, "howMany"@, 4);
    crate::json::value::lemma_field_of_at(fs, "locId"@, 5);
    crate::json::value::lemma_field_of_at(fs, "lat"@, 6);
    crate::json::value::lemma_field_of_at(fs, "lng"@, 7);
}

/// The sequence of observations a JSON document denotes, if it is an array
/// of observation documents.
pub open spec fn obs_list_of_json(j: JsonSpec) -> Option<Seq<ObsView>>
    decreases (match j {
        JsonSpec::Arr(items) => items.len() + 1,
        _ => 0,
    }),
{
    match j {
        JsonSpec::Arr(items) => obs_seq_of(items),
        _ => None,
    }
}

/// The observations a sequence of documents denotes, if every document
/// denotes one.
pub open spec fn obs_seq_of(items: Seq<JsonSpec>) -> Option<Seq<ObsView>>
    decreases items.len(),
{
    if items.len() == 0 {
        Some(Seq::empty())
    } else {
        match (obs_seq_of(items.drop_last()), obs_of_json(items.last())) {
            (Some(front), Some(o)) => Some(front.push(o)),
            _ => None,
        }
    }
}

/// The views of a sequence of observations.
pub open spec fn obs_views(s: Seq<Observation>) -> Seq<ObsView> {
    Seq::new(s.len(), |i: int| s[i]@)
}

/// Reads a list of observations out of a JSON document.
pub fn obs_list_from_json(j: &JsonValue) -> (r: Option<Vec<Observation>>)
    ensures
        match r {
            Some(list) => obs_list_of_json(j@) == Some(obs_views(list@)),
            None => obs_list_of_json(j@) is None,
        },
{
    let items = match j {
        JsonValue::Arr(items) => items,
        _ => { return None; },
    };
    let ghost views = crate::json::value::jv_view_seq(items@);
    proof {
        crate::json::value::jv_view_seq_index(items@);
        assert(views.take(0) =~= Seq::<JsonSpec>::empty());
    }
    let mut out: Vec<Observation> = Vec::new();
    let mut i: usize = 0;
    while i < items.len()
        invariant
            i <= items@.len(),
            views == crate::json::value::jv_view_seq(items@),
            views.len() == items@.len(),
            forall|k: int|
                0 <= k < items@.len() ==> views[k] == crate::json::value::jv_view(items@[k]),
            j@ == JsonSpec::Arr(views),
            obs_seq_of(views.take(i as int)) == Some(obs_views(out@)),
        decreases items@.len() - i,
    {
        let o = match Observation::from_json(&items[i]) {
            Some(o) => o,
            None => {
                proof {
                    lemma_obs_seq_of_element_failure(views, i as int);
                }
                return None;
            },
        };
        out.push(o);
        proof {
            assert(views.take(i + 1).drop_last() =~= views.take(i as int));
            assert(obs_views(out@) =~= match obs_seq_of(views.take(i as int)) {
                Some(front) => front.push(o@),
                None => Seq::empty(),
            });
        }
        i += 1;
    }
    proof {
        assert(views.take(views.len() as int) =~= views);
    }
    Some(out)
}

/// A sequence of documents denotes no observation list once one element
/// fails to denote an observation.
proof fn lemma_obs_seq_of_element_failure(items: Seq<JsonSpec>, i: int)
    requires
        0 <= i < items.len(),
        obs_of_json(items[i]) is None,
    ensures
        obs_seq_of(items) is None,
    decreases items.len(),
{
    if items.len() > 0 {
        if i == items.len() - 1 {
        } else {
            lemma_obs_seq_of_element_failure(items.drop_last(), i);
        }
    }
}

/// Recent sightings in a region.
#[derive(Debug, Clone)]
pub struct FetchRegionRecentRequest {
    pub region_code: String,
    pub back: Option<u32>,
}

impl Endpoint for FetchRegionRecentRequest {
    open spec fn spec_path(&self) -> Seq<char> {
        "data/obs/"@ + self.region_code@ + "/recent"@
    }

    open spec fn spec_query(&self) -> Seq<(Seq<char>, Seq<char>)> {
        match self.back {
            None => Seq::empty(),
            Some(b) => seq![("back"@, dec_digits(b as nat))],
        }
    }

    open spec fn spec_format(&self) -> Option<Seq<char>> {
        None
    }

    fn method(&self) -> (r: HttpMethod) {
        HttpMethod::Get
    }

    fn path(&self) -> (r: String) {
        let mut s = String::from_str("data/obs/");
        s.append(self.region_code.as_str());
        s.append("/recent");
        s
    }

    fn query(&self) -> (r: Vec<(String, String)>) {
        let mut q: Vec<(String, String)> = Vec::new();
        if let Some(b) = self.back {
            q.push((String::from_str("back"), u32_to_string(b)));
        }
        proof {
            assert(pairs_view(q@) =~= self.spec_query());
        }
        q
    }

    fn format(&self) -> (r: Option<String>) {
        None
    }

    open spec fn spec_kind(&self) -> ResponseKind {
        ResponseKind::ObservationList
    }

    fn response_kind(&self) -> (r: ResponseKind) {
        ResponseKind::ObservationList
    }
}

/// Recent sightings near a point.
#[derive(Debug, Clone)]
pub struct FetchGeoRecentRequest {
    pub lat: Fixed,
    pub lng: Fixed,
    pub back: Option<u32>,
}

impl Endpoint for FetchGeoRecentRequest {
    open spec fn spec_path(&self) -> Seq<char> {
        "data/obs/geo/recent"@
    }

    open spec fn spec_query(&self) -> Seq<(Seq<char>, Seq<char>)> {
        let coords = seq![
            ("lat"@, fixed_chars(self.lat)),
            ("lng"@, fixed_chars(self.lng)),
        ];
        match self.back {
            None => coords,
            Some(b) => coords + seq![("back"@, dec_digits(b as nat))],
        }
    }

    open spec fn spec_format(&self) -> Option<Seq<char>> {
        None
    }

    fn method(&self) -> (r: HttpMethod) {
        HttpMethod::Get
    }

    fn path(&self) -> (r: String) {
        String::from_str("data/obs/geo/recent")
    }

    fn query(&self) -> (r: Vec<(String, String)>) {
        let mut q: Vec<(String, String)> = Vec::new();
        q.push((String::from_str("lat"), fixed_to_string(&self.lat)));
        q.push((String::from_str("lng"), fixed_to_string(&self.lng)));
        if let Some(b) = self.back {
            q.push((String::from_str("back"), u32_to_string(b)));
        }
        proof {
            assert(pairs_view(q@) =~= self.spec_query());
        }
        q
    }

    fn format(&self) -> (r: Option<String>) {
        None
    }

    open spec fn spec_kind(&self) -> ResponseKind {
        ResponseKind::ObservationList
    }

    fn response_kind(&self) -> (r: ResponseKind) {
        ResponseKind::ObservationList
    }
}

/// Recent notable sightings in a region.
#[derive(Debug, Clone)]
pub struct FetchNotableRecentRequest {
    pub region_code: String,
    pub back: Option<u32>,
}

impl Endpoint for FetchNotableRecentRequest {
    open spec fn spec_path(&self) -> Seq<char> {
        "data/obs/"@ + self.region_code@ + "/recent/notable"@
    }

    open spec fn spec_query(&self) -> Seq<(Seq<char>, Seq<char>)> {
        match self.back {
            None => Seq::empty(),
            Some(b) => seq![("back"@, dec_digits(b as nat))],
        }
    }

    open spec fn spec_format(&self) -> Option<Seq<char>> {
        None
    }

    fn method(&self) -> (r: HttpMethod) {
        HttpMethod::Get
    }

    fn path(&self) -> (r: String) {
        let mut s = String::from_str("data/obs/");
        s.append(self.region_code.as_str());
        s.append("/recent/notable");
        s
    }

    fn query(&self) -> (r: Vec<(String, String)>) {
        let mut q: Vec<(String, String)> = Vec::new();
        if let Some(b) = self.back {
            q.push((String::from_str("back"), u32_to_string(b)));
        }
        proof {
            assert(pairs_view(q@) =~= self.spec_query());
        }
        q
    }

    fn format(&self) -> (r: Option<String>) {
        None
    }

    open spec fn spec_kind(&self) -> ResponseKind {
        ResponseKind::ObservationList
    }

    fn response_kind(&self) -> (r: ResponseKind) {
        ResponseKind::ObservationList
    }
}

/// Recent sightings of one species in a region.
#[derive(Debug, Clone)]
pub struct FetchSpeciesRecentRequest {
    pub region_code: String,
    pub species_code: String,
    pub back: Option<u32>,
}

impl Endpoint for FetchSpeciesRecentRequest {
    open spec fn spec_path(&self) -> Seq<char> {
        "data/obs/"@ + self.region_code@ + "/recent/"@ + self.species_code@
    }

    open spec fn spec_query(&self) -> Seq<(Seq<char>, Seq<char>)> {
        match self.back {
            None => Seq::empty(),
            Some(b) => seq![("back"@, dec_digits(b as nat))],
        }
    }

    open spec fn spec_format(&self) -> Option<Seq<char>> {
        None
    }

    fn method(&self) -> (r: HttpMethod) {
        HttpMethod::Get
    }

    fn path(&self) -> (r: String) {
        let mut s = String::from_str("data/obs/");
        s.append(self.region_code.as_str());
        s.append("/recent/");
        s.append(self.species_code.as_str());
        s
    }

    fn query(&self) -> (r: Vec<(String, String)>) {
        let mut q: Vec<(String, String)> = Vec::new();
        if let Some(b) = self.back {
            q.push((String::from_str("back"), u32_to_string(b)));
        }
        proof {
            assert(pairs_view(q@) =~= self.spec_query());
        }
        q
    }

    fn format(&self) -> (r: Option<String>) {
        None
    }

    open spec fn spec_kind(&self) -> ResponseKind {
        ResponseKind::ObservationList
    }

    fn response_kind(&self) -> (r: ResponseKind) {
        ResponseKind::ObservationList
    }
}

/// The nearest recent sightings of one species.
#[derive(Debug, Clone)]
pub struct FetchSpeciesNearestRequest {
    pub species_code: String,
    pub lat: Fixed,
    pub lng: Fixed,
    pub dist: Option<u32>,
    pub back: Option<u32>,
}

impl Endpoint for FetchSpeciesNearestRequest {
    open spec fn spec_path(&self) -> Seq<char> {
        "data/nearest/geo/recent/"@ + self.species_code@
    }

    open spec fn spec_query(&self) -> Seq<(Seq<char>, Seq<char>)> {
        let coords = seq![
            ("lat"@, fixed_chars(self.lat)),
            ("lng"@, fixed_chars(self.lng)),
        ];
        let with_dist = match self.dist {
            None => coords,
            Some(d) => coords + seq![("dist"@, dec_digits(d as nat))],
        };
        match self.back {
            None => with_dist,
            Some(b) => with_dist + seq![("back"@, dec_digits(b as nat))],
        }
    }

    open spec fn spec_format(&self) -> Option<Seq<char>> {
        None
    }

    fn method(&self) -> (r: HttpMethod) {
        HttpMethod::Get
    }

    fn path(&self) -> (r: String) {
        let mut s = String::from_str("data/nearest/geo/recent/");
        s.append(self.species_code.as_str());
        s
    }

    fn query(&self) -> (r: Vec<(String, String)>) {
        let mut q: Vec<(String, String)> = Vec::new();
        q.push((String::from_str("lat"), fixed_to_string(&self.lat)));
        q.push((String::from_str("lng"), fixed_to_string(&self.lng)));
        if let Some(d) = self.dist {
            q.push((String::from_str("dist"), u32_to_string(d)));
        }
        if let Some(b) = self.back {
            q.push((String::from_str("back"), u32_to_string(b)));
        }
        proof {
            assert(pairs_view(q@) =~= self.spec_query());
        }
        q
    }

    fn format(&self) -> (r: Option<String>) {
        None
    }

    open spec fn spec_kind(&self) -> ResponseKind {
        ResponseKind::ObservationList
    }

    fn response_kind(&self) -> (r: ResponseKind) {
        ResponseKind::ObservationList
    }
}

/// The sightings of one region on one historic date.
#[derive(Debug, Clone)]
pub struct FetchHistoricRequest {
    pub region_code: String,
    pub year: u32,
    pub month: u32,
    pub day: u32,
}

impl Endpoint for FetchHistoricRequest {
    open spec fn spec_path(&self) -> Seq<char> {
        "data/obs/"@ + self.region_code@ + "/historic/"@ + dec_digits(self.year as nat) + "/"@
            + dec_digits(self.month as nat) + "/"@ + dec_digits(self.day as nat)
    }

    open spec fn spec_query(&self) -> Seq<(Seq<char>, Seq<char>)> {
        Seq::empty()
    }

    open spec fn spec_format(&self) -> Option<Seq<char>> {
        None
    }

    fn method(&self) -> (r: HttpMethod) {
        HttpMethod::Get
    }

    fn path(&self) -> (r: String) {
        let mut s = String::from_str("data/obs/");
        s.append(self.region_code.as_str());
        s.append("/historic/");
        let y = u32_to_string(self.year);
        s.append(y.as_str());
        s.append("/");
        let m = u32_to_string(self.month);
        s.append(m.as_str());
        s.append("/");
        let d = u32_to_string(self.day);
        s.append(d.as_str());
        s
    }

    fn query(&self) -> (r: Vec<(String, String)>) {
        let q: Vec<(String, String)> = Vec::new();
        proof {
            assert(pairs_view(q@) =~= self.spec_query());
        }
        q
    }

    fn format(&self) -> (r: Option<String>) {
        None
    }

    open spec fn spec_kind(&self) -> ResponseKind {
        ResponseKind::ObservationList
    }

    fn response_kind(&self) -> (r: ResponseKind) {
        ResponseKind::ObservationList
    }
}


/// A sighting path never holds an unescaped query separator, as long as
/// the region and species codes the caller validated hold none.
pub proof fn lemma_region_recent_path_clean(r: FetchRegionRecentRequest)
    requires
        no_query_sep(r.region_code@),
    ensures
        no_query_sep(r.spec_path()),
{
    reveal_strlit("data/obs/");
    reveal_strlit("/recent");
    lemma_no_query_sep_concat("data/obs/"@, r.region_code@);
    lemma_no_query_sep_concat("data/obs/"@ + r.region_code@, "/recent"@);
}

/// The geographic sightings path is fixed and holds no query separator.
pub proof fn lemma_geo_recent_path_clean(r: FetchGeoRecentRequest)
    ensures
        no_query_sep(r.spec_path()),
{
    reveal_strlit("data/obs/geo/recent");
}

/// See [`lemma_region_recent_path_clean`].
pub proof fn lemma_notable_recent_path_clean(r: FetchNotableRecentRequest)
    requires
        no_query_sep(r.region_code@),
    ensures
        no_query_sep(r.spec_path()),
{
    reveal_strlit("data/obs/");
    reveal_strlit("/recent/notable");
    lemma_no_query_sep_concat("data/obs/"@, r.region_code@);
    lemma_no_query_sep_concat("data/obs/"@ + r.region_code@, "/recent/notable"@);
}

/// See [`lemma_region_recent_path_clean`].
pub proof fn lemma_species_recent_path_clean(r: FetchSpeciesRecentRequest)
    requires
        no_query_sep(r.region_code@),
        no_query_sep(r.species_code@),
    ensures
        no_query_sep(r.spec_path()),
{
    reveal_strlit("data/obs/");
    reveal_strlit("/recent/");
    lemma_no_query_sep_concat("data/obs/"@, r.region_code@);
    lemma_no_query_sep_concat("data/obs/"@ + r.region_code@, "/recent/"@);
    lemma_no_query_sep_concat("data/obs/"@ + r.region_code@ + "/recent/"@, r.species_code@);
}

/// See [`lemma_region_recent_path_clean`].
pub proof fn lemma_species_nearest_path_clean(r: FetchSpeciesNearestRequest)
    requires
        no_query_sep(r.species_code@),
    ensures
        no_query_sep(r.spec_path()),
{
    reveal_strlit("data/nearest/geo/recent/");
    lemma_no_query_sep_concat("data/nearest/geo/recent/"@, r.species_code@);
}

/// A historic-date path never holds an unescaped query separator: the date
/// renders as digits and slashes.
pub proof fn lemma_historic_path_clean(r: FetchHistoricRequest)
    requires
        no_query_sep(r.region_code@),
    ensures
        no_query_sep(r.spec_path()),
{
    reveal_strlit("data/obs/");
    reveal_strlit("/historic/");
    reveal_strlit("/");
    crate::api::endpoint::lemma_dec_digits_no_query_sep(r.year as nat);
    crate::api::endpoint::lemma_dec_digits_no_query_sep(r.month as nat);
    crate::api::endpoint::lemma_dec_digits_no_query_sep(r.day as nat);
    lemma_no_query_sep_concat("data/obs/"@, r.region_code@);
    lemma_no_query_sep_concat("data/obs/"@ + r.region_code@, "/historic/"@);
    lemma_no_query_sep_concat(
        "data/obs/"@ + r.region_code@ + "/historic/"@,
        dec_digits(r.year as nat),
    );
    lemma_no_query_sep_concat(
        "data/obs/"@ + r.region_code@ + "/historic/"@ + dec_digits(r.year as nat),
        "/"@,
    );
    lemma_no_query_sep_concat(
        "data/obs/"@ + r.region_code@ + "/historic/"@ + dec_digits(r.year as nat) + "/"@,
        dec_digits(r.month as nat),
    );
    lemma_no_query_sep_concat(
        "data/obs/"@ + r.region_code@ + "/historic/"@ + dec_digits(r.year as nat) + "/"@
            + dec_digits(r.month as nat),
        "/"@,
    );
    lemma_no_query_sep_concat(
        "data/obs/"@ + r.region_code@ + "/historic/"@ + dec_digits(r.year as nat) + "/"@
            + dec_digits(r.month as nat) + "/"@,
        dec_digits(r.day as nat),
    );
}

/// An absent day-count is left out of the wire request entirely.
pub proof fn lemma_region_recent_omits_absent_back(r: FetchRegionRecentRequest)
    requires
        r.back is None,
    ensures
        r.spec_query() == Seq::<(Seq<char>, Seq<char>)>::empty(),
{
}

/// Absent parameters are left out of the wire request entirely; only the
/// coordinates always travel.
pub proof fn lemma_species_nearest_omits_absent_params(r: FetchSpeciesNearestRequest)
    requires
        r.dist is None,
        r.back is None,
    ensures
        r.spec_query() =~= seq![
            ("lat"@, fixed_chars(r.lat)),
            ("lng"@, fixed_chars(r.lng)),
        ],
{
}

} // verus!
