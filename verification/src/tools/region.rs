//! Region metadata records and the endpoint descriptors for region
//! queries. A region's owning parent is held by value, so the record is a
//! finite chain mirroring the country, first-subdivision,
//! second-subdivision hierarchy.

use vstd::prelude::*;

use crate::api::endpoint::{lemma_no_query_sep_concat, no_query_sep, pairs_view, Endpoint,
    HttpMethod, ResponseKind};
use crate::codec::{get_field, get_req_fixed, get_req_str, req_fixed_of, req_str_of};
use crate::fixed::{fixed_num_spec, fixed_to_num, Fixed};
use crate::json::value::{field_of, jv_view_fields, jv_view_fields_index, lemma_field_of_at,
    lemma_field_of_decreases, JsonSpec, JsonValue};

verus! {

broadcast use vstd::seq::group_seq_axioms, vstd::std_specs::vec::group_vec_axioms,
    vstd::string::group_string_axioms;

/// The rank of a region in the administrative hierarchy.
#[derive(Debug, Clone, Copy, PartialEq, Eq, Structural)]
pub enum RegionType {
    Country,
    Subnational1,
    Subnational2,
}

/// The lowercase wire token of a region type.
pub open spec fn region_type_token(t: RegionType) -> Seq<char> {
    match t {
        RegionType::Country => "country"@,
        RegionType::Subnational1 => "subnational1"@,
        RegionType::Subnational2 => "subnational2"@,
    }
}

/// The region type a lowercase wire token denotes.
pub open spec fn region_type_of_token(s: Seq<char>) -> Option<RegionType> {
    if s == "country"@ {
        Some(RegionType::Country)
    } else if s == "subnational1"@ {
        Some(RegionType::Subnational1)
    } else if s == "subnational2"@ {
        Some(RegionType::Subnational2)
    } else {
        None
    }
}

impl RegionType {
    /// Renders the lowercase wire token.
    pub fn token(&self) -> (r: String)
        ensures
            r@ == region_type_token(*self),
    {
        match self {
            RegionType::Country => String::from_str("country"),
            RegionType::Subnational1 => String::from_str("subnational1"),
            RegionType::Subnational2 => String::from_str("subnational2"),
        }
    }

    /// Reads a lowercase wire token.
    pub fn from_token(s: &String) -> (r: Option<RegionType>)
        ensures
            r == region_type_of_token(s@),
    {
        if s.eq(&String::from_str("country")) {
            Some(RegionType::Country)
        } else if s.eq(&String::from_str("subnational1")) {
            Some(RegionType::Subnational1)
        } else if s.eq(&String::from_str("subnational2")) {
            Some(RegionType::Subnational2)
        } else {
            None
        }
    }
}

/// The wire token of every region type reads back as that type.
pub proof fn lemma_region_type_round_trip(t: RegionType)
    ensures
        region_type_of_token(region_type_token(t)) == Some(t),
{
    reveal_strlit("country");
    reveal_strlit("subnational1");
    reveal_strlit("subnational2");
    assert("country"@.len() == 7 && "subnational1"@.len() == 12 && "subnational2"@.len() == 12);
    assert("subnational1"@[11] == '1' && "subnational2"@[11] == '2');
}

/// A geographic bounding box.
#[derive(Debug, Clone, Copy, PartialEq, Eq, Structural)]
pub struct Bounds {
    pub min_x: Fixed,
    pub max_x: Fixed,
    pub min_y: Fixed,
    pub max_y: Fixed,
}

impl Bounds {
    /// Coordinates carry one representation per value.
    pub open spec fn wf(self) -> bool {
        self.min_x.wf() && self.max_x.wf() && self.min_y.wf() && self.max_y.wf()
    }
}

/// The JSON document denoting a bounding box.
pub open spec fn bounds_json(b: Bounds) -> JsonSpec {
    JsonSpec::Obj(
        seq![
            ("minX"@, JsonSpec::Num(fixed_num_spec(b.min_x))),
            ("maxX"@, JsonSpec::Num(fixed_num_spec(b.max_x))),
            ("minY"@, JsonSpec::Num(fixed_num_spec(b.min_y))),
            ("maxY"@, JsonSpec::Num(fixed_num_spec(b.max_y))),
        ],
    )
}

/// The bounding box a JSON document denotes, if it has the expected shape.
pub open spec fn bounds_of_json(j: JsonSpec) -> Option<Bounds> {
    match (
        req_fixed_of(j.field("minX"@)),
        req_fixed_of(j.field("maxX"@)),
        req_fixed_of(j.field("minY"@)),
        req_fixed_of(j.field("maxY"@)),
    ) {
        (Some(min_x), Some(max_x), Some(min_y), Some(max_y)) => Some(
            Bounds { min_x, max_x, min_y, max_y },
        ),
        _ => None,
    }
}

impl Bounds {
    /// Renders this bounding box as a JSON document.
    pub fn to_json(&self) -> (r: JsonValue)
        ensures
            r@ == bounds_json(*self),
    {
        let mut fields: Vec<(String, JsonValue)> = Vec::new();
        fields.push((String::from_str("minX"), JsonValue::Num(fixed_to_num(&self.min_x))));
        fields.push((String::from_str("maxX"), JsonValue::Num(fixed_to_num(&self.max_x))));
        fields.push((String::from_str("minY"), JsonValue::Num(fixed_to_num(&self.min_y))));
        fields.push((String::from_str("maxY"), JsonValue::Num(fixed_to_num(&self.max_y))));
        let ghost fv = fields@;
        let r = JsonValue::Obj(fields);
        proof {
            jv_view_fields_index(fv);
            assert(jv_view_fields(fv) =~= seq![
                ("minX"@, JsonSpec::Num(fixed_num_spec(self.min_x))),
                ("maxX"@, JsonSpec::Num(fixed_num_spec(self.max_x))),
                ("minY"@, JsonSpec::Num(fixed_num_spec(self.min_y))),
                ("maxY"@, JsonSpec::Num(fixed_num_spec(self.max_y))),
            ]);
        }
        r
    }

    /// Reads a bounding box out of a JSON document, when it has the
    /// expected shape.
    pub fn from_json(j: &JsonValue) -> (r: Option<Bounds>)
        ensures
            match r {
                Some(b) => bounds_of_json(j@) == Some(b) && b.wf(),
                None => bounds_of_json(j@) is None,
            },
    {
        let fields = match j {
            JsonValue::Obj(fields) => fields,
            _ => { return None; },
        };
        let min_x = match get_req_fixed(fields, &String::from_str("minX")) {
            Some(f) => f,
            None => { return None; },
        };
        let max_x = match get_req_fixed(fields, &String::from_str("maxX")) {
            Some(f) => f,
            None => { return None; },
        };
        let min_y = match get_req_fixed(fields, &String::from_str("minY")) {
            Some(f) => f,
            None => { return None; },
        };
        let max_y = match get_req_fixed(fields, &String::from_str("maxY")) {
            Some(f) => f,
            None => { return None; },
        };
        Some(Bounds { min_x, max_x, min_y, max_y })
    }
}

/// Reading back an encoded bounding box yields it unchanged.
pub proof fn lemma_bounds_round_trip(b: Bounds)
    requires
        b.wf(),
    ensures
        bounds_of_json(bounds_json(b)) == Some(b),
{
    reveal_strlit("minX");
    reveal_strlit("maxX");
    reveal_strlit("minY");
    reveal_strlit("maxY");
    crate::fixed::lemma_fixed_num_round_trip(b.min_x);
    crate::fixed::lemma_fixed_num_round_trip(b.max_x);
    crate::fixed::lemma_fixed_num_round_trip(b.min_y);
    crate::fixed::lemma_fixed_num_round_trip(b.max_y);
    let fs = seq![
        ("minX"@, JsonSpec::Num(fixed_num_spec(b.min_x))),
        ("maxX"@, JsonSpec::Num(fixed_num_spec(b.max_x))),
        ("minY"@, JsonSpec::Num(fixed_num_spec(b.min_y))),
        ("maxY"@, JsonSpec::Num(fixed_num_spec(b.max_y))),
    ];
    assert(bounds_json(b) == JsonSpec::Obj(fs));
    assert("minX"@[1] == 'i' && "maxX"@[1] == 'a' && "minY"@[1] == 'i' && "maxY"@[1] == 'a');
    assert("minX"@[3] == 'X' && "minY"@[3] == 'Y' && "maxX"@[3] == 'X' && "maxY"@[3] == 'Y');
    assert("minX"@.len() == 4 && "maxX"@.len() == 4 && "minY"@.len() == 4 && "maxY"@.len()
        == 4);
    lemma_field_of_at(fs, "minX"@, 0);
    lemma_field_of_at(fs, "maxX"@, 1);
    lemma_field_of_at(fs, "minY"@, 2);
    lemma_field_of_at(fs, "maxY"@, 3);
}

/// Metadata of one region: its display name, code, rank, optional bounds,
/// its centroid, and its owning parent region, held by value.
#[derive(Debug)]
pub struct RegionInfo {
    pub bounds: Option<Bounds>,
    pub result: String,
    pub code: String,
    pub region_type: RegionType,
    pub parent: Option<Box<RegionInfo>>,
    pub longitude: Fixed,
    pub latitude: Fixed,
}

/// The mathematical shape of a region record.
pub struct RegionInfoView {
    pub bounds: Option<Bounds>,
    pub result: Seq<char>,
    pub code: Seq<char>,
    pub region_type: RegionType,
    pub parent: Option<Box<RegionInfoView>>,
    pub longitude: Fixed,
    pub latitude: Fixed,
}

impl RegionInfoView {
    /// Coordinates carry one representation per value, all the way up the
    /// parent chain.
    pub open spec fn wf(self) -> bool
        decreases self,
    {
        &&& (self.bounds matches Some(b) ==> b.wf())
        &&& self.longitude.wf()
        &&& self.latitude.wf()
        &&& (self.parent matches Some(p) ==> p.wf())
    }
}

/// The mathematical shape of a region record.
pub open spec fn region_info_view(r: RegionInfo) -> RegionInfoView
    decreases r,
{
    RegionInfoView {
        bounds: r.bounds,
        result: r.result@,
        code: r.code@,
        region_type: r.region_type,
        parent: match r.parent {
            None => None,
            Some(p) => Some(Box::new(region_info_view(*p))),
        },
        longitude: r.longitude,
        latitude: r.latitude,
    }
}

impl View for RegionInfo {
    type V = RegionInfoView;

    open spec fn view(&self) -> RegionInfoView {
        region_info_view(*self)
    }
}

/// The JSON document denoting a region record, under the upstream field
/// names.
pub open spec fn region_json(v: RegionInfoView) -> JsonSpec
    decreases v,
{
    let bounds_doc = match v.bounds {
        None => JsonSpec::Null,
        Some(b) => bounds_json(b),
    };
    let parent_doc = match v.parent {
        None => JsonSpec::Null,
        Some(p) => region_json(*p),
    };
    JsonSpec::Obj(
        seq![
            ("bounds"@, bounds_doc),
            ("result"@, JsonSpec::Str(v.result)),
            ("code"@, JsonSpec::Str(v.code)),
            ("type"@, JsonSpec::Str(region_type_token(v.region_type))),
            ("parent"@, parent_doc),
            ("longitude"@, JsonSpec::Num(fixed_num_spec(v.longitude))),
            ("latitude"@, JsonSpec::Num(fixed_num_spec(v.latitude))),
        ],
    )
}

/// The region record a JSON document denotes, if it has the expected
/// shape. An absent or `null` parent ends the chain; a present one must
/// itself denote a region record.
pub open spec fn region_of_json(j: JsonSpec) -> Option<RegionInfoView>
    decreases j,
    via region_of_json_decreases
{
    match j {
        JsonSpec::Obj(fields) => {
            let bounds = match field_of(fields, "bounds"@) {
                None => Some(None),
                Some(JsonSpec::Null) => Some(None),
                Some(b) => match bounds_of_json(b) {
                    Some(bv) => Some(Some(bv)),
                    None => None,
                },
            };
            let parent = match field_of(fields, "parent"@) {
                None => Some(None),
                Some(JsonSpec::Null) => Some(None),
                Some(p) => match region_of_json(p) {
                    Some(pv) => Some(Some(Box::new(pv))),
                    None => None,
                },
            };
            let region_type = match req_str_of(field_of(fields, "type"@)) {
                Some(tok) => region_type_of_token(tok),
                None => None,
            };
            match (
                bounds,
                req_str_of(field_of(fields, "result"@)),
                req_str_of(field_of(fields, "code"@)),
                region_type,
                parent,
                req_fixed_of(field_of(fields, "longitude"@)),
                req_fixed_of(field_of(fields, "latitude"@)),
            ) {
                (
                    Some(bounds),
                    Some(result),
                    Some(code),
                    Some(region_type),
                    Some(parent),
                    Some(longitude),
                    Some(latitude),
                ) => Some(
                    RegionInfoView {
                        bounds,
                        result,
                        code,
                        region_type,
                        parent,
                        longitude,
                        latitude,
                    },
                ),
                _ => None,
            }
        },
        _ => None,
    }
}

#[via_fn]
proof fn region_of_json_decreases(j: JsonSpec) {
    if let JsonSpec::Obj(fields) = j {
        if field_of(fields, "parent"@) is Some {
            lemma_field_of_decreases(fields, "parent"@);
        }
    }
}

impl RegionInfo {
    /// Renders this region record as a JSON document.
    pub fn to_json(&self) -> (r: JsonValue)
        ensures
            r@ == region_json(self@),
        decreases self,
    {
        let mut fields: Vec<(String, JsonValue)> = Vec::new();
        let bounds_value = match &self.bounds {
            None => JsonValue::Null,
            Some(b) => b.to_json(),
        };
        fields.push((String::from_str("bounds"), bounds_value));
        fields.push((String::from_str("result"), JsonValue::Str(self.result.clone())));
        fields.push((String::from_str("code"), JsonValue::Str(self.code.clone())));
        fields.push((String::from_str("type"), JsonValue::Str(self.region_type.token())));
        let parent_value = match &self.parent {
            None => JsonValue::Null,
            Some(p) => {
                proof {
                    assert(decreases_to!(*self => self.parent));
                }
                (**p).to_json()
            },
        };
        fields.push((String::from_str("parent"), parent_value));
        fields.push((String::from_str("longitude"), JsonValue::Num(fixed_to_num(&self.longitude))));
        fields.push((String::from_str("latitude"), JsonValue::Num(fixed_to_num(&self.latitude))));
        let ghost fv = fields@;
        let r = JsonValue::Obj(fields);
        proof {
            jv_view_fields_index(fv);
            let bounds_doc = match self@.bounds {
                None => JsonSpec::Null,
                Some(b) => bounds_json(b),
            };
            let parent_doc = match self@.parent {
                None => JsonSpec::Null,
                Some(p) => region_json(*p),
            };
            assert(jv_view_fields(fv) =~= seq![
                ("bounds"@, bounds_doc),
                ("result"@, JsonSpec::Str(self.result@)),
                ("code"@, JsonSpec::Str(self.code@)),
                ("type"@, JsonSpec::Str(region_type_token(self.region_type))),
                ("parent"@, parent_doc),
                ("longitude"@, JsonSpec::Num(fixed_num_spec(self.longitude))),
                ("latitude"@, JsonSpec::Num(fixed_num_spec(self.latitude))),
            ]);
        }
        r
    }

    /// Reads a region record out of a JSON document, when it has the
    /// expected shape.
    pub fn from_json(j: &JsonValue) -> (r: Option<RegionInfo>)
        ensures
            match r {
                Some(v) => region_of_json(j@) == Some(v@) && v@.wf(),
                None => region_of_json(j@) is None,
            },
        decreases j,
    {
        let fields = match j {
            JsonValue::Obj(fields) => fields,
            _ => { return None; },
        };
        let bounds = match get_field(fields, &String::from_str("bounds")) {
            None => None,
            Some(v) => match v {
                JsonValue::Null => None,
                other => match Bounds::from_json(other) {
                    Some(b) => Some(b),
                    None => { return None; },
                },
            },
        };
        let result = match get_req_str(fields, &String::from_str("result")) {
            Some(s) => s,
            None => { return None; },
        };
        let code = match get_req_str(fields, &String::from_str("code")) {
            Some(s) => s,
            None => { return None; },
        };
        let region_type = match get_req_str(fields, &String::from_str("type")) {
            Some(tok) => match RegionType::from_token(&tok) {
                Some(t) => t,
                None => { return None; },
            },
            None => { return None; },
        };
        let parent = match get_field(fields, &String::from_str("parent")) {
            None => None,
            Some(v) => match v {
                JsonValue::Null => None,
                other => {
                    proof {
                        let k = choose|k: int|
                            0 <= k < fields@.len() && *other == #[trigger] fields@[k].1;
                        assert(decreases_to!(*j => *fields));
                        assert(decreases_to!(*fields => fields@[k]));
                        assert(decreases_to!(fields@[k] => fields@[k].1));
                    }
                    match RegionInfo::from_json(other) {
                        Some(p) => Some(Box::new(p)),
                        None => { return None; },
                    }
                },
            },
        };
        let longitude = match get_req_fixed(fields, &String::from_str("longitude")) {
            Some(f) => f,
            None => { return None; },
        };
        let latitude = match get_req_fixed(fields, &String::from_str("latitude")) {
            Some(f) => f,
            None => { return None; },
        };
        Some(RegionInfo { bounds, result, code, region_type, parent, longitude, latitude })
    }
}

/// Reading back an encoded region record yields it unchanged, parents
/// included.
pub proof fn lemma_region_round_trip(v: RegionInfoView)
    requires
        v.wf(),
    ensures
        region_of_json(region_json(v)) == Some(v),
    decreases v,
{
    reveal_strlit("bounds");
    reveal_strlit("result");
    reveal_strlit("code");
    reveal_strlit("type");
    reveal_strlit("parent");
    reveal_strlit("longitude");
    reveal_strlit("latitude");
    crate::fixed::lemma_fixed_num_round_trip(v.longitude);
    crate::fixed::lemma_fixed_num_round_trip(v.latitude);
    lemma_region_type_round_trip(v.region_type);
    if let Some(b) = v.bounds {
        lemma_bounds_round_trip(b);
    }
    if let Some(p) = v.parent {
        lemma_region_round_trip(*p);
    }
    let bounds_doc = match v.bounds {
        None => JsonSpec::Null,
        Some(b) => bounds_json(b),
    };
    let parent_doc = match v.parent {
        None => JsonSpec::Null,
        Some(p) => region_json(*p),
    };
    let fs = seq![
        ("bounds"@, bounds_doc),
        ("result"@, JsonSpec::Str(v.result)),
        ("code"@, JsonSpec::Str(v.code)),
        ("type"@, JsonSpec::Str(region_type_token(v.region_type))),
        ("parent"@, parent_doc),
        ("longitude"@, JsonSpec::Num(fixed_num_spec(v.longitude))),
        ("latitude"@, JsonSpec::Num(fixed_num_spec(v.latitude))),
    ];
    assert(region_json(v) == JsonSpec::Obj(fs));
    assert("bounds"@.len() == 6 && "result"@.len() == 6 && "code"@.len() == 4 && "type"@.len()
        == 4 && "parent"@.len() == 6 && "longitude"@.len() == 9 && "latitude"@.len() == 8);
    assert("bounds"@[0] == 'b' && "result"@[0] == 'r' && "parent"@[0] == 'p' && "code"@[0]
        == 'c' && "type"@[0] == 't');
    lemma_field_of_at(fs, "bounds"@, 0);
    lemma_field_of_at(fs, "result"@, 1);
    lemma_field_of_at(fs, "code"@, 2);
    lemma_field_of_at(fs, "type"@, 3);
    lemma_field_of_at(fs, "parent"@, 4);
    lemma_field_of_at(fs, "longitude"@, 5);
    lemma_field_of_at(fs, "latitude"@, 6);
}

/// One listed subdivision of a region.
#[derive(Debug)]
pub struct SubRegion {
    pub code: String,
    pub name: String,
}

/// The mathematical shape of a listed subdivision.
pub struct SubRegionView {
    pub code: Seq<char>,
    pub name: Seq<char>,
}

impl View for SubRegion {
    type V = SubRegionView;

    open spec fn view(&self) -> SubRegionView {
        SubRegionView { code: self.code@, name: self.name@ }
    }
}

/// The JSON document denoting a listed subdivision.
pub open spec fn subregion_json(v: SubRegionView) -> JsonSpec {
    JsonSpec::Obj(
        seq![("code"@, JsonSpec::Str(v.code)), ("name"@, JsonSpec::Str(v.name))],
    )
}

/// The listed subdivision a JSON document denotes.
pub open spec fn subregion_of_json(j: JsonSpec) -> Option<SubRegionView> {
    match (req_str_of(j.field("code"@)), req_str_of(j.field("name"@))) {
        (Some(code), Some(name)) => Some(SubRegionView { code, name }),
        _ => None,
    }
}

impl SubRegion {
    /// Renders this subdivision as a JSON document.
    pub fn to_json(&self) -> (r: JsonValue)
        ensures
            r@ == subregion_json(self@),
    {
        let mut fields: Vec<(String, JsonValue)> = Vec::new();
        fields.push((String::from_str("code"), JsonValue::Str(self.code.clone())));
        fields.push((String::from_str("name"), JsonValue::Str(self.name.clone())));
        let ghost fv = fields@;
        let r = JsonValue::Obj(fields);
        proof {
            jv_view_fields_index(fv);
            assert(jv_view_fields(fv) =~= seq![
                ("code"@, JsonSpec::Str(self.code@)),
                ("name"@, JsonSpec::Str(self.name@)),
            ]);
        }
        r
    }

    /// Reads a subdivision out of a JSON document, when it has the
    /// expected shape.
    pub fn from_json(j: &JsonValue) -> (r: Option<SubRegion>)
        ensures
            match r {
                Some(v) => subregion_of_json(j@) == Some(v@),
                None => subregion_of_json(j@) is None,
            },
    {
        let fields = match j {
            JsonValue::Obj(fields) => fields,
            _ => { return None; },
        };
        let code = match get_req_str(fields, &String::from_str("code")) {
            Some(s) => s,
            None => { return None; },
        };
        let name = match get_req_str(fields, &String::from_str("name")) {
            Some(s) => s,
            None => { return None; },
        };
        Some(SubRegion { code, name })
    }
}

/// Reading back an encoded subdivision yields it unchanged.
pub proof fn lemma_subregion_round_trip(v: SubRegionView)
    ensures
        subregion_of_json(subregion_json(v)) == Some(v),
{
    reveal_strlit("code");
    reveal_strlit("name");
    let fs = seq![("code"@, JsonSpec::Str(v.code)), ("name"@, JsonSpec::Str(v.name))];
    assert(subregion_json(v) == JsonSpec::Obj(fs));
    assert("code"@[0] == 'c' && "name"@[0] == 'n');
    assert("code"@.len() == 4 && "name"@.len() == 4);
    lemma_field_of_at(fs, "code"@, 0);
    lemma_field_of_at(fs, "name"@, 1);
}

/// The sequence of subdivisions a JSON document denotes, if it is an array
/// of subdivision documents.
pub open spec fn subregion_list_of_json(j: JsonSpec) -> Option<Seq<SubRegionView>> {
    match j {
        JsonSpec::Arr(items) => subregion_seq_of(items),
        _ => None,
    }
}

/// The subdivisions a sequence of documents denotes, if every document
/// denotes one.
pub open spec fn subregion_seq_of(items: Seq<JsonSpec>) -> Option<Seq<SubRegionView>>
    decreases items.len(),
{
    if items.len() == 0 {
        Some(Seq::empty())
    } else {
        match (subregion_seq_of(items.drop_last()), subregion_of_json(items.last())) {
            (Some(front), Some(v)) => Some(front.push(v)),
            _ => None,
        }
    }
}

/// The views of a sequence of subdivisions.
pub open spec fn subregion_views(s: Seq<SubRegion>) -> Seq<SubRegionView> {
    Seq::new(s.len(), |i: int| s[i]@)
}

/// A sequence of documents denotes no subdivision list once one element
/// fails to denote a subdivision.
proof fn lemma_subregion_seq_of_element_failure(items: Seq<JsonSpec>, i: int)
    requires
        0 <= i < items.len(),
        subregion_of_json(items[i]) is None,
    ensures
        subregion_seq_of(items) is None,
    decreases items.len(),
{
    if items.len() > 0 {
        if i < items.len() - 1 {
            lemma_subregion_seq_of_element_failure(items.drop_last(), i);
        }
    }
}

/// Reads a list of subdivisions out of a JSON document.
pub fn subregion_list_from_json(j: &JsonValue) -> (r: Option<Vec<SubRegion>>)
    ensures
        match r {
            Some(list) => subregion_list_of_json(j@) == Some(subregion_views(list@)),
            None => subregion_list_of_json(j@) is None,
        },
{
    let items = match j {
        JsonValue::Arr(items) => items,
        _ => { return None; },
    };
    let ghost views = crate::json::value::jv_view_seq(items@);
    proof {
        crate::json::value::jv_view_seq_index(items@);
        assert(views.take(0) =~= Seq::<JsonSpec>::empty());
    }
    let mut out: Vec<SubRegion> = Vec::new();
    let mut i: usize = 0;
    while i < items.len()
        invariant
            i <= items@.len(),
            views == crate::json::value::jv_view_seq(items@),
            views.len() == items@.len(),
            forall|k: int|
                0 <= k < items@.len() ==> views[k] == crate::json::value::jv_view(items@[k]),
            j@ == JsonSpec::Arr(views),
            subregion_seq_of(views.take(i as int)) == Some(subregion_views(out@)),
        decreases items@.len() - i,
    {
        let v = match SubRegion::from_json(&items[i]) {
            Some(v) => v,
            None => {
                proof {
                    lemma_subregion_seq_of_element_failure(views, i as int);
                }
                return None;
            },
        };
        out.push(v);
        proof {
            assert(views.take(i + 1).drop_last() =~= views.take(i as int));
            assert(subregion_views(out@) =~= match subregion_seq_of(views.take(i as int)) {
                Some(front) => front.push(v@),
                None => Seq::empty(),
            });
        }
        i += 1;
    }
    proof {
        assert(views.take(views.len() as int) =~= views);
    }
    Some(out)
}

/// Metadata of one region.
#[derive(Debug, Clone)]
pub struct GetRegionInfoRequest {
    pub region_code: String,
}

impl Endpoint for GetRegionInfoRequest {
    open spec fn spec_path(&self) -> Seq<char> {
        "ref/region/info/"@ + self.region_code@
    }

    open spec fn spec_query(&self) -> Seq<(Seq<char>, Seq<char>)> {
        Seq::empty()
    }

    open spec fn spec_format(&self) -> Option<Seq<char>> {
        None
    }

    fn method(&self) -> (r: HttpMethod) {
        HttpMethod::Get
    }

    fn path(&self) -> (r: String) {
        let mut s = String::from_str("ref/region/info/");
        s.append(self.region_code.as_str());
        s
    }

    fn query(&self) -> (r: Vec<(String, String)>) {
        let q: Vec<(String, String)> = Vec::new();
        proof {
            assert(pairs_view(q@) =~= self.spec_query());
        }
        q
    }

    fn format(&self) -> (r: Option<String>) {
        None
    }

    open spec fn spec_kind(&self) -> ResponseKind {
        ResponseKind::RegionInfoRecord
    }

    fn response_kind(&self) -> (r: ResponseKind) {
        ResponseKind::RegionInfoRecord
    }
}

/// The second-level subdivisions under a region.
#[derive(Debug, Clone)]
pub struct GetSubRegionsRequest {
    pub region_code: String,
}

impl Endpoint for GetSubRegionsRequest {
    open spec fn spec_path(&self) -> Seq<char> {
        "ref/region/list/subnational2/"@ + self.region_code@
    }

    open spec fn spec_query(&self) -> Seq<(Seq<char>, Seq<char>)> {
        Seq::empty()
    }

    open spec fn spec_format(&self) -> Option<Seq<char>> {
        None
    }

    fn method(&self) -> (r: HttpMethod) {
        HttpMethod::Get
    }

    fn path(&self) -> (r: String) {
        let mut s = String::from_str("ref/region/list/subnational2/");
        s.append(self.region_code.as_str());
        s
    }

    fn query(&self) -> (r: Vec<(String, String)>) {
        let q: Vec<(String, String)> = Vec::new();
        proof {
            assert(pairs_view(q@) =~= self.spec_query());
        }
        q
    }

    fn format(&self) -> (r: Option<String>) {
        None
    }

    open spec fn spec_kind(&self) -> ResponseKind {
        ResponseKind::SubRegionList
    }

    fn response_kind(&self) -> (r: ResponseKind) {
        ResponseKind::SubRegionList
    }
}


/// A region path never holds an unescaped query separator, as long as the
/// code the caller validated holds none.
pub proof fn lemma_region_info_path_clean(r: GetRegionInfoRequest)
    requires
        no_query_sep(r.region_code@),
    ensures
        no_query_sep(r.spec_path()),
{
    reveal_strlit("ref/region/info/");
    lemma_no_query_sep_concat("ref/region/info/"@, r.region_code@);
}

/// See [`lemma_region_info_path_clean`].
pub proof fn lemma_subregions_path_clean(r: GetSubRegionsRequest)
    requires
        no_query_sep(r.region_code@),
    ensures
        no_query_sep(r.spec_path()),
{
    reveal_strlit("ref/region/list/subnational2/");
    lemma_no_query_sep_concat("ref/region/list/subnational2/"@, r.region_code@);
}

} // verus!
