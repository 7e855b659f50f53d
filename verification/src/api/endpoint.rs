//! The capability contract every remote operation declares.

use vstd::prelude::*;

verus! {

/// The remote service is read-only; every operation uses the one method.
#[derive(Clone, Copy, PartialEq, Eq, Structural, Debug)]
pub enum HttpMethod {
    Get,
}

/// The shape every response payload is decoded into.
#[derive(Clone, Copy, PartialEq, Eq, Structural, Debug)]
pub enum ResponseKind {
    ObservationList,
    HotspotList,
    HotspotOne,
    RegionInfoRecord,
    SubRegionList,
}

/// The views of a list of query parameters.
pub open spec fn pairs_view(v: Seq<(String, String)>) -> Seq<(Seq<char>, Seq<char>)> {
    Seq::new(v.len(), |i: int| (v[i].0@, v[i].1@))
}

/// What one remote operation declares to the dispatcher: its method, its
/// interpolated relative path, its query parameters (a parameter with no
/// value is left out entirely), an optional response-format override for
/// endpoints whose upstream default is not JSON, and the shape of its
/// response. Nothing here performs any transfer.
pub trait Endpoint {
    /// The relative path, with every path parameter interpolated.
    spec fn spec_path(&self) -> Seq<char>;

    /// The query parameters, in order, values already rendered.
    spec fn spec_query(&self) -> Seq<(Seq<char>, Seq<char>)>;

    /// The forced response format, where the upstream default is not JSON.
    spec fn spec_format(&self) -> Option<Seq<char>>;

    /// The fixed HTTP method.
    fn method(&self) -> (r: HttpMethod)
        ensures
            r == HttpMethod::Get,
    ;

    /// The relative path of this request; never the query string.
    fn path(&self) -> (r: String)
        ensures
            r@ == self.spec_path(),
    ;

    /// The query parameters of this request.
    fn query(&self) -> (r: Vec<(String, String)>)
        ensures
            pairs_view(r@) == self.spec_query(),
    ;

    /// The response-format override, if the operation needs one.
    fn format(&self) -> (r: Option<String>)
        ensures
            match r {
                Some(s) => self.spec_format() == Some(s@),
                None => self.spec_format() is None,
            },
    ;

    /// The shape of this operation's response payload.
    spec fn spec_kind(&self) -> ResponseKind;

    /// The shape of this operation's response payload, as a value.
    fn response_kind(&self) -> (r: ResponseKind)
        ensures
            r == self.spec_kind(),
    ;
}

/// Whether `s` stays clear of the characters that would start or extend a
/// query string inside a path.
pub open spec fn no_query_sep(s: Seq<char>) -> bool {
    forall|i: int| 0 <= i < s.len() ==> s[i] != '?' && s[i] != '&'
}

/// Concatenation keeps paths clear of query separators.
pub proof fn lemma_no_query_sep_concat(a: Seq<char>, b: Seq<char>)
    requires
        no_query_sep(a),
        no_query_sep(b),
    ensures
        no_query_sep(a + b),
{
    assert forall|i: int| 0 <= i < (a + b).len() implies (a + b)[i] != '?' && (a + b)[i]
        != '&' by {
        if i < a.len() {
            assert((a + b)[i] == a[i]);
        } else {
            assert((a + b)[i] == b[i - a.len()]);
        }
    }
}

/// Decimal digits never hold a query separator.
pub proof fn lemma_dec_digits_no_query_sep(n: nat)
    ensures
        no_query_sep(crate::text::dec_digits(n)),
    decreases n,
{
    if n < 10 {
    } else {
        lemma_dec_digits_no_query_sep(n / 10);
        lemma_no_query_sep_concat(
            crate::text::dec_digits(n / 10),
            seq![crate::text::digit_char(n % 10)],
        );
    }
}

} // verus!
