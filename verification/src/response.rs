//! The decoder side: strict, fully typed records built from the untyped
//! JSON trees the Crossref service answers with.
//!
//! Every converter follows one contract: a required key that is absent or
//! wrongly typed is a distinct, named failure, while an optional field
//! absorbs anything malformed and decodes to "absent".  A caller receives
//! either a fully populated record or a named error, never a partial one.

use vstd::prelude::*;
use crate::error::{
    ErrorKind, invalid_message, invalid_type, message_type_err, missing_field, missing_field_err,
    type_err,
};
use crate::json::{
    Json, json_as_u64, lookup, lookup_spec, opt_str, opt_str_spec, opt_usize_spec, req_usize,
};

pub mod journal;
pub mod work;

verus! {

/// The echo of the query a list request carried.
#[derive(Debug, Clone, PartialEq, Eq)]
pub struct QueryResponse {
    /// The start index of the returned page.
    pub start_index: usize,
    /// The search terms, if the request had any.
    pub search_terms: Option<String>,
}

/// Whether a JSON value decodes to a `QueryResponse`.
pub open spec fn query_response_ok(v: Json) -> bool {
    &&& v matches Json::Object(m)
    &&& opt_usize_spec(m@, "start-index"@) is Some
}

/// Whether `r` is the record decoded from `v`.
pub open spec fn query_response_matches(v: Json, r: QueryResponse) -> bool {
    match v {
        Json::Object(m) => {
            &&& opt_usize_spec(m@, "start-index"@) == Some(r.start_index as int)
            &&& crate::query::opt_str_view(r.search_terms) == opt_str_spec(m@, "search-terms"@)
        },
        _ => false,
    }
}

/// The named failure decoding `v` gives.
pub open spec fn query_response_err(v: Json, e: ErrorKind) -> bool {
    match v {
        Json::Object(m) => if lookup_spec(m@, "start-index"@) is None {
            missing_field_err(e, "start-index"@)
        } else {
            type_err(e, "start-index"@)
        },
        _ => message_type_err(e, "expected a JSON object"@),
    }
}

impl QueryResponse {
    /// Decodes the query echo of a list response: `start-index` is
    /// required, `search-terms` optional.
    pub fn try_from(v: &Json) -> (r: Result<Self, ErrorKind>)
        ensures
            r is Ok <==> query_response_ok(*v),
            r matches Ok(q) ==> query_response_matches(*v, q),
            r matches Err(e) ==> query_response_err(*v, e),
    {
        match v {
            Json::Object(m) => {
                let start_index = match req_usize(m, "start-index") {
                    Ok(n) => n,
                    Err(e) => {
                        return Err(e);
                    },
                };
                let search_terms = opt_str(m, "search-terms");
                Ok(QueryResponse { start_index, search_terms })
            },
            _ => Err(invalid_message("expected a JSON object")),
        }
    }
}

/// One facet of a list response: how many distinct values the dimension
/// took, and the count behind each value.
#[derive(Debug, Clone, PartialEq, Eq)]
pub struct FacetItem {
    /// How many distinct values the facet holds.
    pub value_count: usize,
    /// The facet values with their counts.
    pub values: Vec<(String, usize)>,
}

/// Whether every member of an object holds an unsigned count that fits
/// `usize`.
pub open spec fn count_map_ok(m: Seq<(String, Json)>) -> bool {
    forall|i: int|
        0 <= i < m.len() ==> (json_as_u64((#[trigger] m[i]).1) matches Some(n) && n
            <= usize::MAX as int)
}

/// Whether `r` carries exactly the names and counts of the object's
/// members, in wire order.
pub open spec fn count_map_matches(m: Seq<(String, Json)>, r: Seq<(String, usize)>) -> bool {
    &&& r.len() == m.len()
    &&& forall|i: int|
        0 <= i < m.len() ==> (#[trigger] r[i]).0@ == m[i].0@ && json_as_u64(m[i].1) == Some(
            r[i].1 as int,
        )
}

/// Collects an object's members as named counts; any member that is not
/// an unsigned count yields nothing.
pub fn count_map_of(m: &Vec<(String, Json)>) -> (r: Option<Vec<(String, usize)>>)
    ensures
        r is Some <==> count_map_ok(m@),
        r matches Some(v) ==> count_map_matches(m@, v@),
{
    let mut out: Vec<(String, usize)> = Vec::new();
    let mut i: usize = 0;
    while i < m.len()
        invariant
            0 <= i <= m.len(),
            out@.len() == i,
            forall|j: int|
                0 <= j < i ==> (json_as_u64((#[trigger] m@[j]).1) matches Some(n) && n
                    <= usize::MAX as int),
            forall|j: int|
                0 <= j < i ==> (#[trigger] out@[j]).0@ == m@[j].0@ && json_as_u64(m@[j].1) == Some(
                    out@[j].1 as int,
                ),
        decreases m.len() - i,
    {
        let count: usize = match &m[i].1 {
            Json::Int(n) => {
                if *n >= 0 && *n as u64 <= usize::MAX as u64 {
                    *n as usize
                } else {
                    return None;
                }
            },
            Json::UInt(u) => {
                if *u <= usize::MAX as u64 {
                    *u as usize
                } else {
                    return None;
                }
            },
            _ => {
                return None;
            },
        };
        let name = m[i].0.clone();
        out.push((name, count));
        i = i + 1;
    }
    Some(out)
}

/// Whether a JSON value decodes to a `FacetItem`.
pub open spec fn facet_item_ok(v: Json) -> bool {
    &&& v matches Json::Object(m)
    &&& opt_usize_spec(m@, "value-count"@) is Some
    &&& (lookup_spec(m@, "values"@) matches Some(j) && j matches Json::Object(vm) && count_map_ok(
        vm@,
    ))
}

/// Whether `r` is the facet decoded from `v`.
pub open spec fn facet_item_matches(v: Json, r: FacetItem) -> bool {
    match v {
        Json::Object(m) => {
            &&& opt_usize_spec(m@, "value-count"@) == Some(r.value_count as int)
            &&& (lookup_spec(m@, "values"@) matches Some(j) && j matches Json::Object(vm)
                && count_map_matches(vm@, r.values@))
        },
        _ => false,
    }
}

/// The named failure decoding `v` gives: `value-count` is checked first,
/// then `values`.
pub open spec fn facet_item_err(v: Json, e: ErrorKind) -> bool {
    match v {
        Json::Object(m) => if lookup_spec(m@, "value-count"@) is None {
            missing_field_err(e, "value-count"@)
        } else if !(opt_usize_spec(m@, "value-count"@) is Some) {
            type_err(e, "value-count"@)
        } else if lookup_spec(m@, "values"@) is None {
            missing_field_err(e, "values"@)
        } else {
            type_err(e, "values"@)
        },
        _ => message_type_err(e, "expected a JSON object"@),
    }
}

impl FacetItem {
    /// Decodes one facet: `value-count` and `values` are both required; a
    /// member of `values` that is not an unsigned count fails the facet.
    pub fn try_from(v: &Json) -> (r: Result<Self, ErrorKind>)
        ensures
            r is Ok <==> facet_item_ok(*v),
            r matches Ok(f) ==> facet_item_matches(*v, f),
            r matches Err(e) ==> facet_item_err(*v, e),
    {
        match v {
            Json::Object(m) => {
                let value_count = match req_usize(m, "value-count") {
                    Ok(n) => n,
                    Err(e) => {
                        return Err(e);
                    },
                };
                let values = match lookup(m, "values") {
                    Some(j) => match j {
                        Json::Object(vm) => match count_map_of(vm) {
                            Some(v) => v,
                            None => {
                                return Err(invalid_type("values"));
                            },
                        },
                        _ => {
                            return Err(invalid_type("values"));
                        },
                    },
                    None => {
                        return Err(missing_field("values"));
                    },
                };
                Ok(FacetItem { value_count, values })
            },
            _ => Err(invalid_message("expected a JSON object")),
        }
    }
}

/// The facet name to facet detail map of a list response, in wire order.
pub type FacetMap = Vec<(String, FacetItem)>;

/// Whether every member of the `facets` object decodes to a `FacetItem`.
pub open spec fn facet_map_ok(m: Seq<(String, Json)>) -> bool {
    forall|i: int| 0 <= i < m.len() ==> facet_item_ok((#[trigger] m[i]).1)
}

/// Whether `r` carries the decoded facets, names kept, in wire order.
pub open spec fn facet_map_matches(m: Seq<(String, Json)>, r: Seq<(String, FacetItem)>) -> bool {
    &&& r.len() == m.len()
    &&& forall|i: int|
        0 <= i < m.len() ==> (#[trigger] r[i]).0@ == m[i].0@ && facet_item_matches(m[i].1, r[i].1)
}

/// The index of the first member whose value fails to decode as a facet.
pub open spec fn facet_map_first_bad(m: Seq<(String, Json)>) -> int
    decreases m.len(),
{
    if m.len() == 0 {
        0
    } else if !facet_item_ok(m[0].1) {
        0
    } else {
        1 + facet_map_first_bad(m.drop_first())
    }
}

/// When the members before `i` decode and the one at `i` does not, `i` is
/// the first failure.
pub proof fn lemma_facet_map_first_bad(m: Seq<(String, Json)>, i: int)
    requires
        0 <= i < m.len(),
        !facet_item_ok(m[i].1),
        forall|j: int| 0 <= j < i ==> facet_item_ok((#[trigger] m[j]).1),
    ensures
        facet_map_first_bad(m) == i,
    decreases i,
{
    if i > 0 {
        lemma_facet_map_first_bad(m.drop_first(), i - 1);
    }
}

/// Decodes the members of a `facets` object; a member that fails to
/// decode fails the whole map with that member's error.
pub fn facet_map_of(m: &Vec<(String, Json)>) -> (r: Result<FacetMap, ErrorKind>)
    ensures
        r is Ok <==> facet_map_ok(m@),
        r matches Ok(v) ==> facet_map_matches(m@, v@),
        r matches Err(e) ==> !facet_map_ok(m@) && facet_item_err(
            m@[facet_map_first_bad(m@)].1,
            e,
        ),
{
    let mut out: Vec<(String, FacetItem)> = Vec::new();
    let mut i: usize = 0;
    while i < m.len()
        invariant
            0 <= i <= m.len(),
            out@.len() == i,
            forall|j: int| 0 <= j < i ==> facet_item_ok((#[trigger] m@[j]).1),
            forall|j: int|
                0 <= j < i ==> (#[trigger] out@[j]).0@ == m@[j].0@ && facet_item_matches(
                    m@[j].1,
                    out@[j].1,
                ),
        decreases m.len() - i,
    {
        match FacetItem::try_from(&m[i].1) {
            Ok(f) => {
                let name = m[i].0.clone();
                out.push((name, f));
            },
            Err(e) => {
                proof {
                    lemma_facet_map_first_bad(m@, i as int);
                }
                return Err(e);
            },
        }
        i = i + 1;
    }
    Ok(out)
}

} // verus!
