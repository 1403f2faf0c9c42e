//! The `Journal` record and its list envelope, decoded from the
//! `/journals` responses.
//!
//! Two sub-structures whose wire shape has drifted across API versions —
//! the coverage counters and their by-type breakdown — are kept as
//! opaque JSON values rather than fully typed records.

use vstd::prelude::*;
use vstd::string::*;
use crate::error::{
    ErrorKind, invalid_message, invalid_type, message_type_err, missing_field, missing_field_err,
    type_err,
};
use crate::json::{
    Json, first_not, json_as_i64, json_eq, lemma_first_not, lookup, lookup_spec, opt_json,
    opt_str_list_spec, opt_str_spec, opt_usize, opt_usize_spec, req_i32, req_i64, req_str,
    req_str_list, req_usize,
};
use crate::response::{FacetMap, QueryResponse, query_response_matches, query_response_ok};

verus! {

/// The DOI counters of a journal.
#[derive(Debug, Clone, PartialEq, Eq)]
pub struct Counts {
    /// All DOIs of the journal.
    pub total_dois: i32,
    /// DOIs of the current period.
    pub current_dois: i32,
    /// DOIs of the backfile.
    pub backfile_dois: i32,
}

/// Whether a JSON value decodes to a `Counts`.
pub open spec fn counts_ok(v: Json) -> bool {
    &&& v matches Json::Object(m)
    &&& crate::json::opt_i32_spec(m@, "total-dois"@) is Some
    &&& crate::json::opt_i32_spec(m@, "current-dois"@) is Some
    &&& crate::json::opt_i32_spec(m@, "backfile-dois"@) is Some
}

/// Whether `x` is the record decoded from `v`.
pub open spec fn counts_matches(v: Json, x: Counts) -> bool {
    match v {
        Json::Object(m) => {
            &&& crate::json::opt_i32_spec(m@, "total-dois"@) == Some(x.total_dois as int)
            &&& crate::json::opt_i32_spec(m@, "current-dois"@) == Some(x.current_dois as int)
            &&& crate::json::opt_i32_spec(m@, "backfile-dois"@) == Some(x.backfile_dois as int)
        },
        _ => false,
    }
}

/// The named failure decoding `v` gives, in field order.
pub open spec fn counts_err(v: Json, e: ErrorKind) -> bool {
    match v {
        Json::Object(m) => if !(crate::json::opt_i32_spec(m@, "total-dois"@) is Some) {
            if lookup_spec(m@, "total-dois"@) is None {
                missing_field_err(e, "total-dois"@)
            } else {
                type_err(e, "total-dois"@)
            }
        } else if !(crate::json::opt_i32_spec(m@, "current-dois"@) is Some) {
            if lookup_spec(m@, "current-dois"@) is None {
                missing_field_err(e, "current-dois"@)
            } else {
                type_err(e, "current-dois"@)
            }
        } else {
            if lookup_spec(m@, "backfile-dois"@) is None {
                missing_field_err(e, "backfile-dois"@)
            } else {
                type_err(e, "backfile-dois"@)
            }
        },
        _ => message_type_err(e, "expected a JSON object"@),
    }
}

impl Counts {
    /// Decodes the DOI counters: all three fields are required.
    pub fn try_from(v: &Json) -> (r: Result<Self, ErrorKind>)
        ensures
            r is Ok <==> counts_ok(*v),
            r matches Ok(x) ==> counts_matches(*v, x),
            r matches Err(e) ==> counts_err(*v, e),
    {
        match v {
            Json::Object(m) => {
                let total_dois = match req_i32(m, "total-dois") {
                    Ok(n) => n,
                    Err(e) => {
                        return Err(e);
                    },
                };
                let current_dois = match req_i32(m, "current-dois") {
                    Ok(n) => n,
                    Err(e) => {
                        return Err(e);
                    },
                };
                let backfile_dois = match req_i32(m, "backfile-dois") {
                    Ok(n) => n,
                    Err(e) => {
                        return Err(e);
                    },
                };
                Ok(Counts { total_dois, current_dois, backfile_dois })
            },
            _ => Err(invalid_message("expected a JSON object")),
        }
    }
}

/// The deposit flags of a journal, as named booleans.
#[derive(Debug, Clone, PartialEq, Eq)]
pub struct Flags {
    /// Whether current abstracts are deposited.
    pub deposits_abstracts_current: bool,
    /// Whether current ORCIDs are deposited.
    pub deposits_orcids_current: bool,
    /// Whether the journal deposits at all.
    pub deposits: bool,
    /// Whether backfile affiliations are deposited.
    pub deposits_affiliations_backfile: bool,
    /// Whether backfile update policies are deposited.
    pub deposits_update_policies_backfile: bool,
    /// Whether current award numbers are deposited.
    pub deposits_award_numbers_current: bool,
    /// Whether current resource links are deposited.
    pub deposits_resource_links_current: bool,
    /// Whether current ROR ids are deposited.
    pub deposits_ror_ids_current: bool,
    /// Whether articles are deposited.
    pub deposits_articles: bool,
    /// Whether current affiliations are deposited.
    pub deposits_affiliations_current: bool,
    /// Whether current funders are deposited.
    pub deposits_funders_current: bool,
    /// Whether backfile references are deposited.
    pub deposits_references_backfile: bool,
    /// Whether backfile ROR ids are deposited.
    pub deposits_ror_ids_backfile: bool,
    /// Whether backfile abstracts are deposited.
    pub deposits_abstracts_backfile: bool,
    /// Whether backfile licenses are deposited.
    pub deposits_licenses_backfile: bool,
    /// Whether backfile award numbers are deposited.
    pub deposits_award_numbers_backfile: bool,
    /// Whether current descriptions are deposited.
    pub deposits_descriptions_current: bool,
    /// Whether current references are deposited.
    pub deposits_references_current: bool,
    /// Whether backfile resource links are deposited.
    pub deposits_resource_links_backfile: bool,
    /// Whether backfile descriptions are deposited.
    pub deposits_descriptions_backfile: bool,
    /// Whether backfile ORCIDs are deposited.
    pub deposits_orcids_backfile: bool,
    /// Whether backfile funders are deposited.
    pub deposits_funders_backfile: bool,
    /// Whether current update policies are deposited.
    pub deposits_update_policies_current: bool,
    /// Whether current licenses are deposited.
    pub deposits_licenses_current: bool,
}

/// ISSN information with its type annotation, as the `/journals`
/// responses carry it.
#[derive(Debug, Clone, PartialEq, Eq)]
pub struct IssnType {
    /// The ISSN identifier.
    pub value: String,
    /// The ISSN type, for example `print` or `electronic`.
    pub type_: String,
}

/// Whether a JSON value decodes to an `IssnType`.
pub open spec fn issn_type_ok(v: Json) -> bool {
    &&& v matches Json::Object(m)
    &&& opt_str_spec(m@, "value"@) is Some
    &&& opt_str_spec(m@, "type"@) is Some
}

/// Whether `x` is the record decoded from `v`.
pub open spec fn issn_type_matches(v: Json, x: IssnType) -> bool {
    match v {
        Json::Object(m) => {
            &&& x.value@ == opt_str_spec(m@, "value"@)->Some_0
            &&& x.type_@ == opt_str_spec(m@, "type"@)->Some_0
        },
        _ => false,
    }
}

/// The named failure decoding `v` gives.
pub open spec fn issn_type_err(v: Json, e: ErrorKind) -> bool {
    match v {
        Json::Object(m) => if !(opt_str_spec(m@, "value"@) is Some) {
            if lookup_spec(m@, "value"@) is None {
                missing_field_err(e, "value"@)
            } else {
                type_err(e, "value"@)
            }
        } else {
            if lookup_spec(m@, "type"@) is None {
                missing_field_err(e, "type"@)
            } else {
                type_err(e, "type"@)
            }
        },
        _ => message_type_err(e, "expected a JSON object"@),
    }
}

impl IssnType {
    /// Decodes an `IssnType`: both fields are required.
    pub fn try_from(v: &Json) -> (r: Result<Self, ErrorKind>)
        ensures
            r is Ok <==> issn_type_ok(*v),
            r matches Ok(x) ==> issn_type_matches(*v, x),
            r matches Err(e) ==> issn_type_err(*v, e),
    {
        match v {
            Json::Object(m) => {
                let value = match req_str(m, "value") {
                    Ok(s) => s,
                    Err(e) => {
                        return Err(e);
                    },
                };
                let type_ = match req_str(m, "type") {
                    Ok(s) => s,
                    Err(e) => {
                        return Err(e);
                    },
                };
                Ok(IssnType { value, type_ })
            },
            _ => Err(invalid_message("expected a JSON object")),
        }
    }
}

/// Whether every member of an object holds a boolean.
pub open spec fn bool_map_ok(m: Seq<(String, Json)>) -> bool {
    forall|i: int| 0 <= i < m.len() ==> (#[trigger] m[i]).1 is Bool
}

/// Whether `r` carries the names and booleans of the object's members,
/// in wire order.
pub open spec fn bool_map_matches(m: Seq<(String, Json)>, r: Seq<(String, bool)>) -> bool {
    &&& r.len() == m.len()
    &&& forall|i: int|
        0 <= i < m.len() ==> (#[trigger] r[i]).0@ == m[i].0@ && m[i].1 == Json::Bool(r[i].1)
}

/// Collects an object's members as named booleans; a member of another
/// JSON type yields nothing.
fn bool_map_of(m: &Vec<(String, Json)>) -> (r: Option<Vec<(String, bool)>>)
    ensures
        r is Some <==> bool_map_ok(m@),
        r matches Some(v) ==> bool_map_matches(m@, v@),
{
    let mut out: Vec<(String, bool)> = Vec::new();
    let mut i: usize = 0;
    while i < m.len()
        invariant
            0 <= i <= m.len(),
            out@.len() == i,
            forall|j: int| 0 <= j < i ==> (#[trigger] m@[j]).1 is Bool,
            forall|j: int|
                0 <= j < i ==> (#[trigger] out@[j]).0@ == m@[j].0@ && m@[j].1 == Json::Bool(
                    out@[j].1,
                ),
        decreases m.len() - i,
    {
        match &m[i].1 {
            Json::Bool(b) => {
                let name = m[i].0.clone();
                out.push((name, *b));
            },
            _ => {
                return None;
            },
        }
        i = i + 1;
    }
    Some(out)
}

/// Whether one breakdown element is an array holding at least two signed
/// integers.
pub open spec fn pair_ok(j: Json) -> bool {
    &&& j matches Json::Array(a)
    &&& a@.len() >= 2
    &&& json_as_i64(a@[0]) is Some
    &&& json_as_i64(a@[1]) is Some
}

/// The two leading integers of a breakdown element.
pub open spec fn pair_val(j: Json) -> (i64, i64) {
    match j {
        Json::Array(a) => (
            match a@[0] {
                Json::Int(x) => x,
                _ => 0,
            },
            match a@[1] {
                Json::Int(y) => y,
                _ => 0,
            },
        ),
        _ => (0, 0),
    }
}

/// Whether every breakdown element is well formed.
pub open spec fn pairs_ok(a: Seq<Json>) -> bool {
    forall|i: int| 0 <= i < a.len() ==> pair_ok(#[trigger] a[i])
}

/// The year/count pairs of the breakdown elements, in wire order.
pub open spec fn pairs_vals(a: Seq<Json>) -> Seq<(i64, i64)> {
    a.map_values(|j: Json| pair_val(j))
}

/// Reads the breakdown elements; a malformed element yields nothing.
fn pairs_of(a: &Vec<Json>) -> (r: Option<Vec<(i64, i64)>>)
    ensures
        r is Some <==> pairs_ok(a@),
        r matches Some(v) ==> v@ == pairs_vals(a@),
{
    let mut out: Vec<(i64, i64)> = Vec::new();
    let mut i: usize = 0;
    while i < a.len()
        invariant
            0 <= i <= a.len(),
            out@.len() == i,
            forall|j: int| 0 <= j < i ==> pair_ok(#[trigger] a@[j]),
            forall|j: int| 0 <= j < i ==> out@[j] == pair_val(#[trigger] a@[j]),
        decreases a.len() - i,
    {
        match &a[i] {
            Json::Array(inner) => {
                if inner.len() < 2 {
                    return None;
                }
                let x = match &inner[0] {
                    Json::Int(x) => *x,
                    _ => {
                        return None;
                    },
                };
                let y = match &inner[1] {
                    Json::Int(y) => *y,
                    _ => {
                        return None;
                    },
                };
                out.push((x, y));
            },
            _ => {
                return None;
            },
        }
        i = i + 1;
    }
    proof {
        assert(out@ =~= pairs_vals(a@));
    }
    Some(out)
}

/// Where `x` lands when inserted behind every element whose year is not
/// above its own: the stable insertion step of the sort.
pub open spec fn insert_sorted(x: (i64, i64), s: Seq<(i64, i64)>) -> Seq<(i64, i64)>
    decreases s.len(),
{
    if s.len() == 0 {
        seq![x]
    } else if s[0].0 <= x.0 {
        seq![s[0]] + insert_sorted(x, s.drop_first())
    } else {
        seq![x] + s
    }
}

/// The stable insertion sort of the pairs by their first component.
pub open spec fn sort_pairs(s: Seq<(i64, i64)>) -> Seq<(i64, i64)>
    decreases s.len(),
{
    if s.len() == 0 {
        Seq::empty()
    } else {
        insert_sorted(s.last(), sort_pairs(s.drop_last()))
    }
}

/// Inserting at the first position whose element exceeds `x` realizes
/// the insertion step.
proof fn lemma_insert_at(s: Seq<(i64, i64)>, x: (i64, i64), k: int)
    requires
        0 <= k <= s.len(),
        forall|j: int| 0 <= j < k ==> (#[trigger] s[j]).0 <= x.0,
        k < s.len() ==> s[k].0 > x.0,
    ensures
        insert_sorted(x, s) == s.take(k) + seq![x] + s.skip(k),
    decreases k,
{
    if k == 0 {
        if s.len() == 0 {
            assert(insert_sorted(x, s) =~= s.take(0) + seq![x] + s.skip(0));
        } else {
            assert(insert_sorted(x, s) =~= s.take(0) + seq![x] + s.skip(0));
        }
    } else {
        lemma_insert_at(s.drop_first(), x, k - 1);
        assert(s.drop_first().take(k - 1) =~= s.take(k).drop_first());
        assert(s.drop_first().skip(k - 1) =~= s.skip(k));
        assert(seq![s[0]] + (s.drop_first().take(k - 1) + seq![x] + s.drop_first().skip(k - 1))
            =~= s.take(k) + seq![x] + s.skip(k));
    }
}

/// Sorts the pairs by year with a stable insertion sort, as `sort_pairs`
/// describes.
fn sort_by_year(v: Vec<(i64, i64)>) -> (r: Vec<(i64, i64)>)
    ensures
        r@ == sort_pairs(v@),
{
    let mut out: Vec<(i64, i64)> = Vec::new();
    let mut i: usize = 0;
    while i < v.len()
        invariant
            0 <= i <= v.len(),
            out@ == sort_pairs(v@.take(i as int)),
        decreases v.len() - i,
    {
        let x = v[i];
        let mut k: usize = 0;
        while k < out.len() && out[k].0 <= x.0
            invariant
                0 <= k <= out@.len(),
                forall|j: int| 0 <= j < k ==> (#[trigger] out@[j]).0 <= x.0,
            decreases out@.len() - k,
        {
            k = k + 1;
        }
        let ghost before = out@;
        out.insert(k, x);
        proof {
            lemma_insert_at(before, x, k as int);
            assert(out@ =~= before.take(k as int) + seq![x] + before.skip(k as int));
            assert(v@.take(i as int + 1).drop_last() =~= v@.take(i as int));
            assert(v@.take(i as int + 1).last() == v@[i as int]);
        }
        i = i + 1;
    }
    proof {
        assert(v@.take(v@.len() as int) =~= v@);
    }
    out
}

/// One journal of the Crossref database.
#[derive(Debug, Clone)]
pub struct Journal {
    /// The raw millisecond timestamp of the last status check.
    pub last_status_check_time: Option<i64>,
    /// The DOI counters.
    pub counts: Counts,
    /// DOIs by issued year, sorted ascending by year.
    pub breakdowns: Vec<(i64, i64)>,
    /// The publisher of the journal.
    pub publisher: String,
    /// The coverage numbers, kept as an opaque JSON value because their
    /// shape has changed across API versions.
    pub coverage: Option<Json>,
    /// The journal title.
    pub title: String,
    /// The subject names.
    pub subjects: Vec<String>,
    /// The coverage numbers by type, kept opaque like `coverage`.
    pub coverage_type: Option<Json>,
    /// The deposit flags as a dynamic name-to-boolean map.
    pub flags: Vec<(String, bool)>,
    /// The ISSNs of the journal.
    pub issn: Vec<String>,
    /// The ISSNs with their type annotations.
    pub issn_type: Vec<IssnType>,
}

/// Whether a JSON value decodes to a `Journal`.
pub open spec fn journal_ok(v: Json) -> bool {
    &&& v matches Json::Object(m)
    &&& crate::json::opt_i64_spec(m@, "last-status-check-time"@) is Some
    &&& (lookup_spec(m@, "counts"@) matches Some(j) && j is Object && counts_ok(j))
    &&& (lookup_spec(m@, "breakdowns"@) matches Some(b) && b matches Json::Object(bm)
        && lookup_spec(bm@, "dois-by-issued-year"@) matches Some(d) && d matches Json::Array(a)
        && pairs_ok(a@))
    &&& opt_str_spec(m@, "publisher"@) is Some
    &&& opt_str_spec(m@, "title"@) is Some
    &&& opt_str_list_spec(m@, "subjects"@) is Some
    &&& (lookup_spec(m@, "flags"@) matches Some(f) && f matches Json::Object(fm) && bool_map_ok(
        fm@,
    ))
    &&& opt_str_list_spec(m@, "ISSN"@) is Some
    &&& (lookup_spec(m@, "issn-type"@) matches Some(t) && t matches Json::Array(ta) && (forall|
        i: int,
    |
        0 <= i < ta@.len() ==> issn_type_ok(#[trigger] ta@[i])))
}

/// Whether `x` is the journal decoded from `v`.
pub open spec fn journal_matches(v: Json, x: Journal) -> bool {
    match v {
        Json::Object(m) => {
            &&& crate::json::opt_i64_spec(m@, "last-status-check-time"@) matches Some(t)
                && x.last_status_check_time matches Some(lt) && lt as int == t
            &&& (lookup_spec(m@, "counts"@) matches Some(j) && counts_matches(j, x.counts))
            &&& (lookup_spec(m@, "breakdowns"@) matches Some(b) && b matches Json::Object(bm)
                && lookup_spec(bm@, "dois-by-issued-year"@) matches Some(d) && d matches
                Json::Array(a) && x.breakdowns@ == sort_pairs(pairs_vals(a@)))
            &&& x.publisher@ == opt_str_spec(m@, "publisher"@)->Some_0
            &&& (match lookup_spec(m@, "coverage"@) {
                Some(j) => x.coverage matches Some(c) && json_eq(c, j),
                None => x.coverage is None,
            })
            &&& x.title@ == opt_str_spec(m@, "title"@)->Some_0
            &&& Some(x.subjects.deep_view()) == opt_str_list_spec(m@, "subjects"@)
            &&& (match lookup_spec(m@, "coverage-type"@) {
                Some(j) => x.coverage_type matches Some(c) && json_eq(c, j),
                None => x.coverage_type is None,
            })
            &&& (lookup_spec(m@, "flags"@) matches Some(f) && f matches Json::Object(fm)
                && bool_map_matches(fm@, x.flags@))
            &&& Some(x.issn.deep_view()) == opt_str_list_spec(m@, "ISSN"@)
            &&& (lookup_spec(m@, "issn-type"@) matches Some(t) && t matches Json::Array(ta)
                && ta@.len() == x.issn_type@.len() && (forall|i: int|
                0 <= i < ta@.len() ==> issn_type_matches(#[trigger] ta@[i], x.issn_type@[i])))
        },
        _ => false,
    }
}

/// The named failure decoding `v` gives, in check order.
pub open spec fn journal_err(v: Json, e: ErrorKind) -> bool {
    match v {
        Json::Object(m) => if !(crate::json::opt_i64_spec(m@, "last-status-check-time"@) is Some) {
            if lookup_spec(m@, "last-status-check-time"@) is None {
                missing_field_err(e, "last-status-check-time"@)
            } else {
                type_err(e, "last-status-check-time"@)
            }
        } else if !(lookup_spec(m@, "counts"@) matches Some(j) && j is Object) {
            if lookup_spec(m@, "counts"@) is None {
                missing_field_err(e, "counts"@)
            } else {
                type_err(e, "counts"@)
            }
        } else if !(lookup_spec(m@, "counts"@) matches Some(j) && counts_ok(j)) {
            counts_err(lookup_spec(m@, "counts"@)->Some_0, e)
        } else if lookup_spec(m@, "breakdowns"@) is None {
            missing_field_err(e, "breakdowns"@)
        } else if !(lookup_spec(m@, "breakdowns"@) matches Some(b) && b matches Json::Object(bm)
            && lookup_spec(bm@, "dois-by-issued-year"@) is Some) {
            missing_field_err(e, "dois-by-issued-year"@)
        } else if !(lookup_spec(m@, "breakdowns"@) matches Some(b) && b matches Json::Object(bm)
            && lookup_spec(bm@, "dois-by-issued-year"@) matches Some(d) && d is Array) {
            type_err(e, "breakdowns"@)
        } else if !(lookup_spec(m@, "breakdowns"@) matches Some(b) && b matches Json::Object(bm)
            && lookup_spec(bm@, "dois-by-issued-year"@) matches Some(d) && d matches Json::Array(a)
            && pairs_ok(a@)) {
            type_err(e, "breakdowns"@)
        } else if !(opt_str_spec(m@, "publisher"@) is Some) {
            if lookup_spec(m@, "publisher"@) is None {
                missing_field_err(e, "publisher"@)
            } else {
                type_err(e, "publisher"@)
            }
        } else if !(opt_str_spec(m@, "title"@) is Some) {
            if lookup_spec(m@, "title"@) is None {
                missing_field_err(e, "title"@)
            } else {
                type_err(e, "title"@)
            }
        } else if !(opt_str_list_spec(m@, "subjects"@) is Some) {
            if lookup_spec(m@, "subjects"@) is None {
                missing_field_err(e, "subjects"@)
            } else {
                type_err(e, "subjects"@)
            }
        } else if !(lookup_spec(m@, "flags"@) matches Some(f) && f is Object) {
            if lookup_spec(m@, "flags"@) is None {
                missing_field_err(e, "flags"@)
            } else {
                type_err(e, "flags"@)
            }
        } else if !(lookup_spec(m@, "flags"@) matches Some(f) && f matches Json::Object(fm)
            && bool_map_ok(fm@)) {
            type_err(e, "flags"@)
        } else if !(opt_str_list_spec(m@, "ISSN"@) is Some) {
            if lookup_spec(m@, "ISSN"@) is None {
                missing_field_err(e, "ISSN"@)
            } else {
                type_err(e, "ISSN"@)
            }
        } else if !(lookup_spec(m@, "issn-type"@) matches Some(t) && t is Array) {
            if lookup_spec(m@, "issn-type"@) is None {
                missing_field_err(e, "issn-type"@)
            } else {
                type_err(e, "issn-type"@)
            }
        } else {
            issn_type_err(
                lookup_spec(m@, "issn-type"@)->Some_0->Array_0@[first_not(
                    lookup_spec(m@, "issn-type"@)->Some_0->Array_0@,
                    (|j: Json| issn_type_ok(j)),
                )],
                e,
            )
        },
        _ => message_type_err(e, "expected a JSON object"@),
    }
}

/// Decodes a required `issn-type` array; an element that fails to decode
/// fails the whole list with the first such element's error.
fn issn_type_list_of(a: &Vec<Json>) -> (r: Result<Vec<IssnType>, ErrorKind>)
    ensures
        r is Ok <==> (forall|i: int| 0 <= i < a@.len() ==> issn_type_ok(#[trigger] a@[i])),
        r matches Ok(l) ==> l@.len() == a@.len() && (forall|i: int|
            0 <= i < a@.len() ==> issn_type_matches(#[trigger] a@[i], l@[i])),
        r matches Err(e) ==> !(forall|i: int| 0 <= i < a@.len() ==> issn_type_ok(#[trigger] a@[i]))
            && issn_type_err(a@[first_not(a@, (|j: Json| issn_type_ok(j)))], e),
{
    let mut out: Vec<IssnType> = Vec::new();
    let mut i: usize = 0;
    while i < a.len()
        invariant
            0 <= i <= a.len(),
            out@.len() == i,
            forall|j: int| 0 <= j < i ==> issn_type_ok(#[trigger] a@[j]),
            forall|j: int| 0 <= j < i ==> issn_type_matches(#[trigger] a@[j], out@[j]),
        decreases a.len() - i,
    {
        match IssnType::try_from(&a[i]) {
            Ok(x) => {
                out.push(x);
            },
            Err(e) => {
                proof {
                    lemma_first_not(a@, (|j: Json| issn_type_ok(j)), i as int);
                }
                return Err(e);
            },
        }
        i = i + 1;
    }
    Ok(out)
}

impl Journal {
    /// Decodes a `Journal`.  The status-check time, the counters, the
    /// breakdowns, publisher, title, subjects, flags and ISSN data are
    /// all required; the two coverage values are kept opaque.
    #[verifier::rlimit(60)]
    pub fn try_from(v: &Json) -> (r: Result<Self, ErrorKind>)
        ensures
            r is Ok <==> journal_ok(*v),
            r matches Ok(x) ==> journal_matches(*v, x),
            r matches Err(e) ==> journal_err(*v, e),
    {
        match v {
            Json::Object(m) => {
                let ts = match req_i64(m, "last-status-check-time") {
                    Ok(t) => t,
                    Err(e) => {
                        return Err(e);
                    },
                };
                let counts = match lookup(m, "counts") {
                    Some(j) => {
                        if j.is_object() {
                            match Counts::try_from(j) {
                                Ok(c) => c,
                                Err(e) => {
                                    return Err(e);
                                },
                            }
                        } else {
                            return Err(invalid_type("counts"));
                        }
                    },
                    None => {
                        return Err(missing_field("counts"));
                    },
                };
                let breakdowns = match lookup(m, "breakdowns") {
                    Some(b) => match b {
                        Json::Object(bm) => match lookup(bm, "dois-by-issued-year") {
                            Some(d) => match d {
                                Json::Array(a) => match pairs_of(a) {
                                    Some(p) => sort_by_year(p),
                                    None => {
                                        return Err(invalid_type("breakdowns"));
                                    },
                                },
                                _ => {
                                    return Err(invalid_type("breakdowns"));
                                },
                            },
                            None => {
                                return Err(missing_field("dois-by-issued-year"));
                            },
                        },
                        _ => {
                            return Err(missing_field("dois-by-issued-year"));
                        },
                    },
                    None => {
                        return Err(missing_field("breakdowns"));
                    },
                };
                let publisher = match req_str(m, "publisher") {
                    Ok(s) => s,
                    Err(e) => {
                        return Err(e);
                    },
                };
                let title = match req_str(m, "title") {
                    Ok(s) => s,
                    Err(e) => {
                        return Err(e);
                    },
                };
                let subjects = match req_str_list(m, "subjects") {
                    Ok(s) => s,
                    Err(e) => {
                        return Err(e);
                    },
                };
                let coverage = opt_json(m, "coverage");
                let coverage_type = opt_json(m, "coverage-type");
                let flags = match lookup(m, "flags") {
                    Some(f) => match f {
                        Json::Object(fm) => match bool_map_of(fm) {
                            Some(b) => b,
                            None => {
                                return Err(invalid_type("flags"));
                            },
                        },
                        _ => {
                            return Err(invalid_type("flags"));
                        },
                    },
                    None => {
                        return Err(missing_field("flags"));
                    },
                };
                let issn = match req_str_list(m, "ISSN") {
                    Ok(s) => s,
                    Err(e) => {
                        return Err(e);
                    },
                };
                let issn_type = match lookup(m, "issn-type") {
                    Some(t) => match t {
                        Json::Array(ta) => match issn_type_list_of(ta) {
                            Ok(l) => l,
                            Err(e) => {
                                return Err(e);
                            },
                        },
                        _ => {
                            return Err(invalid_type("issn-type"));
                        },
                    },
                    None => {
                        return Err(missing_field("issn-type"));
                    },
                };
                Ok(
                    Journal {
                        last_status_check_time: Some(ts),
                        counts,
                        breakdowns,
                        publisher,
                        coverage,
                        title,
                        subjects,
                        coverage_type,
                        flags,
                        issn,
                        issn_type,
                    },
                )
            },
            _ => Err(invalid_message("expected a JSON object")),
        }
    }
}

/// The list envelope of a `/journals` response.
#[derive(Debug, Clone)]
pub struct JournalList {
    /// The number of items that match the query.
    pub total_results: usize,
    /// The number of items to expect per page.
    pub items_per_page: Option<usize>,
    /// The echoed query, when the request carried one.
    pub query: Option<QueryResponse>,
    /// The facet map; the `/journals` envelope carries none, so it is
    /// always empty.
    pub facets: FacetMap,
    /// The journals of this page.
    pub items: Vec<Journal>,
}

/// Whether a JSON value decodes to a `JournalList`.
pub open spec fn journal_list_ok(v: Json) -> bool {
    &&& v matches Json::Object(m)
    &&& opt_usize_spec(m@, "total-results"@) is Some
    &&& (lookup_spec(m@, "items"@) matches Some(j) && j matches Json::Array(a) && (forall|i: int|
        0 <= i < a@.len() ==> journal_ok(#[trigger] a@[i])))
}

/// Whether `x` is the list decoded from `v`.
pub open spec fn journal_list_matches(v: Json, x: JournalList) -> bool {
    match v {
        Json::Object(m) => {
            &&& opt_usize_spec(m@, "total-results"@) == Some(x.total_results as int)
            &&& (match opt_usize_spec(m@, "items-per-page"@) {
                Some(n) => x.items_per_page matches Some(p) && p as int == n,
                None => x.items_per_page is None,
            })
            &&& (match lookup_spec(m@, "query"@) {
                Some(j) => if query_response_ok(j) {
                    x.query matches Some(q) && query_response_matches(j, q)
                } else {
                    x.query is None
                },
                None => x.query is None,
            })
            &&& x.facets@.len() == 0
            &&& (lookup_spec(m@, "items"@) matches Some(j) && j matches Json::Array(a) && a@.len()
                == x.items@.len() && (forall|i: int|
                0 <= i < a@.len() ==> journal_matches(#[trigger] a@[i], x.items@[i])))
        },
        _ => false,
    }
}

/// The named failure decoding `v` gives: the total first, then the
/// items.
pub open spec fn journal_list_err(v: Json, e: ErrorKind) -> bool {
    match v {
        Json::Object(m) => if !(opt_usize_spec(m@, "total-results"@) is Some) {
            if lookup_spec(m@, "total-results"@) is None {
                missing_field_err(e, "total-results"@)
            } else {
                type_err(e, "total-results"@)
            }
        } else if !(lookup_spec(m@, "items"@) matches Some(j) && j is Array) {
            if lookup_spec(m@, "items"@) is None {
                missing_field_err(e, "items"@)
            } else {
                type_err(e, "items"@)
            }
        } else {
            journal_err(
                lookup_spec(m@, "items"@)->Some_0->Array_0@[first_not(
                    lookup_spec(m@, "items"@)->Some_0->Array_0@,
                    (|j: Json| journal_ok(j)),
                )],
                e,
            )
        },
        _ => message_type_err(e, "expected a JSON object"@),
    }
}

/// Decodes the required `items` array of a journal list; an element that
/// fails to decode fails the whole list with the first such element's
/// error.
fn journal_items_of(a: &Vec<Json>) -> (r: Result<Vec<Journal>, ErrorKind>)
    ensures
        r is Ok <==> (forall|i: int| 0 <= i < a@.len() ==> journal_ok(#[trigger] a@[i])),
        r matches Ok(l) ==> l@.len() == a@.len() && (forall|i: int|
            0 <= i < a@.len() ==> journal_matches(#[trigger] a@[i], l@[i])),
        r matches Err(e) ==> !(forall|i: int| 0 <= i < a@.len() ==> journal_ok(#[trigger] a@[i]))
            && journal_err(a@[first_not(a@, (|j: Json| journal_ok(j)))], e),
{
    let mut out: Vec<Journal> = Vec::new();
    let mut i: usize = 0;
    while i < a.len()
        invariant
            0 <= i <= a.len(),
            out@.len() == i,
            forall|j: int| 0 <= j < i ==> journal_ok(#[trigger] a@[j]),
            forall|j: int| 0 <= j < i ==> journal_matches(#[trigger] a@[j], out@[j]),
        decreases a.len() - i,
    {
        match Journal::try_from(&a[i]) {
            Ok(x) => {
                out.push(x);
            },
            Err(e) => {
                proof {
                    lemma_first_not(a@, (|j: Json| journal_ok(j)), i as int);
                }
                return Err(e);
            },
        }
        i = i + 1;
    }
    Ok(out)
}

impl JournalList {
    /// Decodes a journal-list envelope: `total-results` and `items` are
    /// required; the envelope carries no facets.
    pub fn try_from(v: &Json) -> (r: Result<Self, ErrorKind>)
        ensures
            r is Ok <==> journal_list_ok(*v),
            r matches Ok(x) ==> journal_list_matches(*v, x),
            r matches Err(e) ==> journal_list_err(*v, e),
    {
        match v {
            Json::Object(m) => {
                let total_results = match req_usize(m, "total-results") {
                    Ok(n) => n,
                    Err(e) => {
                        return Err(e);
                    },
                };
                let items_per_page = opt_usize(m, "items-per-page");
                let query = match lookup(m, "query") {
                    Some(j) => match QueryResponse::try_from(j) {
                        Ok(q) => Some(q),
                        Err(_) => None,
                    },
                    None => None,
                };
                let items = match lookup(m, "items") {
                    Some(j) => match j {
                        Json::Array(a) => match journal_items_of(a) {
                            Ok(l) => l,
                            Err(e) => {
                                return Err(e);
                            },
                        },
                        _ => {
                            return Err(invalid_type("items"));
                        },
                    },
                    None => {
                        return Err(missing_field("items"));
                    },
                };
                Ok(JournalList { total_results, items_per_page, query, facets: Vec::new(), items })
            },
            _ => Err(invalid_message("expected a JSON object")),
        }
    }
}

} // verus!
