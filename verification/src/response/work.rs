//! The `Work` record and its satellite entities, decoded from the
//! loosely-typed JSON the `/works` routes answer with.
//!
//! Required fields gate correctness: a missing or wrongly typed one fails
//! the record with a named error.  Optional fields absorb anything
//! malformed — including a malformed element inside an optional list,
//! which the decoder turns into an absent field rather than aborting —
//! because the upstream data set is heterogeneous by publisher.

use vstd::prelude::*;
use vstd::string::*;
use crate::dates::{CalendarDate, date_str, push_date};
use crate::error::{
    ErrorKind, invalid_message, invalid_type, message_type_err, missing_field, missing_field_err,
    type_err,
};
use crate::json::{
    Json, json_as_u64, json_eq, json_is_number, lookup, lookup_spec, opt_bool, opt_bool_spec,
    opt_i32, opt_i32_spec, opt_number, opt_obj_members, opt_str, opt_str_list,
    opt_str_list_spec, opt_str_spec, opt_usize_spec, pairs_eq, req_str, req_str_list,
    req_str_list_m, req_str_m, req_usize_m,
};
use crate::json::{first_not, lemma_first_not, req_bool_m, req_i32_m, req_usize, opt_usize};
use crate::query::opt_str_view;
use crate::response::{FacetMap, QueryResponse, facet_item_err, facet_map_first_bad, facet_map_matches, facet_map_of, facet_map_ok, query_response_matches, query_response_ok};
use crate::strutil::{dec_str_signed, join_sep, join_strings, push_char, push_i64};

verus! {

/// The view of an optional string list.
pub open spec fn opt_strings_view(v: Option<Vec<String>>) -> Option<Seq<Seq<char>>> {
    match v {
        Some(l) => Some(l.deep_view()),
        None => None,
    }
}

/// The view of an optional 32-bit count.
pub open spec fn opt_i32_view(v: Option<i32>) -> Option<int> {
    match v {
        Some(n) => Some(n as int),
        None => None,
    }
}

/// A date as the wire encodes it: a ragged list of up-to-three-element
/// numeric tuples — year, optional month, optional day — each component
/// possibly absent.
#[derive(Debug, Clone, PartialEq, Eq)]
pub struct DateParts(pub Vec<Vec<Option<u32>>>);

/// The date one raw tuple completes to: defined when the tuple has one to
/// three elements and its year is present; a missing or absent month or
/// day is completed with the `0` sentinel.
pub open spec fn tuple_date(t: Seq<Option<u32>>) -> Option<CalendarDate> {
    if 1 <= t.len() <= 3 && t[0] is Some {
        Some(
            CalendarDate {
                year: t[0]->0,
                month: if t.len() >= 2 {
                    match t[1] {
                        Some(m) => m,
                        None => 0,
                    }
                } else {
                    0
                },
                day: if t.len() >= 3 {
                    match t[2] {
                        Some(d) => d,
                        None => 0,
                    }
                } else {
                    0
                },
            },
        )
    } else {
        None
    }
}

/// Completes one raw tuple, as `tuple_date` describes.
fn tuple_of(v: &Vec<Option<u32>>) -> (r: Option<CalendarDate>)
    ensures
        r == tuple_date(v.deep_view()),
{
    proof {
        assert(v.deep_view().len() == v@.len());
        assert(forall|i: int| 0 <= i < v@.len() ==> v.deep_view()[i] == v@[i]);
    }
    if v.len() < 1 || v.len() > 3 {
        return None;
    }
    let year = match v[0] {
        Some(y) => y,
        None => {
            return None;
        },
    };
    let month = if v.len() >= 2 {
        match v[1] {
            Some(m) => m,
            None => 0,
        }
    } else {
        0
    };
    let day = if v.len() >= 3 {
        match v[2] {
            Some(d) => d,
            None => 0,
        }
    } else {
        0
    };
    Some(CalendarDate { year, month, day })
}

/// Whether some raw tuple fails to complete to a date.
pub open spec fn parts_bad(dp: Seq<Seq<Option<u32>>>) -> bool {
    exists|i: int| 0 <= i < dp.len() && tuple_date(#[trigger] dp[i]) is None
}

/// Whether `ds` holds the completed dates of all raw tuples, in order.
pub open spec fn multi_matches(dp: Seq<Seq<Option<u32>>>, ds: Seq<CalendarDate>) -> bool {
    &&& ds.len() == dp.len()
    &&& forall|i: int| 0 <= i < ds.len() ==> tuple_date(dp[i]) == Some(#[trigger] ds[i])
}

/// The semantic reading of a raw date: one completed tuple is a single
/// date, two are a range, more are a list.
#[derive(Debug, Clone, PartialEq, Eq)]
pub enum DateField {
    /// A single date.
    Single(CalendarDate),
    /// Two dates forming a range.
    Range {
        /// The start of the range.
        from: CalendarDate,
        /// The end of the range.
        to: CalendarDate,
    },
    /// More than two dates.
    Multi(Vec<CalendarDate>),
}

impl DateParts {
    /// Interprets the raw tuples by their count: none yields nothing,
    /// exactly one a `Single`, exactly two a `Range`, more a `Multi`
    /// whose order is the input order.  A tuple that does not complete to
    /// a date (no year, or a bad arity) makes the whole reading yield
    /// nothing.
    pub fn as_date(&self) -> (r: Option<DateField>)
        ensures
            r is None <==> (self.0.deep_view().len() == 0 || parts_bad(self.0.deep_view())),
            r matches Some(DateField::Single(d)) ==> self.0.deep_view().len() == 1 && tuple_date(
                self.0.deep_view()[0],
            ) == Some(d),
            self.0.deep_view().len() == 1 && tuple_date(self.0.deep_view()[0]) is Some ==> r
                == Some(DateField::Single(tuple_date(self.0.deep_view()[0])->Some_0)),
            r matches Some(DateField::Range { from, to }) ==> self.0.deep_view().len() == 2
                && tuple_date(self.0.deep_view()[0]) == Some(from) && tuple_date(
                self.0.deep_view()[1],
            ) == Some(to),
            self.0.deep_view().len() == 2 && tuple_date(self.0.deep_view()[0]) is Some
                && tuple_date(self.0.deep_view()[1]) is Some ==> r == Some(
                DateField::Range {
                    from: tuple_date(self.0.deep_view()[0])->Some_0,
                    to: tuple_date(self.0.deep_view()[1])->Some_0,
                },
            ),
            r matches Some(DateField::Multi(ds)) ==> self.0.deep_view().len() > 2 && multi_matches(
                self.0.deep_view(),
                ds@,
            ),
    {
        let ghost dp = self.0.deep_view();
        proof {
            assert(dp.len() == self.0@.len());
            assert(forall|i: int| 0 <= i < dp.len() ==> dp[i] == self.0@[i].deep_view());
        }
        let n = self.0.len();
        if n == 0 {
            return None;
        }
        if n == 1 {
            match tuple_of(&self.0[0]) {
                Some(d) => {
                    proof {
                        assert forall|i: int|
                            0 <= i < dp.len() implies tuple_date(#[trigger] dp[i]) is Some by {
                            assert(i == 0);
                        }
                        assert(!parts_bad(dp));
                    }
                    Some(DateField::Single(d))
                },
                None => {
                    proof {
                        assert(tuple_date(dp[0]) is None);
                        assert(parts_bad(dp));
                    }
                    None
                },
            }
        } else if n == 2 {
            let from = match tuple_of(&self.0[0]) {
                Some(d) => d,
                None => {
                    proof {
                        assert(tuple_date(dp[0]) is None);
                        assert(parts_bad(dp));
                    }
                    return None;
                },
            };
            let to = match tuple_of(&self.0[1]) {
                Some(d) => d,
                None => {
                    proof {
                        assert(tuple_date(dp[1]) is None);
                        assert(parts_bad(dp));
                    }
                    return None;
                },
            };
            proof {
                assert forall|i: int| 0 <= i < dp.len() implies tuple_date(
                    #[trigger] dp[i],
                ) is Some by {
                    assert(i == 0 || i == 1);
                }
                assert(!parts_bad(dp));
            }
            Some(DateField::Range { from, to })
        } else {
            let mut ds: Vec<CalendarDate> = Vec::new();
            let mut i: usize = 0;
            while i < n
                invariant
                    0 <= i <= n,
                    n == self.0@.len(),
                    dp == self.0.deep_view(),
                    dp.len() == n,
                    forall|j: int| 0 <= j < dp.len() ==> dp[j] == self.0@[j].deep_view(),
                    ds@.len() == i,
                    forall|j: int|
                        0 <= j < i ==> tuple_date(dp[j]) == Some(#[trigger] ds@[j]),
                decreases n - i,
            {
                match tuple_of(&self.0[i]) {
                    Some(d) => {
                        ds.push(d);
                    },
                    None => {
                        proof {
                            assert(tuple_date(dp[i as int]) is None);
                            assert(parts_bad(dp));
                        }
                        return None;
                    },
                }
                i = i + 1;
            }
            proof {
                assert forall|j: int| 0 <= j < dp.len() implies tuple_date(
                    #[trigger] dp[j],
                ) is Some by {
                    assert(tuple_date(dp[j]) == Some(ds@[j]));
                }
                assert(!parts_bad(dp));
                assert(multi_matches(dp, ds@));
            }
            Some(DateField::Multi(ds))
        }
    }
}

impl DateField {
    /// The leading year of the reading: the single date's year, a
    /// range's start year, or the first year of a list, each cast to the
    /// signed range.
    pub fn year(&self) -> (r: i32)
        requires
            self matches DateField::Multi(ds) ==> ds@.len() > 0,
        ensures
            r == (match self {
                DateField::Single(d) => d.year as i32,
                DateField::Range { from, .. } => from.year as i32,
                DateField::Multi(ds) => ds@[0].year as i32,
            }),
    {
        match self {
            DateField::Single(d) => d.year as i32,
            DateField::Range { from, .. } => from.year as i32,
            DateField::Multi(ds) => ds[0].year as i32,
        }
    }
}

/// The completed date of one raw component value: a JSON integer that
/// fits `u32`; anything else is an absent component.
pub open spec fn component_of(j: Json) -> Option<u32> {
    match json_as_u64(j) {
        Some(n) => if n <= u32::MAX as int {
            Some(n as u32)
        } else {
            None
        },
        None => None,
    }
}

/// Whether every element of a `date-parts` array is itself an array.
pub open spec fn date_parts_ok(a: Seq<Json>) -> bool {
    forall|i: int| 0 <= i < a.len() ==> (#[trigger] a[i]) is Array
}

/// Whether `dp` holds the completed components of the raw tuples, in wire
/// order.
pub open spec fn date_parts_match(a: Seq<Json>, dp: Seq<Seq<Option<u32>>>) -> bool {
    &&& dp.len() == a.len()
    &&& forall|i: int|
        0 <= i < a.len() ==> ((#[trigger] a[i]) matches Json::Array(inner) && dp[i].len()
            == inner@.len() && (forall|j: int|
            0 <= j < inner@.len() ==> #[trigger] dp[i][j] == component_of(inner@[j])))
}

/// Reads one raw tuple's components.
fn components_of(inner: &Vec<Json>) -> (r: Vec<Option<u32>>)
    ensures
        r.deep_view().len() == inner@.len(),
        forall|j: int| 0 <= j < inner@.len() ==> r.deep_view()[j] == component_of(inner@[j]),
{
    let mut out: Vec<Option<u32>> = Vec::new();
    let mut i: usize = 0;
    while i < inner.len()
        invariant
            0 <= i <= inner.len(),
            out@.len() == i,
            forall|j: int| 0 <= j < i ==> out@[j] == component_of(inner@[j]),
        decreases inner.len() - i,
    {
        let c: Option<u32> = match &inner[i] {
            Json::Int(n) => {
                if *n >= 0 && *n <= u32::MAX as i64 {
                    Some(*n as u32)
                } else {
                    None
                }
            },
            Json::UInt(u) => {
                if *u <= u32::MAX as u64 {
                    Some(*u as u32)
                } else {
                    None
                }
            },
            _ => None,
        };
        out.push(c);
        i = i + 1;
    }
    proof {
        assert(out.deep_view().len() == out@.len());
        assert(forall|j: int| 0 <= j < out@.len() ==> out.deep_view()[j] == out@[j]);
    }
    out
}

/// Reads the required `date-parts` member: absent is a `MissingField`
/// failure; a non-array member, or an element that is not itself an
/// array, is an `InvalidTypeName` failure.
fn date_parts_of(m: &Vec<(String, Json)>) -> (r: Result<DateParts, ErrorKind>)
    ensures
        r is Ok <==> (lookup_spec(m@, "date-parts"@) matches Some(j) && j matches Json::Array(a)
            && date_parts_ok(a@)),
        r matches Ok(dp) ==> (lookup_spec(m@, "date-parts"@) matches Some(j) && j matches
            Json::Array(a) && date_parts_match(a@, dp.0.deep_view())),
        r matches Err(e) ==> if lookup_spec(m@, "date-parts"@) is None {
            missing_field_err(e, "date-parts"@)
        } else {
            type_err(e, "date-parts"@)
        },
{
    match lookup(m, "date-parts") {
        Some(j) => match j {
            Json::Array(a) => {
                let mut out: Vec<Vec<Option<u32>>> = Vec::new();
                let mut i: usize = 0;
                while i < a.len()
                    invariant
                        0 <= i <= a.len(),
                        lookup_spec(m@, "date-parts"@) == Some(Json::Array(*a)),
                        out@.len() == i,
                        forall|k: int| 0 <= k < i ==> (#[trigger] a@[k]) is Array,
                        forall|k: int|
                            0 <= k < i ==> ((#[trigger] a@[k]) matches Json::Array(inner)
                                && out.deep_view()[k].len() == inner@.len() && (forall|j2: int|
                                0 <= j2 < inner@.len() ==> #[trigger] out.deep_view()[k][j2]
                                    == component_of(inner@[j2]))),
                    decreases a.len() - i,
                {
                    match &a[i] {
                        Json::Array(inner) => {
                            let ghost before = out.deep_view();
                            let c = components_of(inner);
                            out.push(c);
                            proof {
                                assert(out.deep_view() =~= before.push(
                                    out@[out@.len() - 1].deep_view(),
                                ));
                            }
                        },
                        _ => {
                            proof {
                                assert(!((a@[i as int]) is Array));
                                assert(!date_parts_ok(a@));
                            }
                            return Err(invalid_type("date-parts"));
                        },
                    }
                    i = i + 1;
                }
                proof {
                    assert(out.deep_view().len() == out@.len());
                }
                Ok(DateParts(out))
            },
            _ => Err(invalid_type("date-parts")),
        },
        None => Err(missing_field("date-parts")),
    }
}

/// Full date information for an item: the raw tuples, the Unix-epoch
/// timestamp, and the ISO-8601 text.  The three encodings are kept
/// verbatim as decoded and never reconciled, so they may disagree.
#[derive(Debug, Clone, PartialEq, Eq)]
pub struct Date {
    /// The raw year/month/day tuples.
    pub date_parts: DateParts,
    /// Seconds since the Unix epoch, as the wire gave it.
    pub timestamp: usize,
    /// The ISO-8601 date-time text, as the wire gave it.
    pub date_time: String,
}

/// Whether a JSON value decodes to a full `Date`.
pub open spec fn date_ok(v: Json) -> bool {
    &&& v matches Json::Object(m)
    &&& (lookup_spec(m@, "date-parts"@) matches Some(j) && j matches Json::Array(a)
        && date_parts_ok(a@))
    &&& opt_usize_spec(m@, "timestamp"@) is Some
    &&& opt_str_spec(m@, "date-time"@) is Some
}

/// Whether `d` is the date decoded from `v`.
pub open spec fn date_matches(v: Json, d: Date) -> bool {
    match v {
        Json::Object(m) => {
            &&& (lookup_spec(m@, "date-parts"@) matches Some(j) && j matches Json::Array(a)
                && date_parts_match(a@, d.date_parts.0.deep_view()))
            &&& opt_usize_spec(m@, "timestamp"@) == Some(d.timestamp as int)
            &&& opt_str_spec(m@, "date-time"@) == Some(d.date_time@)
        },
        _ => false,
    }
}

/// The named failure decoding `v` gives: `date-parts` is checked first,
/// then `timestamp`, then `date-time`; the latter two report any failure
/// as `MissingField`.
pub open spec fn date_err(v: Json, e: ErrorKind) -> bool {
    match v {
        Json::Object(m) => if !(lookup_spec(m@, "date-parts"@) matches Some(j) && j matches
            Json::Array(a) && date_parts_ok(a@)) {
            if lookup_spec(m@, "date-parts"@) is None {
                missing_field_err(e, "date-parts"@)
            } else {
                type_err(e, "date-parts"@)
            }
        } else if !(opt_usize_spec(m@, "timestamp"@) is Some) {
            missing_field_err(e, "timestamp"@)
        } else {
            missing_field_err(e, "date-time"@)
        },
        _ => message_type_err(e, "expected a JSON object"@),
    }
}

impl Date {
    /// Decodes a full date: `date-parts`, `timestamp` and `date-time`
    /// are all required.
    pub fn try_from(v: &Json) -> (r: Result<Self, ErrorKind>)
        ensures
            r is Ok <==> date_ok(*v),
            r matches Ok(d) ==> date_matches(*v, d),
            r matches Err(e) ==> date_err(*v, e),
    {
        match v {
            Json::Object(m) => {
                let date_parts = match date_parts_of(m) {
                    Ok(dp) => dp,
                    Err(e) => {
                        return Err(e);
                    },
                };
                let timestamp = match req_usize_m(m, "timestamp") {
                    Ok(t) => t,
                    Err(e) => {
                        return Err(e);
                    },
                };
                let date_time = match req_str_m(m, "date-time") {
                    Ok(t) => t,
                    Err(e) => {
                        return Err(e);
                    },
                };
                Ok(Date { date_parts, timestamp, date_time })
            },
            _ => Err(invalid_message("expected a JSON object")),
        }
    }

    /// Interprets the raw tuples, as `DateParts::as_date` describes.
    pub fn as_date_field(&self) -> (r: Option<DateField>)
        ensures
            r is None <==> (self.date_parts.0.deep_view().len() == 0 || parts_bad(
                self.date_parts.0.deep_view(),
            )),
            self.date_parts.0.deep_view().len() == 1 && tuple_date(
                self.date_parts.0.deep_view()[0],
            ) is Some ==> r == Some(
                DateField::Single(tuple_date(self.date_parts.0.deep_view()[0])->Some_0),
            ),
            r matches Some(DateField::Range { from, to }) ==> self.date_parts.0.deep_view().len()
                == 2 && tuple_date(self.date_parts.0.deep_view()[0]) == Some(from) && tuple_date(
                self.date_parts.0.deep_view()[1],
            ) == Some(to),
            r matches Some(DateField::Multi(ds)) ==> multi_matches(
                self.date_parts.0.deep_view(),
                ds@,
            ),
    {
        self.date_parts.as_date()
    }

    /// Renders the interpreted date for display: a single date as
    /// `YYYY-MM-DD`, a range as the two dates joined by `-`, a list as
    /// the dates joined by `,`, and an uninterpretable date as the empty
    /// string.  This is a display projection only, never a comparison
    /// key.
    pub fn to_string(&self) -> (r: String)
        ensures
            r@ == date_render(self.date_parts.0.deep_view()),
    {
        let ghost dp = self.date_parts.0.deep_view();
        match self.date_parts.as_date() {
            Some(DateField::Single(d)) => {
                let mut s = String::new();
                push_date(&mut s, &d);
                s
            },
            Some(DateField::Range { from, to }) => {
                let mut s = String::new();
                push_date(&mut s, &from);
                push_char(&mut s, '-');
                push_date(&mut s, &to);
                proof {
                    assert(date_str(from) + seq!['-'] + date_str(to) =~= date_render(dp));
                }
                s
            },
            Some(DateField::Multi(ds)) => {
                let mut parts: Vec<String> = Vec::new();
                let mut i: usize = 0;
                while i < ds.len()
                    invariant
                        0 <= i <= ds.len(),
                        parts@.len() == i,
                        forall|j: int|
                            0 <= j < i ==> (#[trigger] parts@[j])@ == date_str(ds@[j]),
                    decreases ds.len() - i,
                {
                    let mut s = String::new();
                    push_date(&mut s, &ds[i]);
                    parts.push(s);
                    i = i + 1;
                }
                let joined = join_strings(&parts, ",");
                proof {
                    assert(parts@.map_values(|p: String| p@) =~= ds@.map_values(
                        |d: CalendarDate| date_str(d),
                    ));
                    assert(ds@.map_values(|d: CalendarDate| date_str(d)) =~= dp.map_values(
                        |t: Seq<Option<u32>>| date_str(tuple_date(t)->Some_0),
                    ));
                }
                joined
            },
            None => String::new(),
        }
    }
}

/// The display rendering of a raw date, as `Date::to_string` emits it.
pub open spec fn date_render(dp: Seq<Seq<Option<u32>>>) -> Seq<char> {
    if dp.len() == 0 || parts_bad(dp) {
        Seq::empty()
    } else if dp.len() == 1 {
        date_str(tuple_date(dp[0])->Some_0)
    } else if dp.len() == 2 {
        date_str(tuple_date(dp[0])->Some_0) + seq!['-'] + date_str(tuple_date(dp[1])->Some_0)
    } else {
        join_sep(dp.map_values(|t: Seq<Option<u32>>| date_str(tuple_date(t)->Some_0)), ","@)
    }
}

/// An incomplete date: only the raw tuples, without timestamp or
/// ISO-8601 text.
#[derive(Debug, Clone, PartialEq, Eq)]
pub struct PartialDate {
    /// The raw year/month/day tuples.
    pub date_parts: DateParts,
}

/// Whether a JSON value decodes to a `PartialDate`.
pub open spec fn partial_date_ok(v: Json) -> bool {
    &&& v matches Json::Object(m)
    &&& (lookup_spec(m@, "date-parts"@) matches Some(j) && j matches Json::Array(a)
        && date_parts_ok(a@))
}

/// Whether `d` is the partial date decoded from `v`.
pub open spec fn partial_date_matches(v: Json, d: PartialDate) -> bool {
    match v {
        Json::Object(m) => lookup_spec(m@, "date-parts"@) matches Some(j) && j matches Json::Array(
            a,
        ) && date_parts_match(a@, d.date_parts.0.deep_view()),
        _ => false,
    }
}

/// The named failure decoding `v` gives.
pub open spec fn partial_date_err(v: Json, e: ErrorKind) -> bool {
    match v {
        Json::Object(m) => if lookup_spec(m@, "date-parts"@) is None {
            missing_field_err(e, "date-parts"@)
        } else {
            type_err(e, "date-parts"@)
        },
        _ => message_type_err(e, "expected a JSON object"@),
    }
}

impl PartialDate {
    /// Decodes a partial date: `date-parts` is required.
    pub fn try_from(v: &Json) -> (r: Result<Self, ErrorKind>)
        ensures
            r is Ok <==> partial_date_ok(*v),
            r matches Ok(d) ==> partial_date_matches(*v, d),
            r matches Err(e) ==> partial_date_err(*v, e),
    {
        match v {
            Json::Object(m) => {
                let date_parts = match date_parts_of(m) {
                    Ok(dp) => dp,
                    Err(e) => {
                        return Err(e);
                    },
                };
                Ok(PartialDate { date_parts })
            },
            _ => Err(invalid_message("expected a JSON object")),
        }
    }

    /// Interprets the raw tuples, as `DateParts::as_date` describes.
    pub fn as_date_field(&self) -> (r: Option<DateField>)
        ensures
            r is None <==> (self.date_parts.0.deep_view().len() == 0 || parts_bad(
                self.date_parts.0.deep_view(),
            )),
            self.date_parts.0.deep_view().len() == 1 && tuple_date(
                self.date_parts.0.deep_view()[0],
            ) is Some ==> r == Some(
                DateField::Single(tuple_date(self.date_parts.0.deep_view()[0])->Some_0),
            ),
            r matches Some(DateField::Range { from, to }) ==> self.date_parts.0.deep_view().len()
                == 2 && tuple_date(self.date_parts.0.deep_view()[0]) == Some(from) && tuple_date(
                self.date_parts.0.deep_view()[1],
            ) == Some(to),
            r matches Some(DateField::Multi(ds)) ==> multi_matches(
                self.date_parts.0.deep_view(),
                ds@,
            ),
    {
        self.date_parts.as_date()
    }
}

/// An optional full-date field: present and well formed decodes to the
/// date, anything else to absent.
pub open spec fn opt_date_field(m: Seq<(String, Json)>, k: Seq<char>, f: Option<Date>) -> bool {
    match lookup_spec(m, k) {
        Some(j) => if date_ok(j) {
            f matches Some(d) && date_matches(j, d)
        } else {
            f is None
        },
        None => f is None,
    }
}

/// Reads an optional full-date field, as `opt_date_field` describes.
pub fn opt_date(m: &Vec<(String, Json)>, k: &str) -> (r: Option<Date>)
    ensures
        opt_date_field(m@, k@, r),
{
    match lookup(m, k) {
        Some(j) => match Date::try_from(j) {
            Ok(d) => Some(d),
            Err(_) => None,
        },
        None => None,
    }
}

/// An optional partial-date field: present and well formed decodes to
/// the date, anything else to absent.
pub open spec fn opt_partial_date_field(
    m: Seq<(String, Json)>,
    k: Seq<char>,
    f: Option<PartialDate>,
) -> bool {
    match lookup_spec(m, k) {
        Some(j) => if partial_date_ok(j) {
            f matches Some(d) && partial_date_matches(j, d)
        } else {
            f is None
        },
        None => f is None,
    }
}

/// Reads an optional partial-date field, as `opt_partial_date_field`
/// describes.
pub fn opt_partial_date(m: &Vec<(String, Json)>, k: &str) -> (r: Option<PartialDate>)
    ensures
        opt_partial_date_field(m@, k@, r),
{
    match lookup(m, k) {
        Some(j) => match PartialDate::try_from(j) {
            Ok(d) => Some(d),
            Err(_) => None,
        },
        None => None,
    }
}

/// An affiliation attached to a contributor.
#[derive(Debug, Clone, PartialEq, Eq)]
pub struct Affiliation {
    /// The affiliation's name.
    pub name: String,
}

/// Whether a JSON value decodes to an `Affiliation`.
pub open spec fn affiliation_ok(v: Json) -> bool {
    &&& v matches Json::Object(m)
    &&& opt_str_spec(m@, "name"@) is Some
}

/// Whether `x` is the record decoded from `v`.
pub open spec fn affiliation_matches(v: Json, x: Affiliation) -> bool {
    match v {
        Json::Object(m) => {
            &&& x.name@ == opt_str_spec(m@, "name"@)->Some_0
        },
        _ => false,
    }
}

/// The named failure decoding `v` gives, in check order.
pub open spec fn affiliation_err(v: Json, e: ErrorKind) -> bool {
    match v {
        Json::Object(m) => {
            if !(opt_str_spec(m@, "name"@) is Some) {
                if lookup_spec(m@, "name"@) is None {
            missing_field_err(e, "name"@)
        } else {
            type_err(e, "name"@)
        }
            } else {
                false
            }
        },
        _ => message_type_err(e, "expected a JSON object"@),
    }
}

impl Affiliation {
    /// Decodes an `Affiliation`, as the specification functions describe.
    pub fn try_from(v: &Json) -> (r: Result<Self, ErrorKind>)
        ensures
            r is Ok <==> affiliation_ok(*v),
            r matches Ok(x) ==> affiliation_matches(*v, x),
            r matches Err(e) ==> affiliation_err(*v, e),
    {
        match v {
            Json::Object(m) => {
                let name = match req_str(m, "name") {
                    Ok(s) => s,
                    Err(e) => {
                        return Err(e);
                    },
                };
                Ok(Affiliation { name })
            },
            _ => Err(invalid_message("expected a JSON object")),
        }
    }
}

/// The group an assertion belongs to.
#[derive(Debug, Clone, PartialEq, Eq)]
pub struct AssertionGroup {
    /// The group name.
    pub name: String,
    /// A display-friendly label.
    pub label: Option<String>,
}

/// Whether a JSON value decodes to an `AssertionGroup`.
pub open spec fn assertion_group_ok(v: Json) -> bool {
    &&& v matches Json::Object(m)
    &&& opt_str_spec(m@, "name"@) is Some
}

/// Whether `x` is the record decoded from `v`.
pub open spec fn assertion_group_matches(v: Json, x: AssertionGroup) -> bool {
    match v {
        Json::Object(m) => {
            &&& x.name@ == opt_str_spec(m@, "name"@)->Some_0
            &&& opt_str_view(x.label) == opt_str_spec(m@, "label"@)
        },
        _ => false,
    }
}

/// The named failure decoding `v` gives, in check order.
pub open spec fn assertion_group_err(v: Json, e: ErrorKind) -> bool {
    match v {
        Json::Object(m) => {
            if !(opt_str_spec(m@, "name"@) is Some) {
                missing_field_err(e, "name"@)
            } else {
                false
            }
        },
        _ => message_type_err(e, "expected a JSON object"@),
    }
}

impl AssertionGroup {
    /// Decodes an `AssertionGroup`, as the specification functions describe.
    pub fn try_from(v: &Json) -> (r: Result<Self, ErrorKind>)
        ensures
            r is Ok <==> assertion_group_ok(*v),
            r matches Ok(x) ==> assertion_group_matches(*v, x),
            r matches Err(e) ==> assertion_group_err(*v, e),
    {
        match v {
            Json::Object(m) => {
                let name = match req_str_m(m, "name") {
                    Ok(s) => s,
                    Err(e) => {
                        return Err(e);
                    },
                };
                let label = opt_str(m, "label");
                Ok(AssertionGroup { name, label })
            },
            _ => Err(invalid_message("expected a JSON object")),
        }
    }
}

/// ISSN information for a work, with its type annotation.
#[derive(Debug, Clone, PartialEq, Eq)]
pub struct ISSN {
    /// The ISSN identifier.
    pub value: String,
    /// One of `eissn`, `pissn` or `lissn`.
    pub type_: String,
}

/// Whether a JSON value decodes to an `ISSN`.
pub open spec fn issn_entry_ok(v: Json) -> bool {
    &&& v matches Json::Object(m)
    &&& opt_str_spec(m@, "value"@) is Some
    &&& opt_str_spec(m@, "type"@) is Some
}

/// Whether `x` is the record decoded from `v`.
pub open spec fn issn_entry_matches(v: Json, x: ISSN) -> bool {
    match v {
        Json::Object(m) => {
            &&& x.value@ == opt_str_spec(m@, "value"@)->Some_0
            &&& x.type_@ == opt_str_spec(m@, "type"@)->Some_0
        },
        _ => false,
    }
}

/// The named failure decoding `v` gives, in check order.
pub open spec fn issn_entry_err(v: Json, e: ErrorKind) -> bool {
    match v {
        Json::Object(m) => {
            if !(opt_str_spec(m@, "value"@) is Some) {
                missing_field_err(e, "value"@)
            } else if !(opt_str_spec(m@, "type"@) is Some) {
                missing_field_err(e, "type"@)
            } else {
                false
            }
        },
        _ => message_type_err(e, "expected a JSON object"@),
    }
}

impl ISSN {
    /// Decodes an `ISSN`, as the specification functions describe.
    pub fn try_from(v: &Json) -> (r: Result<Self, ErrorKind>)
        ensures
            r is Ok <==> issn_entry_ok(*v),
            r matches Ok(x) ==> issn_entry_matches(*v, x),
            r matches Err(e) ==> issn_entry_err(*v, e),
    {
        match v {
            Json::Object(m) => {
                let value = match req_str_m(m, "value") {
                    Ok(s) => s,
                    Err(e) => {
                        return Err(e);
                    },
                };
                let type_ = match req_str_m(m, "type") {
                    Ok(s) => s,
                    Err(e) => {
                        return Err(e);
                    },
                };
                Ok(ISSN { value, type_ })
            },
            _ => Err(invalid_message("expected a JSON object")),
        }
    }
}

/// Metadata of one relation to another work.
#[derive(Debug, Clone, PartialEq, Eq)]
pub struct Relation {
    /// The identifier type of the related object.
    pub id_type: Option<String>,
    /// The identifier of the related object.
    pub id: Option<String>,
    /// Who asserts the relation.
    pub asserted_by: Option<String>,
}

/// Whether a JSON value decodes to a `Relation`.
pub open spec fn relation_ok(v: Json) -> bool {
    v is Object
}

/// Whether `x` is the record decoded from `v`.
pub open spec fn relation_matches(v: Json, x: Relation) -> bool {
    match v {
        Json::Object(m) => {
            &&& opt_str_view(x.id_type) == opt_str_spec(m@, "id-type"@)
            &&& opt_str_view(x.id) == opt_str_spec(m@, "id"@)
            &&& opt_str_view(x.asserted_by) == opt_str_spec(m@, "asserted-by"@)
        },
        _ => false,
    }
}

/// The named failure decoding `v` gives, in check order.
pub open spec fn relation_err(v: Json, e: ErrorKind) -> bool {
    match v {
        Json::Object(_) => false,
        _ => message_type_err(e, "expected a JSON object"@),
    }
}

impl Relation {
    /// Decodes a `Relation`, as the specification functions describe.
    pub fn try_from(v: &Json) -> (r: Result<Self, ErrorKind>)
        ensures
            r is Ok <==> relation_ok(*v),
            r matches Ok(x) ==> relation_matches(*v, x),
            r matches Err(e) ==> relation_err(*v, e),
    {
        match v {
            Json::Object(m) => {
                let id_type = opt_str(m, "id-type");
                let id = opt_str(m, "id");
                let asserted_by = opt_str(m, "asserted-by");
                Ok(Relation { id_type, id, asserted_by })
            },
            _ => Err(invalid_message("expected a JSON object")),
        }
    }
}

/// One reference made by a work.
#[derive(Debug, Clone, PartialEq, Eq)]
pub struct Reference {
    /// The reference key.
    pub key: String,
    /// The DOI of the referenced work.
    pub doi: Option<String>,
    /// One of `crossref` or `publisher`.
    pub doi_asserted_by: Option<String>,
    /// The issue.
    pub issue: Option<String>,
    /// The first page.
    pub first_page: Option<String>,
    /// The volume.
    pub volume: Option<String>,
    /// The edition.
    pub edition: Option<String>,
    /// The component.
    pub component: Option<String>,
    /// The standard designator.
    pub standard_designator: Option<String>,
    /// The standards body.
    pub standards_body: Option<String>,
    /// The author text.
    pub author: Option<String>,
    /// The year text.
    pub year: Option<String>,
    /// The unstructured citation text.
    pub unstructured: Option<String>,
    /// The journal title.
    pub journal_title: Option<String>,
    /// The article title.
    pub article_title: Option<String>,
    /// The series title.
    pub series_title: Option<String>,
    /// The volume title.
    pub volume_title: Option<String>,
    /// The ISSN.
    pub issn: Option<String>,
    /// One of `pissn` or `eissn`.
    pub issn_type: Option<String>,
    /// The ISBN.
    pub isbn: Option<String>,
    /// The ISBN type.
    pub isbn_type: Option<String>,
}

/// Whether a JSON value decodes to a `Reference`.
pub open spec fn reference_ok(v: Json) -> bool {
    &&& v matches Json::Object(m)
    &&& opt_str_spec(m@, "key"@) is Some
}

/// Whether `x` is the record decoded from `v`.
pub open spec fn reference_matches(v: Json, x: Reference) -> bool {
    match v {
        Json::Object(m) => {
            &&& x.key@ == opt_str_spec(m@, "key"@)->Some_0
            &&& opt_str_view(x.doi) == opt_str_spec(m@, "DOI"@)
            &&& opt_str_view(x.doi_asserted_by) == opt_str_spec(m@, "doi-asserted-by"@)
            &&& opt_str_view(x.issue) == opt_str_spec(m@, "issue"@)
            &&& opt_str_view(x.first_page) == opt_str_spec(m@, "first-page"@)
            &&& opt_str_view(x.volume) == opt_str_spec(m@, "volume"@)
            &&& opt_str_view(x.edition) == opt_str_spec(m@, "edition"@)
            &&& opt_str_view(x.component) == opt_str_spec(m@, "component"@)
            &&& opt_str_view(x.standard_designator) == opt_str_spec(m@, "standard-designator"@)
            &&& opt_str_view(x.standards_body) == opt_str_spec(m@, "standards-body"@)
            &&& opt_str_view(x.author) == opt_str_spec(m@, "author"@)
            &&& opt_str_view(x.year) == opt_str_spec(m@, "year"@)
            &&& opt_str_view(x.unstructured) == opt_str_spec(m@, "unstructured"@)
            &&& opt_str_view(x.journal_title) == opt_str_spec(m@, "journal-title"@)
            &&& opt_str_view(x.article_title) == opt_str_spec(m@, "article-title"@)
            &&& opt_str_view(x.series_title) == opt_str_spec(m@, "series-title"@)
            &&& opt_str_view(x.volume_title) == opt_str_spec(m@, "volume-title"@)
            &&& opt_str_view(x.issn) == opt_str_spec(m@, "ISSN"@)
            &&& opt_str_view(x.issn_type) == opt_str_spec(m@, "issn-type"@)
            &&& opt_str_view(x.isbn) == opt_str_spec(m@, "ISBN"@)
            &&& opt_str_view(x.isbn_type) == opt_str_spec(m@, "isbn-type"@)
        },
        _ => false,
    }
}

/// The named failure decoding `v` gives, in check order.
pub open spec fn reference_err(v: Json, e: ErrorKind) -> bool {
    match v {
        Json::Object(m) => {
            if !(opt_str_spec(m@, "key"@) is Some) {
                missing_field_err(e, "key"@)
            } else {
                false
            }
        },
        _ => message_type_err(e, "expected a JSON object"@),
    }
}

impl Reference {
    /// Decodes a `Reference`, as the specification functions describe.
    pub fn try_from(v: &Json) -> (r: Result<Self, ErrorKind>)
        ensures
            r is Ok <==> reference_ok(*v),
            r matches Ok(x) ==> reference_matches(*v, x),
            r matches Err(e) ==> reference_err(*v, e),
    {
        match v {
            Json::Object(m) => {
                let key = match req_str_m(m, "key") {
                    Ok(s) => s,
                    Err(e) => {
                        return Err(e);
                    },
                };
                let doi = opt_str(m, "DOI");
                let doi_asserted_by = opt_str(m, "doi-asserted-by");
                let issue = opt_str(m, "issue");
                let first_page = opt_str(m, "first-page");
                let volume = opt_str(m, "volume");
                let edition = opt_str(m, "edition");
                let component = opt_str(m, "component");
                let standard_designator = opt_str(m, "standard-designator");
                let standards_body = opt_str(m, "standards-body");
                let author = opt_str(m, "author");
                let year = opt_str(m, "year");
                let unstructured = opt_str(m, "unstructured");
                let journal_title = opt_str(m, "journal-title");
                let article_title = opt_str(m, "article-title");
                let series_title = opt_str(m, "series-title");
                let volume_title = opt_str(m, "volume-title");
                let issn = opt_str(m, "ISSN");
                let issn_type = opt_str(m, "issn-type");
                let isbn = opt_str(m, "ISBN");
                let isbn_type = opt_str(m, "isbn-type");
                Ok(Reference { key, doi, doi_asserted_by, issue, first_page, volume, edition, component, standard_designator, standards_body, author, year, unstructured, journal_title, article_title, series_title, volume_title, issn, issn_type, isbn, isbn_type })
            },
            _ => Err(invalid_message("expected a JSON object")),
        }
    }
}

/// Metadata about a full-text location of a work.
#[derive(Debug, Clone, PartialEq, Eq)]
pub struct ResourceLink {
    /// Either `text-mining`, `similarity-checking` or `unspecified`.
    pub intended_application: String,
    /// Either `vor` (version of record), `am` (accepted manuscript) or `unspecified`.
    pub content_version: String,
    /// The direct link to a full-text download location.
    pub url: String,
    /// The content type (or MIME type) of the full-text object.
    pub content_type: Option<String>,
}

/// Whether a JSON value decodes to a `ResourceLink`.
pub open spec fn resource_link_ok(v: Json) -> bool {
    &&& v matches Json::Object(m)
    &&& opt_str_spec(m@, "intended-application"@) is Some
    &&& opt_str_spec(m@, "content-version"@) is Some
    &&& opt_str_spec(m@, "URL"@) is Some
}

/// Whether `x` is the record decoded from `v`.
pub open spec fn resource_link_matches(v: Json, x: ResourceLink) -> bool {
    match v {
        Json::Object(m) => {
            &&& x.intended_application@ == opt_str_spec(m@, "intended-application"@)->Some_0
            &&& x.content_version@ == opt_str_spec(m@, "content-version"@)->Some_0
            &&& x.url@ == opt_str_spec(m@, "URL"@)->Some_0
            &&& opt_str_view(x.content_type) == opt_str_spec(m@, "content-type"@)
        },
        _ => false,
    }
}

/// The named failure decoding `v` gives, in check order.
pub open spec fn resource_link_err(v: Json, e: ErrorKind) -> bool {
    match v {
        Json::Object(m) => {
            if !(opt_str_spec(m@, "intended-application"@) is Some) {
                missing_field_err(e, "intended-application"@)
            } else if !(opt_str_spec(m@, "content-version"@) is Some) {
                missing_field_err(e, "content-version"@)
            } else if !(opt_str_spec(m@, "URL"@) is Some) {
                missing_field_err(e, "URL"@)
            } else {
                false
            }
        },
        _ => message_type_err(e, "expected a JSON object"@),
    }
}

impl ResourceLink {
    /// Decodes a `ResourceLink`, as the specification functions describe.
    pub fn try_from(v: &Json) -> (r: Result<Self, ErrorKind>)
        ensures
            r is Ok <==> resource_link_ok(*v),
            r matches Ok(x) ==> resource_link_matches(*v, x),
            r matches Err(e) ==> resource_link_err(*v, e),
    {
        match v {
            Json::Object(m) => {
                let intended_application = match req_str_m(m, "intended-application") {
                    Ok(s) => s,
                    Err(e) => {
                        return Err(e);
                    },
                };
                let content_version = match req_str_m(m, "content-version") {
                    Ok(s) => s,
                    Err(e) => {
                        return Err(e);
                    },
                };
                let url = match req_str_m(m, "URL") {
                    Ok(s) => s,
                    Err(e) => {
                        return Err(e);
                    },
                };
                let content_type = opt_str(m, "content-type");
                Ok(ResourceLink { intended_application, content_version, url, content_type })
            },
            _ => Err(invalid_message("expected a JSON object")),
        }
    }
}

/// The clinical trial number attached to a work.
#[derive(Debug, Clone, PartialEq, Eq)]
pub struct ClinicalTrialNumber {
    /// The identifier of the clinical trial.
    pub clinical_trial_number: String,
    /// The DOI of the registry that assigned the trial number.
    pub registry: String,
    /// One of `preResults`, `results` or `postResults`.
    pub type_: Option<String>,
}

/// Whether a JSON value decodes to a `ClinicalTrialNumber`.
pub open spec fn ctn_ok(v: Json) -> bool {
    &&& v matches Json::Object(m)
    &&& opt_str_spec(m@, "clinical-trial-number"@) is Some
    &&& opt_str_spec(m@, "registry"@) is Some
}

/// Whether `x` is the record decoded from `v`.
pub open spec fn ctn_matches(v: Json, x: ClinicalTrialNumber) -> bool {
    match v {
        Json::Object(m) => {
            &&& x.clinical_trial_number@ == opt_str_spec(m@, "clinical-trial-number"@)->Some_0
            &&& x.registry@ == opt_str_spec(m@, "registry"@)->Some_0
            &&& opt_str_view(x.type_) == opt_str_spec(m@, "type"@)
        },
        _ => false,
    }
}

/// The named failure decoding `v` gives, in check order.
pub open spec fn ctn_err(v: Json, e: ErrorKind) -> bool {
    match v {
        Json::Object(m) => {
            if !(opt_str_spec(m@, "clinical-trial-number"@) is Some) {
                if lookup_spec(m@, "clinical-trial-number"@) is None {
            missing_field_err(e, "clinical-trial-number"@)
        } else {
            type_err(e, "clinical-trial-number"@)
        }
            } else if !(opt_str_spec(m@, "registry"@) is Some) {
                if lookup_spec(m@, "registry"@) is None {
            missing_field_err(e, "registry"@)
        } else {
            type_err(e, "registry"@)
        }
            } else {
                false
            }
        },
        _ => message_type_err(e, "expected a JSON object"@),
    }
}

impl ClinicalTrialNumber {
    /// Decodes a `ClinicalTrialNumber`, as the specification functions describe.
    pub fn try_from(v: &Json) -> (r: Result<Self, ErrorKind>)
        ensures
            r is Ok <==> ctn_ok(*v),
            r matches Ok(x) ==> ctn_matches(*v, x),
            r matches Err(e) ==> ctn_err(*v, e),
    {
        match v {
            Json::Object(m) => {
                let clinical_trial_number = match req_str(m, "clinical-trial-number") {
                    Ok(s) => s,
                    Err(e) => {
                        return Err(e);
                    },
                };
                let registry = match req_str(m, "registry") {
                    Ok(s) => s,
                    Err(e) => {
                        return Err(e);
                    },
                };
                let type_ = opt_str(m, "type");
                Ok(ClinicalTrialNumber { clinical_trial_number, registry, type_ })
            },
            _ => Err(invalid_message("expected a JSON object")),
        }
    }
}

/// A funder entry of a work.
#[derive(Debug, Clone, PartialEq, Eq)]
pub struct FundingBody {
    /// The funding body's primary name.
    pub name: String,
    /// The Open Funder Registry DOI identifying the funding body.
    pub doi: Option<String>,
    /// Award numbers for awards given by the funding body.
    pub award: Option<Vec<String>>,
    /// Either `crossref` or `publisher`.
    pub doi_asserted_by: Option<String>,
}

/// Whether a JSON value decodes to a `FundingBody`.
pub open spec fn funding_body_ok(v: Json) -> bool {
    &&& v matches Json::Object(m)
    &&& opt_str_spec(m@, "name"@) is Some
}

/// Whether `x` is the record decoded from `v`.
pub open spec fn funding_body_matches(v: Json, x: FundingBody) -> bool {
    match v {
        Json::Object(m) => {
            &&& x.name@ == opt_str_spec(m@, "name"@)->Some_0
            &&& opt_str_view(x.doi) == opt_str_spec(m@, "DOI"@)
            &&& opt_strings_view(x.award) == opt_str_list_spec(m@, "award"@)
            &&& opt_str_view(x.doi_asserted_by) == opt_str_spec(m@, "doi-asserted-by"@)
        },
        _ => false,
    }
}

/// The named failure decoding `v` gives, in check order.
pub open spec fn funding_body_err(v: Json, e: ErrorKind) -> bool {
    match v {
        Json::Object(m) => {
            if !(opt_str_spec(m@, "name"@) is Some) {
                if lookup_spec(m@, "name"@) is None {
            missing_field_err(e, "name"@)
        } else {
            type_err(e, "name"@)
        }
            } else {
                false
            }
        },
        _ => message_type_err(e, "expected a JSON object"@),
    }
}

impl FundingBody {
    /// Decodes a `FundingBody`, as the specification functions describe.
    pub fn try_from(v: &Json) -> (r: Result<Self, ErrorKind>)
        ensures
            r is Ok <==> funding_body_ok(*v),
            r matches Ok(x) ==> funding_body_matches(*v, x),
            r matches Err(e) ==> funding_body_err(*v, e),
    {
        match v {
            Json::Object(m) => {
                let name = match req_str(m, "name") {
                    Ok(s) => s,
                    Err(e) => {
                        return Err(e);
                    },
                };
                let doi = opt_str(m, "DOI");
                let award = opt_str_list(m, "award");
                let doi_asserted_by = opt_str(m, "doi-asserted-by");
                Ok(FundingBody { name, doi, award, doi_asserted_by })
            },
            _ => Err(invalid_message("expected a JSON object")),
        }
    }
}


/// A journal issue a work appeared in.
#[derive(Debug, Clone, PartialEq, Eq)]
pub struct Issue {
    /// The date the issue was published in print.
    pub published_print: Option<PartialDate>,
    /// The date the issue was published online.
    pub published_online: Option<PartialDate>,
    /// The issue number.
    pub issue: Option<String>,
}

/// Whether a JSON value decodes to an `Issue`: every field is optional.
pub open spec fn issue_ok(v: Json) -> bool {
    v is Object
}

/// Whether `x` is the record decoded from `v`.
pub open spec fn issue_matches(v: Json, x: Issue) -> bool {
    match v {
        Json::Object(m) => {
            &&& opt_partial_date_field(m@, "published-print"@, x.published_print)
            &&& opt_partial_date_field(m@, "published-online"@, x.published_online)
            &&& opt_str_view(x.issue) == opt_str_spec(m@, "issue"@)
        },
        _ => false,
    }
}

/// The named failure decoding `v` gives.
pub open spec fn issue_err(v: Json, e: ErrorKind) -> bool {
    match v {
        Json::Object(_) => false,
        _ => message_type_err(e, "expected a JSON object"@),
    }
}

impl Issue {
    /// Decodes an `Issue`: only the JSON shape itself can fail.
    pub fn try_from(v: &Json) -> (r: Result<Self, ErrorKind>)
        ensures
            r is Ok <==> issue_ok(*v),
            r matches Ok(x) ==> issue_matches(*v, x),
            r matches Err(e) ==> issue_err(*v, e),
    {
        match v {
            Json::Object(m) => {
                let published_print = opt_partial_date(m, "published-print");
                let published_online = opt_partial_date(m, "published-online");
                let issue = opt_str(m, "issue");
                Ok(Issue { published_print, published_online, issue })
            },
            _ => Err(invalid_message("expected a JSON object")),
        }
    }
}

/// The Crossmark content domains of a work.
#[derive(Debug, Clone, PartialEq, Eq)]
pub struct ContentDomain {
    /// The domain names where Crossmark content appears.
    pub domain: Vec<String>,
    /// Whether the publisher restricts Crossmark usage to these domains.
    pub crossmark_restriction: bool,
}

/// Whether a JSON value decodes to a `ContentDomain`.
pub open spec fn content_domain_ok(v: Json) -> bool {
    &&& v matches Json::Object(m)
    &&& opt_bool_spec(m@, "crossmark-restriction"@) is Some
    &&& opt_str_list_spec(m@, "domain"@) is Some
}

/// Whether `x` is the record decoded from `v`.
pub open spec fn content_domain_matches(v: Json, x: ContentDomain) -> bool {
    match v {
        Json::Object(m) => {
            &&& opt_str_list_spec(m@, "domain"@) == Some(x.domain.deep_view())
            &&& opt_bool_spec(m@, "crossmark-restriction"@) == Some(x.crossmark_restriction)
        },
        _ => false,
    }
}

/// The named failure decoding `v` gives: the restriction flag is checked
/// first, then the domain list.
pub open spec fn content_domain_err(v: Json, e: ErrorKind) -> bool {
    match v {
        Json::Object(m) => if !(opt_bool_spec(m@, "crossmark-restriction"@) is Some) {
            missing_field_err(e, "crossmark-restriction"@)
        } else {
            match lookup_spec(m@, "domain"@) {
                None => missing_field_err(e, "domain"@),
                Some(j) => if j is Array {
                    type_err(e, "domain"@)
                } else {
                    missing_field_err(e, "domain"@)
                },
            }
        },
        _ => message_type_err(e, "expected a JSON object"@),
    }
}

impl ContentDomain {
    /// Decodes a `ContentDomain`: both fields are required; a non-string
    /// element inside `domain` is an `InvalidTypeName` failure.
    pub fn try_from(v: &Json) -> (r: Result<Self, ErrorKind>)
        ensures
            r is Ok <==> content_domain_ok(*v),
            r matches Ok(x) ==> content_domain_matches(*v, x),
            r matches Err(e) ==> content_domain_err(*v, e),
    {
        match v {
            Json::Object(m) => {
                let crossmark_restriction = match req_bool_m(m, "crossmark-restriction") {
                    Ok(b) => b,
                    Err(e) => {
                        return Err(e);
                    },
                };
                let domain = match req_str_list_m(m, "domain") {
                    Ok(d) => d,
                    Err(e) => {
                        return Err(e);
                    },
                };
                Ok(ContentDomain { domain, crossmark_restriction })
            },
            _ => Err(invalid_message("expected a JSON object")),
        }
    }
}

/// An optional assertion-group field: present and well formed decodes to
/// the group, anything else to absent.
pub open spec fn opt_assertion_group_field(
    m: Seq<(String, Json)>,
    k: Seq<char>,
    f: Option<AssertionGroup>,
) -> bool {
    match lookup_spec(m, k) {
        Some(j) => if assertion_group_ok(j) {
            f matches Some(g) && assertion_group_matches(j, g)
        } else {
            f is None
        },
        None => f is None,
    }
}

/// Reads an optional assertion-group field, as
/// `opt_assertion_group_field` describes.
pub fn opt_assertion_group(m: &Vec<(String, Json)>, k: &str) -> (r: Option<AssertionGroup>)
    ensures
        opt_assertion_group_field(m@, k@, r),
{
    match lookup(m, k) {
        Some(j) => match AssertionGroup::try_from(j) {
            Ok(g) => Some(g),
            Err(_) => None,
        },
        None => None,
    }
}

/// A custom assertion a member deposited with a work.
#[derive(Debug, Clone, PartialEq, Eq)]
pub struct Assertion {
    /// The assertion name.
    pub name: String,
    /// The asserted value.
    pub value: Option<String>,
    /// A link explaining the assertion.
    pub url: Option<String>,
    /// An explanation of the assertion.
    pub explanation: Option<String>,
    /// A display-friendly label.
    pub label: Option<String>,
    /// The display order of the assertion.
    pub order: Option<i32>,
    /// The group the assertion belongs to.
    pub group: Option<AssertionGroup>,
}

/// Whether a JSON value decodes to an `Assertion`.
pub open spec fn assertion_ok(v: Json) -> bool {
    &&& v matches Json::Object(m)
    &&& opt_str_spec(m@, "name"@) is Some
}

/// Whether `x` is the record decoded from `v`.
pub open spec fn assertion_matches(v: Json, x: Assertion) -> bool {
    match v {
        Json::Object(m) => {
            &&& x.name@ == opt_str_spec(m@, "name"@)->Some_0
            &&& opt_str_view(x.value) == opt_str_spec(m@, "value"@)
            &&& opt_str_view(x.url) == opt_str_spec(m@, "URL"@)
            &&& opt_str_view(x.explanation) == opt_str_spec(m@, "explanation"@)
            &&& opt_str_view(x.label) == opt_str_spec(m@, "label"@)
            &&& opt_i32_view(x.order) == opt_i32_spec(m@, "order"@)
            &&& opt_assertion_group_field(m@, "group"@, x.group)
        },
        _ => false,
    }
}

/// The named failure decoding `v` gives.
pub open spec fn assertion_err(v: Json, e: ErrorKind) -> bool {
    match v {
        Json::Object(m) => if !(opt_str_spec(m@, "name"@) is Some) {
            missing_field_err(e, "name"@)
        } else {
            false
        },
        _ => message_type_err(e, "expected a JSON object"@),
    }
}

impl Assertion {
    /// Decodes an `Assertion`: only `name` is required.
    pub fn try_from(v: &Json) -> (r: Result<Self, ErrorKind>)
        ensures
            r is Ok <==> assertion_ok(*v),
            r matches Ok(x) ==> assertion_matches(*v, x),
            r matches Err(e) ==> assertion_err(*v, e),
    {
        match v {
            Json::Object(m) => {
                let name = match req_str_m(m, "name") {
                    Ok(s) => s,
                    Err(e) => {
                        return Err(e);
                    },
                };
                let value = opt_str(m, "value");
                let url = opt_str(m, "URL");
                let explanation = opt_str(m, "explanation");
                let label = opt_str(m, "label");
                let order = opt_i32(m, "order");
                let group = opt_assertion_group(m, "group");
                Ok(Assertion { name, value, url, explanation, label, order, group })
            },
            _ => Err(invalid_message("expected a JSON object")),
        }
    }
}

/// Metadata about an editorial update to a work.
#[derive(Debug, Clone, PartialEq, Eq)]
pub struct Update {
    /// The date the update was published.
    pub updated: PartialDate,
    /// The DOI of the updated work.
    pub doi: String,
    /// The type of update, for example retraction or correction.
    pub type_: String,
    /// A display-friendly label for the update type.
    pub label: Option<String>,
}

/// Whether a JSON value decodes to an `Update`.
pub open spec fn update_ok(v: Json) -> bool {
    &&& v matches Json::Object(m)
    &&& opt_str_spec(m@, "DOI"@) is Some
    &&& opt_str_spec(m@, "type"@) is Some
    &&& (lookup_spec(m@, "updated"@) matches Some(j) && partial_date_ok(j))
}

/// Whether `x` is the record decoded from `v`.
pub open spec fn update_matches(v: Json, x: Update) -> bool {
    match v {
        Json::Object(m) => {
            &&& (lookup_spec(m@, "updated"@) matches Some(j) && partial_date_matches(j, x.updated))
            &&& x.doi@ == opt_str_spec(m@, "DOI"@)->Some_0
            &&& x.type_@ == opt_str_spec(m@, "type"@)->Some_0
            &&& opt_str_view(x.label) == opt_str_spec(m@, "label"@)
        },
        _ => false,
    }
}

/// The named failure decoding `v` gives: `DOI` first, then `type`, then
/// the required `updated` date.
pub open spec fn update_err(v: Json, e: ErrorKind) -> bool {
    match v {
        Json::Object(m) => if !(opt_str_spec(m@, "DOI"@) is Some) {
            missing_field_err(e, "DOI"@)
        } else if !(opt_str_spec(m@, "type"@) is Some) {
            missing_field_err(e, "type"@)
        } else {
            match lookup_spec(m@, "updated"@) {
                None => missing_field_err(e, "updated"@),
                Some(j) => if !(j is Object) {
                    missing_field_err(e, "updated"@)
                } else {
                    partial_date_err(j, e)
                },
            }
        },
        _ => message_type_err(e, "expected a JSON object"@),
    }
}

impl Update {
    /// Decodes an `Update`: `DOI`, `type` and `updated` are required.
    pub fn try_from(v: &Json) -> (r: Result<Self, ErrorKind>)
        ensures
            r is Ok <==> update_ok(*v),
            r matches Ok(x) ==> update_matches(*v, x),
            r matches Err(e) ==> update_err(*v, e),
    {
        match v {
            Json::Object(m) => {
                let doi = match req_str_m(m, "DOI") {
                    Ok(s) => s,
                    Err(e) => {
                        return Err(e);
                    },
                };
                let type_ = match req_str_m(m, "type") {
                    Ok(s) => s,
                    Err(e) => {
                        return Err(e);
                    },
                };
                let updated = match lookup(m, "updated") {
                    Some(j) => {
                        if j.is_object() {
                            match PartialDate::try_from(j) {
                                Ok(d) => d,
                                Err(e) => {
                                    return Err(e);
                                },
                            }
                        } else {
                            return Err(missing_field("updated"));
                        }
                    },
                    None => {
                        return Err(missing_field("updated"));
                    },
                };
                let label = opt_str(m, "label");
                Ok(Update { updated, doi, type_, label })
            },
            _ => Err(invalid_message("expected a JSON object")),
        }
    }
}

/// How a work is licensed.
#[derive(Debug, Clone, PartialEq, Eq)]
pub struct License {
    /// Either `vor` (version of record), `am` (accepted manuscript) or
    /// `unspecified`.
    pub content_version: String,
    /// Days between the publication date and the start of this license.
    pub delay_in_days: i32,
    /// The date this license begins to take effect.
    pub start: PartialDate,
    /// A link to a web page describing this license.
    pub url: String,
}

/// Whether a JSON value decodes to a `License`.
pub open spec fn license_ok(v: Json) -> bool {
    &&& v matches Json::Object(m)
    &&& opt_str_spec(m@, "content-version"@) is Some
    &&& opt_i32_spec(m@, "delay-in-days"@) is Some
    &&& (lookup_spec(m@, "start"@) matches Some(j) && partial_date_ok(j))
    &&& opt_str_spec(m@, "URL"@) is Some
}

/// Whether `x` is the record decoded from `v`.
pub open spec fn license_matches(v: Json, x: License) -> bool {
    match v {
        Json::Object(m) => {
            &&& x.content_version@ == opt_str_spec(m@, "content-version"@)->Some_0
            &&& opt_i32_spec(m@, "delay-in-days"@) == Some(x.delay_in_days as int)
            &&& (lookup_spec(m@, "start"@) matches Some(j) && partial_date_matches(j, x.start))
            &&& x.url@ == opt_str_spec(m@, "URL"@)->Some_0
        },
        _ => false,
    }
}

/// The named failure decoding `v` gives, in check order: content
/// version, delay, start date, then URL.
pub open spec fn license_err(v: Json, e: ErrorKind) -> bool {
    match v {
        Json::Object(m) => if !(opt_str_spec(m@, "content-version"@) is Some) {
            missing_field_err(e, "content-version"@)
        } else if !(opt_i32_spec(m@, "delay-in-days"@) is Some) {
            missing_field_err(e, "delay-in-days"@)
        } else if !(lookup_spec(m@, "start"@) matches Some(j) && j is Object) {
            missing_field_err(e, "start"@)
        } else if !(lookup_spec(m@, "start"@) matches Some(j) && partial_date_ok(j)) {
            partial_date_err(lookup_spec(m@, "start"@)->Some_0, e)
        } else {
            missing_field_err(e, "URL"@)
        },
        _ => message_type_err(e, "expected a JSON object"@),
    }
}

impl License {
    /// Decodes a `License`: all four fields are required.
    pub fn try_from(v: &Json) -> (r: Result<Self, ErrorKind>)
        ensures
            r is Ok <==> license_ok(*v),
            r matches Ok(x) ==> license_matches(*v, x),
            r matches Err(e) ==> license_err(*v, e),
    {
        match v {
            Json::Object(m) => {
                let content_version = match req_str_m(m, "content-version") {
                    Ok(s) => s,
                    Err(e) => {
                        return Err(e);
                    },
                };
                let delay_in_days = match req_i32_m(m, "delay-in-days") {
                    Ok(n) => n,
                    Err(e) => {
                        return Err(e);
                    },
                };
                let start = match lookup(m, "start") {
                    Some(j) => {
                        if j.is_object() {
                            match PartialDate::try_from(j) {
                                Ok(d) => d,
                                Err(e) => {
                                    return Err(e);
                                },
                            }
                        } else {
                            return Err(missing_field("start"));
                        }
                    },
                    None => {
                        return Err(missing_field("start"));
                    },
                };
                let url = match req_str_m(m, "URL") {
                    Ok(s) => s,
                    Err(e) => {
                        return Err(e);
                    },
                };
                Ok(License { content_version, delay_in_days, start, url })
            },
            _ => Err(invalid_message("expected a JSON object")),
        }
    }
}

/// The registration agency of a DOI.
#[derive(Debug, Clone, PartialEq, Eq)]
pub struct Agency {
    /// The agency's identifier.
    pub id: String,
    /// A display-friendly label.
    pub label: Option<String>,
}

/// Peer-review metadata of a work.  The record is carried by responses
/// as plain fields; nothing is decoded into it here.
#[derive(Debug, Clone, PartialEq, Eq)]
pub struct Review {
    /// The running number of the review.
    pub running_number: Option<String>,
    /// The revision round.
    pub revision_round: Option<String>,
    /// One of `pre-publication` or `post-publication`.
    pub stage: Option<String>,
    /// One of `major-revision`, `minor-revision`, `reject`,
    /// `reject-with-resubmit` or `accept`.
    pub recommendation: Option<String>,
    /// One of `referee-report`, `editor-report`, `author-comment`,
    /// `community-comment` or `aggregate`.
    pub type_: String,
    /// The competing interest statement.
    pub competing_interest_statement: Option<String>,
    /// The language of the review.
    pub language: Option<String>,
}


/// Whether every element of an array decodes to an `Affiliation`.
pub open spec fn affiliation_list_ok(a: Seq<Json>) -> bool {
    forall|i: int| 0 <= i < a.len() ==> affiliation_ok(#[trigger] a[i])
}

/// Whether `l` holds the decoded affiliations, in wire order.
pub open spec fn affiliation_list_matches(a: Seq<Json>, l: Seq<Affiliation>) -> bool {
    &&& l.len() == a.len()
    &&& forall|i: int| 0 <= i < a.len() ==> affiliation_matches(#[trigger] a[i], l[i])
}

/// Decodes a required affiliation array; an element that fails to decode
/// fails the whole list with the first such element's error.
fn affiliation_list_of(a: &Vec<Json>) -> (r: Result<Vec<Affiliation>, ErrorKind>)
    ensures
        r is Ok <==> affiliation_list_ok(a@),
        r matches Ok(l) ==> affiliation_list_matches(a@, l@),
        r matches Err(e) ==> !affiliation_list_ok(a@) && affiliation_err(
            a@[first_not(a@, (|j: Json| affiliation_ok(j)))],
            e,
        ),
{
    let mut out: Vec<Affiliation> = Vec::new();
    let mut i: usize = 0;
    while i < a.len()
        invariant
            0 <= i <= a.len(),
            out@.len() == i,
            forall|j: int| 0 <= j < i ==> affiliation_ok(#[trigger] a@[j]),
            forall|j: int| 0 <= j < i ==> affiliation_matches(#[trigger] a@[j], out@[j]),
        decreases a.len() - i,
    {
        match Affiliation::try_from(&a[i]) {
            Ok(x) => {
                out.push(x);
            },
            Err(e) => {
                proof {
                    lemma_first_not(a@, (|j: Json| affiliation_ok(j)), i as int);
                }
                return Err(e);
            },
        }
        i = i + 1;
    }
    Ok(out)
}

/// A contributor to a work: an author, editor, chair or translator.
#[derive(Debug, Clone, PartialEq, Eq)]
pub struct Contributor {
    /// A name prefix.
    pub prefix: Option<String>,
    /// A name suffix.
    pub suffix: Option<String>,
    /// The family name.
    pub family: Option<String>,
    /// The given name.
    pub given: Option<String>,
    /// The full name, for organizations.
    pub name: Option<String>,
    /// The URL form of an ORCID identifier.
    pub orcid: Option<String>,
    /// Whether the record owner asserts the ORCID user completed ORCID
    /// authentication.
    pub authenticated_orcid: Option<bool>,
    /// The contributor's affiliations.
    pub affiliation: Vec<Affiliation>,
    /// The sequence marker, `first` or `additional`.
    pub sequence: String,
}

/// Whether a JSON value decodes to a `Contributor`.
pub open spec fn contributor_ok(v: Json) -> bool {
    &&& v matches Json::Object(m)
    &&& (lookup_spec(m@, "affiliation"@) matches Some(j) && j matches Json::Array(a)
        && affiliation_list_ok(a@))
    &&& opt_str_spec(m@, "sequence"@) is Some
}

/// Whether `x` is the record decoded from `v`.
pub open spec fn contributor_matches(v: Json, x: Contributor) -> bool {
    match v {
        Json::Object(m) => {
            &&& opt_str_view(x.prefix) == opt_str_spec(m@, "prefix"@)
            &&& opt_str_view(x.suffix) == opt_str_spec(m@, "suffix"@)
            &&& opt_str_view(x.family) == opt_str_spec(m@, "family"@)
            &&& opt_str_view(x.given) == opt_str_spec(m@, "given"@)
            &&& opt_str_view(x.name) == opt_str_spec(m@, "name"@)
            &&& opt_str_view(x.orcid) == opt_str_spec(m@, "ORCID"@)
            &&& x.authenticated_orcid == opt_bool_spec(m@, "authenticated-orcid"@)
            &&& (lookup_spec(m@, "affiliation"@) matches Some(j) && j matches Json::Array(a)
                && affiliation_list_matches(a@, x.affiliation@))
            &&& x.sequence@ == opt_str_spec(m@, "sequence"@)->Some_0
        },
        _ => false,
    }
}

/// The named failure decoding `v` gives: the affiliation list is checked
/// before the sequence marker.
pub open spec fn contributor_err(v: Json, e: ErrorKind) -> bool {
    match v {
        Json::Object(m) => if !(lookup_spec(m@, "affiliation"@) matches Some(j) && j is Array) {
            missing_field_err(e, "affiliation"@)
        } else if !(lookup_spec(m@, "affiliation"@) matches Some(j) && j matches Json::Array(a)
            && affiliation_list_ok(a@)) {
            affiliation_err(
                lookup_spec(m@, "affiliation"@)->Some_0->Array_0@[first_not(
                    lookup_spec(m@, "affiliation"@)->Some_0->Array_0@,
                    (|j: Json| affiliation_ok(j)),
                )],
                e,
            )
        } else {
            missing_field_err(e, "sequence"@)
        },
        _ => message_type_err(e, "expected a JSON object"@),
    }
}

impl Contributor {
    /// Decodes a `Contributor`: the affiliation list and the sequence
    /// marker are required; a malformed affiliation element fails the
    /// record with that element's error.
    pub fn try_from(v: &Json) -> (r: Result<Self, ErrorKind>)
        ensures
            r is Ok <==> contributor_ok(*v),
            r matches Ok(x) ==> contributor_matches(*v, x),
            r matches Err(e) ==> contributor_err(*v, e),
    {
        match v {
            Json::Object(m) => {
                let prefix = opt_str(m, "prefix");
                let suffix = opt_str(m, "suffix");
                let family = opt_str(m, "family");
                let given = opt_str(m, "given");
                let name = opt_str(m, "name");
                let orcid = opt_str(m, "ORCID");
                let authenticated_orcid = opt_bool(m, "authenticated-orcid");
                let affiliation = match lookup(m, "affiliation") {
                    Some(j) => match j {
                        Json::Array(a) => match affiliation_list_of(a) {
                            Ok(l) => l,
                            Err(e) => {
                                return Err(e);
                            },
                        },
                        _ => {
                            return Err(missing_field("affiliation"));
                        },
                    },
                    None => {
                        return Err(missing_field("affiliation"));
                    },
                };
                let sequence = match req_str_m(m, "sequence") {
                    Ok(s) => s,
                    Err(e) => {
                        return Err(e);
                    },
                };
                Ok(
                    Contributor {
                        prefix,
                        suffix,
                        family,
                        given,
                        name,
                        orcid,
                        authenticated_orcid,
                        affiliation,
                        sequence,
                    },
                )
            },
            _ => Err(invalid_message("expected a JSON object")),
        }
    }
}


/// Whether every element of an array decodes to the entity.
pub open spec fn contributor_list_ok(a: Seq<Json>) -> bool {
    forall|i: int| 0 <= i < a.len() ==> contributor_ok(#[trigger] a[i])
}

/// Whether `l` holds the decoded elements, in wire order.
pub open spec fn contributor_list_matches(a: Seq<Json>, l: Seq<Contributor>) -> bool {
    &&& l.len() == a.len()
    &&& forall|i: int| 0 <= i < a.len() ==> contributor_matches(#[trigger] a[i], l[i])
}

/// Decodes an array of the entity; any malformed element yields nothing.
fn contributor_list_of(a: &Vec<Json>) -> (r: Option<Vec<Contributor>>)
    ensures
        r is Some <==> contributor_list_ok(a@),
        r matches Some(l) ==> contributor_list_matches(a@, l@),
{
    let mut out: Vec<Contributor> = Vec::new();
    let mut i: usize = 0;
    while i < a.len()
        invariant
            0 <= i <= a.len(),
            out@.len() == i,
            forall|j: int| 0 <= j < i ==> contributor_ok(#[trigger] a@[j]),
            forall|j: int| 0 <= j < i ==> contributor_matches(#[trigger] a@[j], out@[j]),
        decreases a.len() - i,
    {
        match Contributor::try_from(&a[i]) {
            Ok(x) => {
                out.push(x);
            },
            Err(_) => {
                return None;
            },
        }
        i = i + 1;
    }
    Some(out)
}

/// An optional list field of the entity: present, an array, and with
/// every element well formed, it decodes to the list; anything else is
/// absent.
pub open spec fn opt_contributor_list_field(m: Seq<(String, Json)>, k: Seq<char>, f: Option<Vec<Contributor>>) -> bool {
    match lookup_spec(m, k) {
        Some(j) => match j {
            Json::Array(a) => if contributor_list_ok(a@) {
                f matches Some(l) && contributor_list_matches(a@, l@)
            } else {
                f is None
            },
            _ => f is None,
        },
        None => f is None,
    }
}

/// Reads an optional list field of the entity, as the field
/// specification describes.
pub fn opt_contributor_list(m: &Vec<(String, Json)>, k: &str) -> (r: Option<Vec<Contributor>>)
    ensures
        opt_contributor_list_field(m@, k@, r),
{
    match lookup(m, k) {
        Some(j) => match j {
            Json::Array(a) => contributor_list_of(a),
            _ => None,
        },
        None => None,
    }
}


/// Whether every element of an array decodes to the entity.
pub open spec fn issn_entry_list_ok(a: Seq<Json>) -> bool {
    forall|i: int| 0 <= i < a.len() ==> issn_entry_ok(#[trigger] a[i])
}

/// Whether `l` holds the decoded elements, in wire order.
pub open spec fn issn_entry_list_matches(a: Seq<Json>, l: Seq<ISSN>) -> bool {
    &&& l.len() == a.len()
    &&& forall|i: int| 0 <= i < a.len() ==> issn_entry_matches(#[trigger] a[i], l[i])
}

/// Decodes an array of the entity; any malformed element yields nothing.
fn issn_entry_list_of(a: &Vec<Json>) -> (r: Option<Vec<ISSN>>)
    ensures
        r is Some <==> issn_entry_list_ok(a@),
        r matches Some(l) ==> issn_entry_list_matches(a@, l@),
{
    let mut out: Vec<ISSN> = Vec::new();
    let mut i: usize = 0;
    while i < a.len()
        invariant
            0 <= i <= a.len(),
            out@.len() == i,
            forall|j: int| 0 <= j < i ==> issn_entry_ok(#[trigger] a@[j]),
            forall|j: int| 0 <= j < i ==> issn_entry_matches(#[trigger] a@[j], out@[j]),
        decreases a.len() - i,
    {
        match ISSN::try_from(&a[i]) {
            Ok(x) => {
                out.push(x);
            },
            Err(_) => {
                return None;
            },
        }
        i = i + 1;
    }
    Some(out)
}

/// An optional list field of the entity: present, an array, and with
/// every element well formed, it decodes to the list; anything else is
/// absent.
pub open spec fn opt_issn_entry_list_field(m: Seq<(String, Json)>, k: Seq<char>, f: Option<Vec<ISSN>>) -> bool {
    match lookup_spec(m, k) {
        Some(j) => match j {
            Json::Array(a) => if issn_entry_list_ok(a@) {
                f matches Some(l) && issn_entry_list_matches(a@, l@)
            } else {
                f is None
            },
            _ => f is None,
        },
        None => f is None,
    }
}

/// Reads an optional list field of the entity, as the field
/// specification describes.
pub fn opt_issn_entry_list(m: &Vec<(String, Json)>, k: &str) -> (r: Option<Vec<ISSN>>)
    ensures
        opt_issn_entry_list_field(m@, k@, r),
{
    match lookup(m, k) {
        Some(j) => match j {
            Json::Array(a) => issn_entry_list_of(a),
            _ => None,
        },
        None => None,
    }
}


/// Whether every element of an array decodes to the entity.
pub open spec fn license_list_ok(a: Seq<Json>) -> bool {
    forall|i: int| 0 <= i < a.len() ==> license_ok(#[trigger] a[i])
}

/// Whether `l` holds the decoded elements, in wire order.
pub open spec fn license_list_matches(a: Seq<Json>, l: Seq<License>) -> bool {
    &&& l.len() == a.len()
    &&& forall|i: int| 0 <= i < a.len() ==> license_matches(#[trigger] a[i], l[i])
}

/// Decodes an array of the entity; any malformed element yields nothing.
fn license_list_of(a: &Vec<Json>) -> (r: Option<Vec<License>>)
    ensures
        r is Some <==> license_list_ok(a@),
        r matches Some(l) ==> license_list_matches(a@, l@),
{
    let mut out: Vec<License> = Vec::new();
    let mut i: usize = 0;
    while i < a.len()
        invariant
            0 <= i <= a.len(),
            out@.len() == i,
            forall|j: int| 0 <= j < i ==> license_ok(#[trigger] a@[j]),
            forall|j: int| 0 <= j < i ==> license_matches(#[trigger] a@[j], out@[j]),
        decreases a.len() - i,
    {
        match License::try_from(&a[i]) {
            Ok(x) => {
                out.push(x);
            },
            Err(_) => {
                return None;
            },
        }
        i = i + 1;
    }
    Some(out)
}

/// An optional list field of the entity: present, an array, and with
/// every element well formed, it decodes to the list; anything else is
/// absent.
pub open spec fn opt_license_list_field(m: Seq<(String, Json)>, k: Seq<char>, f: Option<Vec<License>>) -> bool {
    match lookup_spec(m, k) {
        Some(j) => match j {
            Json::Array(a) => if license_list_ok(a@) {
                f matches Some(l) && license_list_matches(a@, l@)
            } else {
                f is None
            },
            _ => f is None,
        },
        None => f is None,
    }
}

/// Reads an optional list field of the entity, as the field
/// specification describes.
pub fn opt_license_list(m: &Vec<(String, Json)>, k: &str) -> (r: Option<Vec<License>>)
    ensures
        opt_license_list_field(m@, k@, r),
{
    match lookup(m, k) {
        Some(j) => match j {
            Json::Array(a) => license_list_of(a),
            _ => None,
        },
        None => None,
    }
}


/// Whether every element of an array decodes to the entity.
pub open spec fn funding_body_list_ok(a: Seq<Json>) -> bool {
    forall|i: int| 0 <= i < a.len() ==> funding_body_ok(#[trigger] a[i])
}

/// Whether `l` holds the decoded elements, in wire order.
pub open spec fn funding_body_list_matches(a: Seq<Json>, l: Seq<FundingBody>) -> bool {
    &&& l.len() == a.len()
    &&& forall|i: int| 0 <= i < a.len() ==> funding_body_matches(#[trigger] a[i], l[i])
}

/// Decodes an array of the entity; any malformed element yields nothing.
fn funding_body_list_of(a: &Vec<Json>) -> (r: Option<Vec<FundingBody>>)
    ensures
        r is Some <==> funding_body_list_ok(a@),
        r matches Some(l) ==> funding_body_list_matches(a@, l@),
{
    let mut out: Vec<FundingBody> = Vec::new();
    let mut i: usize = 0;
    while i < a.len()
        invariant
            0 <= i <= a.len(),
            out@.len() == i,
            forall|j: int| 0 <= j < i ==> funding_body_ok(#[trigger] a@[j]),
            forall|j: int| 0 <= j < i ==> funding_body_matches(#[trigger] a@[j], out@[j]),
        decreases a.len() - i,
    {
        match FundingBody::try_from(&a[i]) {
            Ok(x) => {
                out.push(x);
            },
            Err(_) => {
                return None;
            },
        }
        i = i + 1;
    }
    Some(out)
}

/// An optional list field of the entity: present, an array, and with
/// every element well formed, it decodes to the list; anything else is
/// absent.
pub open spec fn opt_funding_body_list_field(m: Seq<(String, Json)>, k: Seq<char>, f: Option<Vec<FundingBody>>) -> bool {
    match lookup_spec(m, k) {
        Some(j) => match j {
            Json::Array(a) => if funding_body_list_ok(a@) {
                f matches Some(l) && funding_body_list_matches(a@, l@)
            } else {
                f is None
            },
            _ => f is None,
        },
        None => f is None,
    }
}

/// Reads an optional list field of the entity, as the field
/// specification describes.
pub fn opt_funding_body_list(m: &Vec<(String, Json)>, k: &str) -> (r: Option<Vec<FundingBody>>)
    ensures
        opt_funding_body_list_field(m@, k@, r),
{
    match lookup(m, k) {
        Some(j) => match j {
            Json::Array(a) => funding_body_list_of(a),
            _ => None,
        },
        None => None,
    }
}


/// Whether every element of an array decodes to the entity.
pub open spec fn assertion_list_ok(a: Seq<Json>) -> bool {
    forall|i: int| 0 <= i < a.len() ==> assertion_ok(#[trigger] a[i])
}

/// Whether `l` holds the decoded elements, in wire order.
pub open spec fn assertion_list_matches(a: Seq<Json>, l: Seq<Assertion>) -> bool {
    &&& l.len() == a.len()
    &&& forall|i: int| 0 <= i < a.len() ==> assertion_matches(#[trigger] a[i], l[i])
}

/// Decodes an array of the entity; any malformed element yields nothing.
fn assertion_list_of(a: &Vec<Json>) -> (r: Option<Vec<Assertion>>)
    ensures
        r is Some <==> assertion_list_ok(a@),
        r matches Some(l) ==> assertion_list_matches(a@, l@),
{
    let mut out: Vec<Assertion> = Vec::new();
    let mut i: usize = 0;
    while i < a.len()
        invariant
            0 <= i <= a.len(),
            out@.len() == i,
            forall|j: int| 0 <= j < i ==> assertion_ok(#[trigger] a@[j]),
            forall|j: int| 0 <= j < i ==> assertion_matches(#[trigger] a@[j], out@[j]),
        decreases a.len() - i,
    {
        match Assertion::try_from(&a[i]) {
            Ok(x) => {
                out.push(x);
            },
            Err(_) => {
                return None;
            },
        }
        i = i + 1;
    }
    Some(out)
}

/// An optional list field of the entity: present, an array, and with
/// every element well formed, it decodes to the list; anything else is
/// absent.
pub open spec fn opt_assertion_list_field(m: Seq<(String, Json)>, k: Seq<char>, f: Option<Vec<Assertion>>) -> bool {
    match lookup_spec(m, k) {
        Some(j) => match j {
            Json::Array(a) => if assertion_list_ok(a@) {
                f matches Some(l) && assertion_list_matches(a@, l@)
            } else {
                f is None
            },
            _ => f is None,
        },
        None => f is None,
    }
}

/// Reads an optional list field of the entity, as the field
/// specification describes.
pub fn opt_assertion_list(m: &Vec<(String, Json)>, k: &str) -> (r: Option<Vec<Assertion>>)
    ensures
        opt_assertion_list_field(m@, k@, r),
{
    match lookup(m, k) {
        Some(j) => match j {
            Json::Array(a) => assertion_list_of(a),
            _ => None,
        },
        None => None,
    }
}


/// Whether every element of an array decodes to the entity.
pub open spec fn update_list_ok(a: Seq<Json>) -> bool {
    forall|i: int| 0 <= i < a.len() ==> update_ok(#[trigger] a[i])
}

/// Whether `l` holds the decoded elements, in wire order.
pub open spec fn update_list_matches(a: Seq<Json>, l: Seq<Update>) -> bool {
    &&& l.len() == a.len()
    &&& forall|i: int| 0 <= i < a.len() ==> update_matches(#[trigger] a[i], l[i])
}

/// Decodes an array of the entity; any malformed element yields nothing.
fn update_list_of(a: &Vec<Json>) -> (r: Option<Vec<Update>>)
    ensures
        r is Some <==> update_list_ok(a@),
        r matches Some(l) ==> update_list_matches(a@, l@),
{
    let mut out: Vec<Update> = Vec::new();
    let mut i: usize = 0;
    while i < a.len()
        invariant
            0 <= i <= a.len(),
            out@.len() == i,
            forall|j: int| 0 <= j < i ==> update_ok(#[trigger] a@[j]),
            forall|j: int| 0 <= j < i ==> update_matches(#[trigger] a@[j], out@[j]),
        decreases a.len() - i,
    {
        match Update::try_from(&a[i]) {
            Ok(x) => {
                out.push(x);
            },
            Err(_) => {
                return None;
            },
        }
        i = i + 1;
    }
    Some(out)
}

/// An optional list field of the entity: present, an array, and with
/// every element well formed, it decodes to the list; anything else is
/// absent.
pub open spec fn opt_update_list_field(m: Seq<(String, Json)>, k: Seq<char>, f: Option<Vec<Update>>) -> bool {
    match lookup_spec(m, k) {
        Some(j) => match j {
            Json::Array(a) => if update_list_ok(a@) {
                f matches Some(l) && update_list_matches(a@, l@)
            } else {
                f is None
            },
            _ => f is None,
        },
        None => f is None,
    }
}

/// Reads an optional list field of the entity, as the field
/// specification describes.
pub fn opt_update_list(m: &Vec<(String, Json)>, k: &str) -> (r: Option<Vec<Update>>)
    ensures
        opt_update_list_field(m@, k@, r),
{
    match lookup(m, k) {
        Some(j) => match j {
            Json::Array(a) => update_list_of(a),
            _ => None,
        },
        None => None,
    }
}


/// Whether every element of an array decodes to the entity.
pub open spec fn resource_link_list_ok(a: Seq<Json>) -> bool {
    forall|i: int| 0 <= i < a.len() ==> resource_link_ok(#[trigger] a[i])
}

/// Whether `l` holds the decoded elements, in wire order.
pub open spec fn resource_link_list_matches(a: Seq<Json>, l: Seq<ResourceLink>) -> bool {
    &&& l.len() == a.len()
    &&& forall|i: int| 0 <= i < a.len() ==> resource_link_matches(#[trigger] a[i], l[i])
}

/// Decodes an array of the entity; any malformed element yields nothing.
fn resource_link_list_of(a: &Vec<Json>) -> (r: Option<Vec<ResourceLink>>)
    ensures
        r is Some <==> resource_link_list_ok(a@),
        r matches Some(l) ==> resource_link_list_matches(a@, l@),
{
    let mut out: Vec<ResourceLink> = Vec::new();
    let mut i: usize = 0;
    while i < a.len()
        invariant
            0 <= i <= a.len(),
            out@.len() == i,
            forall|j: int| 0 <= j < i ==> resource_link_ok(#[trigger] a@[j]),
            forall|j: int| 0 <= j < i ==> resource_link_matches(#[trigger] a@[j], out@[j]),
        decreases a.len() - i,
    {
        match ResourceLink::try_from(&a[i]) {
            Ok(x) => {
                out.push(x);
            },
            Err(_) => {
                return None;
            },
        }
        i = i + 1;
    }
    Some(out)
}

/// An optional list field of the entity: present, an array, and with
/// every element well formed, it decodes to the list; anything else is
/// absent.
pub open spec fn opt_resource_link_list_field(m: Seq<(String, Json)>, k: Seq<char>, f: Option<Vec<ResourceLink>>) -> bool {
    match lookup_spec(m, k) {
        Some(j) => match j {
            Json::Array(a) => if resource_link_list_ok(a@) {
                f matches Some(l) && resource_link_list_matches(a@, l@)
            } else {
                f is None
            },
            _ => f is None,
        },
        None => f is None,
    }
}

/// Reads an optional list field of the entity, as the field
/// specification describes.
pub fn opt_resource_link_list(m: &Vec<(String, Json)>, k: &str) -> (r: Option<Vec<ResourceLink>>)
    ensures
        opt_resource_link_list_field(m@, k@, r),
{
    match lookup(m, k) {
        Some(j) => match j {
            Json::Array(a) => resource_link_list_of(a),
            _ => None,
        },
        None => None,
    }
}


/// Whether every element of an array decodes to the entity.
pub open spec fn ctn_list_ok(a: Seq<Json>) -> bool {
    forall|i: int| 0 <= i < a.len() ==> ctn_ok(#[trigger] a[i])
}

/// Whether `l` holds the decoded elements, in wire order.
pub open spec fn ctn_list_matches(a: Seq<Json>, l: Seq<ClinicalTrialNumber>) -> bool {
    &&& l.len() == a.len()
    &&& forall|i: int| 0 <= i < a.len() ==> ctn_matches(#[trigger] a[i], l[i])
}

/// Decodes an array of the entity; any malformed element yields nothing.
fn ctn_list_of(a: &Vec<Json>) -> (r: Option<Vec<ClinicalTrialNumber>>)
    ensures
        r is Some <==> ctn_list_ok(a@),
        r matches Some(l) ==> ctn_list_matches(a@, l@),
{
    let mut out: Vec<ClinicalTrialNumber> = Vec::new();
    let mut i: usize = 0;
    while i < a.len()
        invariant
            0 <= i <= a.len(),
            out@.len() == i,
            forall|j: int| 0 <= j < i ==> ctn_ok(#[trigger] a@[j]),
            forall|j: int| 0 <= j < i ==> ctn_matches(#[trigger] a@[j], out@[j]),
        decreases a.len() - i,
    {
        match ClinicalTrialNumber::try_from(&a[i]) {
            Ok(x) => {
                out.push(x);
            },
            Err(_) => {
                return None;
            },
        }
        i = i + 1;
    }
    Some(out)
}

/// An optional list field of the entity: present, an array, and with
/// every element well formed, it decodes to the list; anything else is
/// absent.
pub open spec fn opt_ctn_list_field(m: Seq<(String, Json)>, k: Seq<char>, f: Option<Vec<ClinicalTrialNumber>>) -> bool {
    match lookup_spec(m, k) {
        Some(j) => match j {
            Json::Array(a) => if ctn_list_ok(a@) {
                f matches Some(l) && ctn_list_matches(a@, l@)
            } else {
                f is None
            },
            _ => f is None,
        },
        None => f is None,
    }
}

/// Reads an optional list field of the entity, as the field
/// specification describes.
pub fn opt_ctn_list(m: &Vec<(String, Json)>, k: &str) -> (r: Option<Vec<ClinicalTrialNumber>>)
    ensures
        opt_ctn_list_field(m@, k@, r),
{
    match lookup(m, k) {
        Some(j) => match j {
            Json::Array(a) => ctn_list_of(a),
            _ => None,
        },
        None => None,
    }
}


/// Whether every element of an array decodes to the entity.
pub open spec fn reference_list_ok(a: Seq<Json>) -> bool {
    forall|i: int| 0 <= i < a.len() ==> reference_ok(#[trigger] a[i])
}

/// Whether `l` holds the decoded elements, in wire order.
pub open spec fn reference_list_matches(a: Seq<Json>, l: Seq<Reference>) -> bool {
    &&& l.len() == a.len()
    &&& forall|i: int| 0 <= i < a.len() ==> reference_matches(#[trigger] a[i], l[i])
}

/// Decodes an array of the entity; any malformed element yields nothing.
fn reference_list_of(a: &Vec<Json>) -> (r: Option<Vec<Reference>>)
    ensures
        r is Some <==> reference_list_ok(a@),
        r matches Some(l) ==> reference_list_matches(a@, l@),
{
    let mut out: Vec<Reference> = Vec::new();
    let mut i: usize = 0;
    while i < a.len()
        invariant
            0 <= i <= a.len(),
            out@.len() == i,
            forall|j: int| 0 <= j < i ==> reference_ok(#[trigger] a@[j]),
            forall|j: int| 0 <= j < i ==> reference_matches(#[trigger] a@[j], out@[j]),
        decreases a.len() - i,
    {
        match Reference::try_from(&a[i]) {
            Ok(x) => {
                out.push(x);
            },
            Err(_) => {
                return None;
            },
        }
        i = i + 1;
    }
    Some(out)
}

/// An optional list field of the entity: present, an array, and with
/// every element well formed, it decodes to the list; anything else is
/// absent.
pub open spec fn opt_reference_list_field(m: Seq<(String, Json)>, k: Seq<char>, f: Option<Vec<Reference>>) -> bool {
    match lookup_spec(m, k) {
        Some(j) => match j {
            Json::Array(a) => if reference_list_ok(a@) {
                f matches Some(l) && reference_list_matches(a@, l@)
            } else {
                f is None
            },
            _ => f is None,
        },
        None => f is None,
    }
}

/// Reads an optional list field of the entity, as the field
/// specification describes.
pub fn opt_reference_list(m: &Vec<(String, Json)>, k: &str) -> (r: Option<Vec<Reference>>)
    ensures
        opt_reference_list_field(m@, k@, r),
{
    match lookup(m, k) {
        Some(j) => match j {
            Json::Array(a) => reference_list_of(a),
            _ => None,
        },
        None => None,
    }
}


/// An optional `Issue` field: present and well formed decodes to the
/// record, anything else to absent.
pub open spec fn opt_issue_field(m: Seq<(String, Json)>, k: Seq<char>, f: Option<Issue>) -> bool {
    match lookup_spec(m, k) {
        Some(j) => if issue_ok(j) {
            f matches Some(x) && issue_matches(j, x)
        } else {
            f is None
        },
        None => f is None,
    }
}

/// Reads an optional `Issue` field, as the field specification describes.
pub fn opt_issue(m: &Vec<(String, Json)>, k: &str) -> (r: Option<Issue>)
    ensures
        opt_issue_field(m@, k@, r),
{
    match lookup(m, k) {
        Some(j) => match Issue::try_from(j) {
            Ok(x) => Some(x),
            Err(_) => None,
        },
        None => None,
    }
}


/// An optional `ContentDomain` field: present and well formed decodes to the
/// record, anything else to absent.
pub open spec fn opt_content_domain_field(m: Seq<(String, Json)>, k: Seq<char>, f: Option<ContentDomain>) -> bool {
    match lookup_spec(m, k) {
        Some(j) => if content_domain_ok(j) {
            f matches Some(x) && content_domain_matches(j, x)
        } else {
            f is None
        },
        None => f is None,
    }
}

/// Reads an optional `ContentDomain` field, as the field specification describes.
pub fn opt_content_domain(m: &Vec<(String, Json)>, k: &str) -> (r: Option<ContentDomain>)
    ensures
        opt_content_domain_field(m@, k@, r),
{
    match lookup(m, k) {
        Some(j) => match ContentDomain::try_from(j) {
            Ok(x) => Some(x),
            Err(_) => None,
        },
        None => None,
    }
}


/// A map from relation name to an arbitrarily shaped JSON value.  The
/// wire allows a relation name to map to either a single object or a
/// list, so the value is kept as an open JSON node.
pub type Relations = Vec<(String, Json)>;

/// Reads a required full-date field: absent is a `MissingField` failure,
/// a non-object an `InvalidTypeName` failure, and an object that is not
/// a well-formed date fails with the date's own error.
fn req_date(m: &Vec<(String, Json)>, k: &str) -> (r: Result<Date, ErrorKind>)
    ensures
        r is Ok <==> (lookup_spec(m@, k@) matches Some(j) && date_ok(j)),
        r matches Ok(d) ==> (lookup_spec(m@, k@) matches Some(j) && date_matches(j, d)),
        r matches Err(e) ==> match lookup_spec(m@, k@) {
            None => missing_field_err(e, k@),
            Some(j) => if !(j is Object) {
                type_err(e, k@)
            } else {
                date_err(j, e)
            },
        },
{
    match lookup(m, k) {
        Some(j) => {
            if j.is_object() {
                Date::try_from(j)
            } else {
                Err(invalid_type(k))
            }
        },
        None => Err(missing_field(k)),
    }
}

/// The principal record of the API: one publication.  Nearly every field
/// beyond the identifiers, the type and the created/indexed dates is
/// optional, because the upstream data set is heterogeneous by
/// publisher.
#[derive(Debug, Clone)]
pub struct Work {
    /// The name of the work's publisher.
    pub publisher: String,
    /// The work titles, including translated titles.
    pub title: Vec<String>,
    /// The titles in the original publication language.
    pub original_title: Option<Vec<String>>,
    /// The language of the work.
    pub language: Option<String>,
    /// The abbreviated work titles.
    pub short_title: Option<Vec<String>>,
    /// The abstract, as a JSON string or a JATS XML snippet.
    pub abstract_: Option<String>,
    /// The count of outbound references deposited with Crossref.
    pub references_count: Option<i32>,
    /// The count of inbound references deposited with Crossref.
    pub is_referenced_by_count: Option<i32>,
    /// The metadata source, currently always `Crossref`.
    pub source: Option<String>,
    /// The journal issue the work appeared in.
    pub journal_issue: Option<Issue>,
    /// The DOI prefix identifier.
    pub prefix: Option<String>,
    /// The DOI of the work.
    pub doi: String,
    /// The URL form of the work's DOI.
    pub url: Option<String>,
    /// The member identifier of the depositing member.
    pub member: String,
    /// One of the type identifiers of the `/types` resource.
    pub type_: String,
    /// The day this work entry was created.
    pub created: Date,
    /// The date the DOI was first registered.
    pub date: Option<Date>,
    /// The date the metadata was most recently updated.
    pub deposited: Option<Date>,
    /// The relevance score, kept as the raw JSON number.
    pub score: Option<Json>,
    /// The date the metadata was most recently indexed.
    pub indexed: Date,
    /// The earliest of the print and online publication dates.
    pub issued: Option<PartialDate>,
    /// The date posted content was made available online.
    pub posted: Option<PartialDate>,
    /// The date the work was accepted during submission.
    pub accepted: Option<PartialDate>,
    /// The work subtitles, original language and translated.
    pub subtitle: Option<Vec<String>>,
    /// The full titles of the containing work.
    pub container_title: Option<Vec<String>>,
    /// The abbreviated titles of the containing work.
    pub short_container_title: Option<Vec<String>>,
    /// The group title for posted content.
    pub group_title: Option<String>,
    /// The issue number of the article's journal.
    pub issue: Option<String>,
    /// The volume number of the article's journal.
    pub volume: Option<String>,
    /// The page numbers of the article within its journal.
    pub page: Option<String>,
    /// The number of the corresponding article.
    pub article_number: Option<String>,
    /// The date the work was published in print.
    pub published_print: Option<PartialDate>,
    /// The date the work was published online.
    pub published_online: Option<PartialDate>,
    /// The subject category names.
    pub subject: Option<Vec<String>>,
    /// The ISSNs of the containing work.
    pub issn: Option<Vec<String>>,
    /// The ISSNs with their type annotations.
    pub issn_type: Option<Vec<ISSN>>,
    /// The ISBNs of the containing work.
    pub isbn: Option<Vec<String>>,
    /// The archive partners.
    pub archive: Option<Vec<String>>,
    /// The licenses that apply to the work.
    pub license: Option<Vec<License>>,
    /// The funder entries of the work.
    pub funder: Option<Vec<FundingBody>>,
    /// The deposited assertions.
    pub assertion: Option<Vec<Assertion>>,
    /// The authors.
    pub author: Option<Vec<Contributor>>,
    /// The editors.
    pub editor: Option<Vec<Contributor>>,
    /// The chairs.
    pub chair: Option<Vec<Contributor>>,
    /// The translators.
    pub translator: Option<Vec<Contributor>>,
    /// The editorial updates this work makes.
    pub update_to: Option<Vec<Update>>,
    /// The link to an update policy covering Crossmark updates.
    pub update_policy: Option<String>,
    /// The URLs of full-text locations.
    pub link: Option<Vec<ResourceLink>>,
    /// The clinical trial numbers.
    pub clinical_trial_number: Option<Vec<ClinicalTrialNumber>>,
    /// Other identifiers the depositing member provided.
    pub alternative_id: Option<Vec<String>>,
    /// The references the work makes.
    pub reference: Option<Vec<Reference>>,
    /// The Crossmark content domains.
    pub content_domain: Option<ContentDomain>,
    /// The relations to other works, name to arbitrary JSON shape.
    pub relation: Option<Relations>,
    /// The peer-review metadata, name to arbitrary JSON shape.
    pub review: Option<Relations>,
}

/// Whether a JSON value decodes to a `Work`: it must be an object whose
/// required fields — publisher, title, DOI, member, type, created and
/// indexed — are present and well formed.
pub open spec fn work_ok(v: Json) -> bool {
    &&& v matches Json::Object(m)
    &&& opt_str_spec(m@, "publisher"@) is Some
    &&& opt_str_list_spec(m@, "title"@) is Some
    &&& opt_str_spec(m@, "DOI"@) is Some
    &&& opt_str_spec(m@, "member"@) is Some
    &&& opt_str_spec(m@, "type"@) is Some
    &&& (lookup_spec(m@, "created"@) matches Some(j) && date_ok(j))
    &&& (lookup_spec(m@, "indexed"@) matches Some(j) && date_ok(j))
}

/// Whether `w` is the record decoded from `v`, field by field.
pub open spec fn work_matches(v: Json, w: Work) -> bool {
    match v {
        Json::Object(m) => {
            &&& w.publisher@ == opt_str_spec(m@, "publisher"@)->Some_0
            &&& Some(w.title.deep_view()) == opt_str_list_spec(m@, "title"@)
            &&& opt_strings_view(w.original_title) == opt_str_list_spec(m@, "original-title"@)
            &&& opt_str_view(w.language) == opt_str_spec(m@, "language"@)
            &&& opt_strings_view(w.short_title) == opt_str_list_spec(m@, "short-title"@)
            &&& opt_str_view(w.abstract_) == opt_str_spec(m@, "abstract"@)
            &&& opt_i32_view(w.references_count) == opt_i32_spec(m@, "references-count"@)
            &&& opt_i32_view(w.is_referenced_by_count) == opt_i32_spec(m@, "is-referenced-by-count"@)
            &&& opt_str_view(w.source) == opt_str_spec(m@, "source"@)
            &&& opt_issue_field(m@, "journal-issue"@, w.journal_issue)
            &&& opt_str_view(w.prefix) == opt_str_spec(m@, "prefix"@)
            &&& w.doi@ == opt_str_spec(m@, "DOI"@)->Some_0
            &&& opt_str_view(w.url) == opt_str_spec(m@, "URL"@)
            &&& w.member@ == opt_str_spec(m@, "member"@)->Some_0
            &&& w.type_@ == opt_str_spec(m@, "type"@)->Some_0
            &&& (lookup_spec(m@, "created"@) matches Some(j) && date_matches(j, w.created))
            &&& opt_date_field(m@, "date"@, w.date)
            &&& opt_date_field(m@, "deposited"@, w.deposited)
            &&& (match lookup_spec(m@, "score"@) {
                Some(j) => if json_is_number(j) {
                    w.score matches Some(n) && json_eq(n, j)
                } else {
                    w.score is None
                },
                None => w.score is None,
            })
            &&& (lookup_spec(m@, "indexed"@) matches Some(j) && date_matches(j, w.indexed))
            &&& opt_partial_date_field(m@, "issued"@, w.issued)
            &&& opt_partial_date_field(m@, "posted"@, w.posted)
            &&& opt_partial_date_field(m@, "accepted"@, w.accepted)
            &&& opt_strings_view(w.subtitle) == opt_str_list_spec(m@, "subtitle"@)
            &&& opt_strings_view(w.container_title) == opt_str_list_spec(m@, "container-title"@)
            &&& opt_strings_view(w.short_container_title) == opt_str_list_spec(m@, "short-container-title"@)
            &&& opt_str_view(w.group_title) == opt_str_spec(m@, "group-title"@)
            &&& opt_str_view(w.issue) == opt_str_spec(m@, "issue"@)
            &&& opt_str_view(w.volume) == opt_str_spec(m@, "volume"@)
            &&& opt_str_view(w.page) == opt_str_spec(m@, "page"@)
            &&& opt_str_view(w.article_number) == opt_str_spec(m@, "article-number"@)
            &&& opt_partial_date_field(m@, "published-print"@, w.published_print)
            &&& opt_partial_date_field(m@, "published-online"@, w.published_online)
            &&& opt_strings_view(w.subject) == opt_str_list_spec(m@, "subject"@)
            &&& opt_strings_view(w.issn) == opt_str_list_spec(m@, "ISSN"@)
            &&& opt_issn_entry_list_field(m@, "issn-type"@, w.issn_type)
            &&& opt_strings_view(w.isbn) == opt_str_list_spec(m@, "ISBN"@)
            &&& opt_strings_view(w.archive) == opt_str_list_spec(m@, "archive"@)
            &&& opt_license_list_field(m@, "license"@, w.license)
            &&& opt_funding_body_list_field(m@, "funder"@, w.funder)
            &&& opt_assertion_list_field(m@, "assertion"@, w.assertion)
            &&& opt_contributor_list_field(m@, "author"@, w.author)
            &&& opt_contributor_list_field(m@, "editor"@, w.editor)
            &&& opt_contributor_list_field(m@, "chair"@, w.chair)
            &&& opt_contributor_list_field(m@, "translator"@, w.translator)
            &&& opt_update_list_field(m@, "update-to"@, w.update_to)
            &&& opt_str_view(w.update_policy) == opt_str_spec(m@, "update-policy"@)
            &&& opt_resource_link_list_field(m@, "link"@, w.link)
            &&& opt_ctn_list_field(m@, "clinical-trial-number"@, w.clinical_trial_number)
            &&& opt_strings_view(w.alternative_id) == opt_str_list_spec(m@, "alternative-id"@)
            &&& opt_reference_list_field(m@, "reference"@, w.reference)
            &&& opt_content_domain_field(m@, "content-domain"@, w.content_domain)
            &&& (match lookup_spec(m@, "relation"@) {
                Some(j) => match j {
                    Json::Object(rm) => w.relation matches Some(p) && pairs_eq(p@, rm@),
                    _ => w.relation is None,
                },
                None => w.relation is None,
            })
            &&& (match lookup_spec(m@, "review"@) {
                Some(j) => match j {
                    Json::Object(rm) => w.review matches Some(p) && pairs_eq(p@, rm@),
                    _ => w.review is None,
                },
                None => w.review is None,
            })
        },
        _ => false,
    }
}

/// The named failure decoding `v` gives, in check order: publisher,
/// title, DOI, member, type, created, indexed.
pub open spec fn work_err(v: Json, e: ErrorKind) -> bool {
    match v {
        Json::Object(m) => {
            if !(opt_str_spec(m@, "publisher"@) is Some) {
                if lookup_spec(m@, "publisher"@) is None {
                    missing_field_err(e, "publisher"@)
                } else {
                    type_err(e, "publisher"@)
                }
            } else if !(opt_str_list_spec(m@, "title"@) is Some) {
                if lookup_spec(m@, "title"@) is None {
                    missing_field_err(e, "title"@)
                } else {
                    type_err(e, "title"@)
                }
            } else if !(opt_str_spec(m@, "DOI"@) is Some) {
                if lookup_spec(m@, "DOI"@) is None {
                    missing_field_err(e, "DOI"@)
                } else {
                    type_err(e, "DOI"@)
                }
            } else if !(opt_str_spec(m@, "member"@) is Some) {
                if lookup_spec(m@, "member"@) is None {
                    missing_field_err(e, "member"@)
                } else {
                    type_err(e, "member"@)
                }
            } else if !(opt_str_spec(m@, "type"@) is Some) {
                if lookup_spec(m@, "type"@) is None {
                    missing_field_err(e, "type"@)
                } else {
                    type_err(e, "type"@)
                }
            } else if !(lookup_spec(m@, "created"@) matches Some(j) && date_ok(j)) {
                match lookup_spec(m@, "created"@) {
                    None => missing_field_err(e, "created"@),
                    Some(j) => if !(j is Object) {
                        type_err(e, "created"@)
                    } else {
                        date_err(j, e)
                    },
                }
            } else if !(lookup_spec(m@, "indexed"@) matches Some(j) && date_ok(j)) {
                match lookup_spec(m@, "indexed"@) {
                    None => missing_field_err(e, "indexed"@),
                    Some(j) => if !(j is Object) {
                        type_err(e, "indexed"@)
                    } else {
                        date_err(j, e)
                    },
                }
            } else {
                false
            }
        },
        _ => message_type_err(e, "expected a JSON object"@),
    }
}

impl Work {
    /// Decodes a `Work` from a single JSON value: either a fully
    /// populated record comes back, or the named failure of the first
    /// required field that is absent or malformed.  Optional fields
    /// absorb anything malformed and decode to absent.
    #[verifier::rlimit(100)]
    pub fn try_from(v: &Json) -> (r: Result<Self, ErrorKind>)
        ensures
            r is Ok <==> work_ok(*v),
            r matches Ok(w) ==> work_matches(*v, w),
            r matches Err(e) ==> work_err(*v, e),
    {
        match v {
            Json::Object(m) => {
                let publisher = match req_str(m, "publisher") {
                    Ok(s) => s,
                    Err(e) => {
                        return Err(e);
                    },
                };
                let title = match req_str_list(m, "title") {
                    Ok(s) => s,
                    Err(e) => {
                        return Err(e);
                    },
                };
                let original_title = opt_str_list(m, "original-title");
                let language = opt_str(m, "language");
                let short_title = opt_str_list(m, "short-title");
                let abstract_ = opt_str(m, "abstract");
                let references_count = opt_i32(m, "references-count");
                let is_referenced_by_count = opt_i32(m, "is-referenced-by-count");
                let source = opt_str(m, "source");
                let journal_issue = opt_issue(m, "journal-issue");
                let prefix = opt_str(m, "prefix");
                let doi = match req_str(m, "DOI") {
                    Ok(s) => s,
                    Err(e) => {
                        return Err(e);
                    },
                };
                let url = opt_str(m, "URL");
                let member = match req_str(m, "member") {
                    Ok(s) => s,
                    Err(e) => {
                        return Err(e);
                    },
                };
                let type_ = match req_str(m, "type") {
                    Ok(s) => s,
                    Err(e) => {
                        return Err(e);
                    },
                };
                let created = match req_date(m, "created") {
                    Ok(d) => d,
                    Err(e) => {
                        return Err(e);
                    },
                };
                let date = opt_date(m, "date");
                let deposited = opt_date(m, "deposited");
                let score = opt_number(m, "score");
                let indexed = match req_date(m, "indexed") {
                    Ok(d) => d,
                    Err(e) => {
                        return Err(e);
                    },
                };
                let issued = opt_partial_date(m, "issued");
                let posted = opt_partial_date(m, "posted");
                let accepted = opt_partial_date(m, "accepted");
                let subtitle = opt_str_list(m, "subtitle");
                let container_title = opt_str_list(m, "container-title");
                let short_container_title = opt_str_list(m, "short-container-title");
                let group_title = opt_str(m, "group-title");
                let issue = opt_str(m, "issue");
                let volume = opt_str(m, "volume");
                let page = opt_str(m, "page");
                let article_number = opt_str(m, "article-number");
                let published_print = opt_partial_date(m, "published-print");
                let published_online = opt_partial_date(m, "published-online");
                let subject = opt_str_list(m, "subject");
                let issn = opt_str_list(m, "ISSN");
                let issn_type = opt_issn_entry_list(m, "issn-type");
                let isbn = opt_str_list(m, "ISBN");
                let archive = opt_str_list(m, "archive");
                let license = opt_license_list(m, "license");
                let funder = opt_funding_body_list(m, "funder");
                let assertion = opt_assertion_list(m, "assertion");
                let author = opt_contributor_list(m, "author");
                let editor = opt_contributor_list(m, "editor");
                let chair = opt_contributor_list(m, "chair");
                let translator = opt_contributor_list(m, "translator");
                let update_to = opt_update_list(m, "update-to");
                let update_policy = opt_str(m, "update-policy");
                let link = opt_resource_link_list(m, "link");
                let clinical_trial_number = opt_ctn_list(m, "clinical-trial-number");
                let alternative_id = opt_str_list(m, "alternative-id");
                let reference = opt_reference_list(m, "reference");
                let content_domain = opt_content_domain(m, "content-domain");
                let relation = opt_obj_members(m, "relation");
                let review = opt_obj_members(m, "review");
                Ok(
                    Work {
                        publisher,
                        title,
                        original_title,
                        language,
                        short_title,
                        abstract_,
                        references_count,
                        is_referenced_by_count,
                        source,
                        journal_issue,
                        prefix,
                        doi,
                        url,
                        member,
                        type_,
                        created,
                        date,
                        deposited,
                        score,
                        indexed,
                        issued,
                        posted,
                        accepted,
                        subtitle,
                        container_title,
                        short_container_title,
                        group_title,
                        issue,
                        volume,
                        page,
                        article_number,
                        published_print,
                        published_online,
                        subject,
                        issn,
                        issn_type,
                        isbn,
                        archive,
                        license,
                        funder,
                        assertion,
                        author,
                        editor,
                        chair,
                        translator,
                        update_to,
                        update_policy,
                        link,
                        clinical_trial_number,
                        alternative_id,
                        reference,
                        content_domain,
                        relation,
                        review,
                    },
                )
            },
            _ => Err(invalid_message("expected a JSON object")),
        }
    }
}

/// Whether every element of an array decodes to a `Work`.
pub open spec fn work_items_ok(a: Seq<Json>) -> bool {
    forall|i: int| 0 <= i < a.len() ==> work_ok(#[trigger] a[i])
}

/// Whether `l` holds the decoded works, in wire order.
pub open spec fn work_items_matches(a: Seq<Json>, l: Seq<Work>) -> bool {
    &&& l.len() == a.len()
    &&& forall|i: int| 0 <= i < a.len() ==> work_matches(#[trigger] a[i], l[i])
}

/// Decodes the required `items` array of a work list; an element that
/// fails to decode fails the whole list with the first such element's
/// error.
fn work_items_of(a: &Vec<Json>) -> (r: Result<Vec<Work>, ErrorKind>)
    ensures
        r is Ok <==> work_items_ok(a@),
        r matches Ok(l) ==> work_items_matches(a@, l@),
        r matches Err(e) ==> !work_items_ok(a@) && work_err(
            a@[first_not(a@, (|j: Json| work_ok(j)))],
            e,
        ),
{
    let mut out: Vec<Work> = Vec::new();
    let mut i: usize = 0;
    while i < a.len()
        invariant
            0 <= i <= a.len(),
            out@.len() == i,
            forall|j: int| 0 <= j < i ==> work_ok(#[trigger] a@[j]),
            forall|j: int| 0 <= j < i ==> work_matches(#[trigger] a@[j], out@[j]),
        decreases a.len() - i,
    {
        match Work::try_from(&a[i]) {
            Ok(x) => {
                out.push(x);
            },
            Err(e) => {
                proof {
                    lemma_first_not(a@, (|j: Json| work_ok(j)), i as int);
                }
                return Err(e);
            },
        }
        i = i + 1;
    }
    Ok(out)
}

/// The list envelope of a `/works` response: the matching works together
/// with paging and faceting metadata.
#[derive(Debug, Clone)]
pub struct WorkList {
    /// The facet name to facet detail map.
    pub facets: FacetMap,
    /// The number of items that match the query.
    pub total_results: usize,
    /// The number of items to expect in `items` per page.
    pub items_per_page: Option<usize>,
    /// The echoed query, when the request carried one.
    pub query: Option<QueryResponse>,
    /// The work items of this page.
    pub items: Vec<Work>,
    /// The cursor token that continues deep paging, if any.
    pub next_cursor: Option<String>,
}

/// Whether a JSON value decodes to a `WorkList`.
pub open spec fn work_list_ok(v: Json) -> bool {
    &&& v matches Json::Object(m)
    &&& (lookup_spec(m@, "facets"@) matches Some(j) && j matches Json::Object(fm) && facet_map_ok(
        fm@,
    ))
    &&& opt_usize_spec(m@, "total-results"@) is Some
    &&& (lookup_spec(m@, "items"@) matches Some(j) && j matches Json::Array(a) && work_items_ok(a@))
}

/// Whether `w` is the list decoded from `v`.
pub open spec fn work_list_matches(v: Json, w: WorkList) -> bool {
    match v {
        Json::Object(m) => {
            &&& (lookup_spec(m@, "facets"@) matches Some(j) && j matches Json::Object(fm)
                && facet_map_matches(fm@, w.facets@))
            &&& opt_usize_spec(m@, "total-results"@) == Some(w.total_results as int)
            &&& (match opt_usize_spec(m@, "items-per-page"@) {
                Some(n) => w.items_per_page matches Some(p) && p as int == n,
                None => w.items_per_page is None,
            })
            &&& (match lookup_spec(m@, "query"@) {
                Some(j) => if query_response_ok(j) {
                    w.query matches Some(q) && query_response_matches(j, q)
                } else {
                    w.query is None
                },
                None => w.query is None,
            })
            &&& (lookup_spec(m@, "items"@) matches Some(j) && j matches Json::Array(a)
                && work_items_matches(a@, w.items@))
            &&& opt_str_view(w.next_cursor) == opt_str_spec(m@, "next-cursor"@)
        },
        _ => false,
    }
}

/// The named failure decoding `v` gives, in check order: the facet map,
/// the total, then the items.
pub open spec fn work_list_err(v: Json, e: ErrorKind) -> bool {
    match v {
        Json::Object(m) => if !(lookup_spec(m@, "facets"@) matches Some(j) && j is Object) {
            if lookup_spec(m@, "facets"@) is None {
                missing_field_err(e, "facets"@)
            } else {
                type_err(e, "facets"@)
            }
        } else if !(lookup_spec(m@, "facets"@) matches Some(j) && j matches Json::Object(fm)
            && facet_map_ok(fm@)) {
            facet_item_err(
                lookup_spec(m@, "facets"@)->Some_0->Object_0@[facet_map_first_bad(
                    lookup_spec(m@, "facets"@)->Some_0->Object_0@,
                )].1,
                e,
            )
        } else if !(opt_usize_spec(m@, "total-results"@) is Some) {
            if lookup_spec(m@, "total-results"@) is None {
                missing_field_err(e, "total-results"@)
            } else {
                type_err(e, "total-results"@)
            }
        } else if !(lookup_spec(m@, "items"@) matches Some(j) && j is Array) {
            if lookup_spec(m@, "items"@) is None {
                missing_field_err(e, "items"@)
            } else {
                type_err(e, "items"@)
            }
        } else {
            work_err(
                lookup_spec(m@, "items"@)->Some_0->Array_0@[first_not(
                    lookup_spec(m@, "items"@)->Some_0->Array_0@,
                    (|j: Json| work_ok(j)),
                )],
                e,
            )
        },
        _ => message_type_err(e, "expected a JSON object"@),
    }
}

impl WorkList {
    /// Decodes a work-list envelope: `facets`, `total-results` and
    /// `items` are required; `items-per-page`, `query` and `next-cursor`
    /// are optional.
    pub fn try_from(v: &Json) -> (r: Result<Self, ErrorKind>)
        ensures
            r is Ok <==> work_list_ok(*v),
            r matches Ok(w) ==> work_list_matches(*v, w),
            r matches Err(e) ==> work_list_err(*v, e),
    {
        match v {
            Json::Object(m) => {
                let facets = match lookup(m, "facets") {
                    Some(j) => match j {
                        Json::Object(fm) => match facet_map_of(fm) {
                            Ok(f) => f,
                            Err(e) => {
                                return Err(e);
                            },
                        },
                        _ => {
                            return Err(invalid_type("facets"));
                        },
                    },
                    None => {
                        return Err(missing_field("facets"));
                    },
                };
                let total_results = match req_usize(m, "total-results") {
                    Ok(n) => n,
                    Err(e) => {
                        return Err(e);
                    },
                };
                let items_per_page = opt_usize(m, "items-per-page");
                let query = match lookup(m, "query") {
                    Some(j) => match QueryResponse::try_from(j) {
                        Ok(q) => Some(q),
                        Err(_) => None,
                    },
                    None => None,
                };
                let items = match lookup(m, "items") {
                    Some(j) => match j {
                        Json::Array(a) => match work_items_of(a) {
                            Ok(l) => l,
                            Err(e) => {
                                return Err(e);
                            },
                        },
                        _ => {
                            return Err(invalid_type("items"));
                        },
                    },
                    None => {
                        return Err(missing_field("items"));
                    },
                };
                let next_cursor = opt_str(m, "next-cursor");
                Ok(
                    WorkList {
                        facets,
                        total_results,
                        items_per_page,
                        query,
                        items,
                        next_cursor,
                    },
                )
            },
            _ => Err(invalid_message("expected a JSON object")),
        }
    }
}

/// The family-name part of a citation key: one author's family name, two
/// joined by `&`, or the first followed by `EtAl`; a missing family name
/// of a single author yields nothing, while in the other shapes it
/// renders as the empty string.
pub open spec fn citekey_authors(a: Seq<Contributor>) -> Option<Seq<char>> {
    if a.len() == 0 {
        None
    } else if a.len() == 1 {
        match a[0].family {
            Some(f) => Some(f@),
            None => None,
        }
    } else if a.len() == 2 {
        Some(opt_family(a[0]) + "&"@ + opt_family(a[1]))
    } else {
        Some(opt_family(a[0]) + "EtAl"@)
    }
}

/// A contributor's family name, or the empty string.
pub open spec fn opt_family(c: Contributor) -> Seq<char> {
    match c.family {
        Some(f) => f@,
        None => Seq::empty(),
    }
}

/// The leading year of a raw date: the year of its first completed
/// tuple, in the signed range, when every tuple completes.
pub open spec fn parts_year(dp: Seq<Seq<Option<u32>>>) -> Option<int> {
    if dp.len() == 0 || parts_bad(dp) {
        None
    } else {
        Some(tuple_date(dp[0])->Some_0.year as i32 as int)
    }
}

/// The citation key of a work: the family-name part followed by the
/// leading year of the given date, or nothing when either is
/// unavailable.
pub open spec fn citekey_spec(authors: Seq<Contributor>, year: Option<Date>) -> Option<Seq<char>> {
    match citekey_authors(authors) {
        None => None,
        Some(a) => match year {
            None => None,
            Some(d) => match parts_year(d.date_parts.0.deep_view()) {
                None => None,
                Some(y) => Some(a + dec_str_signed(y)),
            },
        },
    }
}

/// Builds a citation key such as `Smith2019`, `Smith&Jones2019` or
/// `SmithEtAl2019`, as `citekey_spec` describes.
pub fn to_citekey(authors: Vec<Contributor>, year: Option<Date>) -> (r: Option<String>)
    ensures
        r is Some <==> citekey_spec(authors@, year) is Some,
        r matches Some(s) ==> Some(s@) == citekey_spec(authors@, year),
{
    if authors.len() == 0 {
        return None;
    }
    let names: String = if authors.len() == 1 {
        match &authors[0].family {
            Some(f) => f.clone(),
            None => {
                return None;
            },
        }
    } else if authors.len() == 2 {
        let mut s = match &authors[0].family {
            Some(f) => f.clone(),
            None => String::new(),
        };
        s.append("&");
        match &authors[1].family {
            Some(f) => s.append(f.as_str()),
            None => (),
        }
        proof {
            assert(s@ =~= opt_family(authors@[0]) + "&"@ + opt_family(authors@[1]));
        }
        s
    } else {
        let mut s = match &authors[0].family {
            Some(f) => f.clone(),
            None => String::new(),
        };
        s.append("EtAl");
        s
    };
    let d = match year {
        Some(d) => d,
        None => {
            return None;
        },
    };
    let fld = match d.date_parts.as_date() {
        Some(f) => f,
        None => {
            return None;
        },
    };
    let y: i32 = fld.year();
    let mut out = names;
    push_i64(&mut out, y as i64);
    Some(out)
}

} // verus!
