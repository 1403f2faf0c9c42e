//! The crate's own model of a JSON value.
//!
//! The decoder walks a fully materialized JSON tree; this type holds that
//! tree as plain values, so every step of the walk can be verified.  The
//! surrounding transport parses wire bytes into this shape before handing
//! it to the decoder.

use vstd::prelude::*;
use crate::error::{ErrorKind, missing_field, invalid_type, missing_field_err, type_err};
use crate::strutil::str_eq;

verus! {

/// A JSON value.
///
/// Numbers keep the split the wire gives them: integers that fit `i64`,
/// integers above `i64::MAX` that still fit `u64`, and any other number
/// (a fraction or an exponent form) carried verbatim as its decimal text.
#[derive(Debug)]
pub enum Json {
    /// The JSON `null`.
    Null,
    /// A JSON boolean.
    Bool(bool),
    /// An integer representable as `i64`.
    Int(i64),
    /// An integer above `i64::MAX`, representable as `u64`.
    UInt(u64),
    /// A number that is not an integer, kept as its decimal text.
    NumText(String),
    /// A JSON string.
    Str(String),
    /// A JSON array.
    Array(Vec<Json>),
    /// A JSON object: its members in wire order.
    Object(Vec<(String, Json)>),
}

/// Structural equality of two JSON trees, comparing strings by their
/// characters and containers element by element.
pub open spec fn json_eq(a: Json, b: Json) -> bool
    decreases a,
{
    match (a, b) {
        (Json::Null, Json::Null) => true,
        (Json::Bool(x), Json::Bool(y)) => x == y,
        (Json::Int(x), Json::Int(y)) => x == y,
        (Json::UInt(x), Json::UInt(y)) => x == y,
        (Json::NumText(x), Json::NumText(y)) => x@ == y@,
        (Json::Str(x), Json::Str(y)) => x@ == y@,
        (Json::Array(x), Json::Array(y)) => {
            &&& x@.len() == y@.len()
            &&& forall|i: int| 0 <= i < x@.len() ==> json_eq(#[trigger] x@[i], y@[i])
        },
        (Json::Object(x), Json::Object(y)) => {
            &&& x@.len() == y@.len()
            &&& forall|i: int|
                0 <= i < x@.len() ==> (#[trigger] x@[i]).0@ == y@[i].0@ && json_eq(x@[i].1, y@[i].1)
        },
        _ => false,
    }
}

impl Json {
    /// A fresh deep copy of the tree, structurally equal to the original.
    pub fn duplicate(&self) -> (r: Json)
        ensures
            json_eq(r, *self),
        decreases *self,
    {
        match self {
            Json::Null => Json::Null,
            Json::Bool(b) => Json::Bool(*b),
            Json::Int(i) => Json::Int(*i),
            Json::UInt(u) => Json::UInt(*u),
            Json::NumText(s) => Json::NumText(s.clone()),
            Json::Str(s) => Json::Str(s.clone()),
            Json::Array(items) => {
                let mut out: Vec<Json> = Vec::new();
                let mut i: usize = 0;
                while i < items.len()
                    invariant
                        0 <= i <= items.len(),
                        out@.len() == i,
                        forall|j: int| 0 <= j < i ==> json_eq(#[trigger] out@[j], items@[j]),
                        *self == Json::Array(*items),
                    decreases items.len() - i,
                {
                    proof {
                        assert(decreases_to!(*self => (*self)->Array_0));
                        assert((*self)->Array_0 == *items);
                        assert(decreases_to!(*items => items@));
                        assert(decreases_to!(items@ => items@[i as int]));
                        assert(decreases_to!(*self => items@[i as int]));
                    }
                    let c = items[i].duplicate();
                    out.push(c);
                    i = i + 1;
                }
                Json::Array(out)
            },
            Json::Object(members) => {
                let mut out: Vec<(String, Json)> = Vec::new();
                let mut i: usize = 0;
                while i < members.len()
                    invariant
                        0 <= i <= members.len(),
                        out@.len() == i,
                        forall|j: int|
                            0 <= j < i ==> (#[trigger] out@[j]).0@ == members@[j].0@ && json_eq(
                                out@[j].1,
                                members@[j].1,
                            ),
                        *self == Json::Object(*members),
                    decreases members.len() - i,
                {
                    proof {
                        assert(decreases_to!(*self => (*self)->Object_0));
                        assert((*self)->Object_0 == *members);
                        assert(decreases_to!(*members => members@));
                        assert(decreases_to!(members@ => members@[i as int]));
                        assert(decreases_to!(members@[i as int] => members@[i as int].1));
                        assert(decreases_to!(*self => members@[i as int].1));
                    }
                    let k = members[i].0.clone();
                    let v = members[i].1.duplicate();
                    out.push((k, v));
                    i = i + 1;
                }
                Json::Object(out)
            },
        }
    }
}

impl Clone for Json {
    /// A deep copy, structurally equal to the original.
    fn clone(&self) -> (r: Self)
        ensures
            json_eq(r, *self),
    {
        self.duplicate()
    }
}

/// The value under the first member of `m` named `k`, if any.
pub open spec fn lookup_spec(m: Seq<(String, Json)>, k: Seq<char>) -> Option<Json>
    decreases m.len(),
{
    if m.len() == 0 {
        None
    } else if m[0].0@ == k {
        Some(m[0].1)
    } else {
        lookup_spec(m.drop_first(), k)
    }
}

/// Finds the first member of `m` named `k`, as `lookup_spec` describes.
pub fn lookup<'a>(m: &'a Vec<(String, Json)>, k: &str) -> (r: Option<&'a Json>)
    ensures
        match r {
            Some(j) => lookup_spec(m@, k@) == Some(*j),
            None => lookup_spec(m@, k@) is None,
        },
{
    let mut i: usize = 0;
    proof {
        assert(m@.subrange(0, m@.len() as int) =~= m@);
    }
    while i < m.len()
        invariant
            0 <= i <= m.len(),
            lookup_spec(m@, k@) == lookup_spec(m@.subrange(i as int, m@.len() as int), k@),
        decreases m.len() - i,
    {
        let eq = str_eq(m[i].0.as_str(), k);
        proof {
            assert(m@.subrange(i as int, m@.len() as int)[0] == m@[i as int]);
            assert(m@.subrange(i as int, m@.len() as int).drop_first() =~= m@.subrange(
                i as int + 1,
                m@.len() as int,
            ));
        }
        if eq {
            return Some(&m[i].1);
        }
        i = i + 1;
    }
    proof {
        assert(m@.subrange(m@.len() as int, m@.len() as int).len() == 0);
    }
    None
}


/// Key/value pairs equal pairwise: same names, structurally equal values.
pub open spec fn pairs_eq(a: Seq<(String, Json)>, b: Seq<(String, Json)>) -> bool {
    &&& a.len() == b.len()
    &&& forall|i: int| 0 <= i < a.len() ==> (#[trigger] a[i]).0@ == b[i].0@ && json_eq(a[i].1, b[i].1)
}

/// A fresh deep copy of an object's member list.
pub fn duplicate_members(m: &Vec<(String, Json)>) -> (r: Vec<(String, Json)>)
    ensures
        pairs_eq(r@, m@),
{
    let mut out: Vec<(String, Json)> = Vec::new();
    let mut i: usize = 0;
    while i < m.len()
        invariant
            0 <= i <= m.len(),
            out@.len() == i,
            forall|j: int|
                0 <= j < i ==> (#[trigger] out@[j]).0@ == m@[j].0@ && json_eq(out@[j].1, m@[j].1),
        decreases m.len() - i,
    {
        let k = m[i].0.clone();
        let v = m[i].1.duplicate();
        out.push((k, v));
        i = i + 1;
    }
    out
}

/// The characters of a JSON string, or nothing for any other shape.
pub open spec fn json_str_val(j: Json) -> Seq<char> {
    match j {
        Json::Str(s) => s@,
        _ => Seq::empty(),
    }
}

/// The value of a JSON integer readable as an unsigned 64-bit number.
pub open spec fn json_as_u64(j: Json) -> Option<int> {
    match j {
        Json::Int(i) => if i >= 0 {
            Some(i as int)
        } else {
            None
        },
        Json::UInt(u) => Some(u as int),
        _ => None,
    }
}

/// The value of a JSON integer readable as a signed 64-bit number.
pub open spec fn json_as_i64(j: Json) -> Option<int> {
    match j {
        Json::Int(i) => Some(i as int),
        _ => None,
    }
}

/// Whether the value is a JSON number of any of the three kinds.
pub open spec fn json_is_number(j: Json) -> bool {
    j is Int || j is UInt || j is NumText
}

impl Json {
    /// Whether the value is a JSON object.
    pub fn is_object(&self) -> (r: bool)
        ensures
            r == (*self is Object),
    {
        match self {
            Json::Object(_) => true,
            _ => false,
        }
    }
}

/// The string under key `k`: present only when the member exists and is a
/// JSON string.
pub open spec fn opt_str_spec(m: Seq<(String, Json)>, k: Seq<char>) -> Option<Seq<char>> {
    match lookup_spec(m, k) {
        Some(j) => match j {
            Json::Str(s) => Some(s@),
            _ => None,
        },
        None => None,
    }
}

/// Reads an optional string field: a missing member or one of another JSON
/// type yields nothing.
pub fn opt_str(m: &Vec<(String, Json)>, k: &str) -> (r: Option<String>)
    ensures
        r is Some <==> opt_str_spec(m@, k@) is Some,
        r matches Some(s) ==> opt_str_spec(m@, k@) == Some(s@),
{
    match lookup(m, k) {
        Some(j) => match j {
            Json::Str(s) => Some(s.clone()),
            _ => None,
        },
        None => None,
    }
}

/// Reads a required string field: an absent member is a `MissingField`
/// failure, a member of another JSON type an `InvalidTypeName` failure.
pub fn req_str(m: &Vec<(String, Json)>, k: &str) -> (r: Result<String, ErrorKind>)
    ensures
        r is Ok <==> opt_str_spec(m@, k@) is Some,
        r matches Ok(s) ==> opt_str_spec(m@, k@) == Some(s@),
        r matches Err(e) ==> if lookup_spec(m@, k@) is None {
            missing_field_err(e, k@)
        } else {
            type_err(e, k@)
        },
{
    match lookup(m, k) {
        Some(j) => match j {
            Json::Str(s) => Ok(s.clone()),
            _ => Err(invalid_type(k)),
        },
        None => Err(missing_field(k)),
    }
}

/// Reads a required string field under the looser reporting some decoders
/// use: any failure, absent or wrongly typed, is a `MissingField` failure.
pub fn req_str_m(m: &Vec<(String, Json)>, k: &str) -> (r: Result<String, ErrorKind>)
    ensures
        r is Ok <==> opt_str_spec(m@, k@) is Some,
        r matches Ok(s) ==> opt_str_spec(m@, k@) == Some(s@),
        r matches Err(e) ==> missing_field_err(e, k@),
{
    match lookup(m, k) {
        Some(j) => match j {
            Json::Str(s) => Ok(s.clone()),
            _ => Err(missing_field(k)),
        },
        None => Err(missing_field(k)),
    }
}

/// Whether every element of the array is a JSON string.
pub open spec fn str_list_ok(a: Seq<Json>) -> bool {
    forall|i: int| 0 <= i < a.len() ==> (#[trigger] a[i]) is Str
}

/// The characters of each element of an all-string array.
pub open spec fn str_list_vals(a: Seq<Json>) -> Seq<Seq<char>> {
    a.map_values(|j: Json| json_str_val(j))
}

/// Collects an all-string array into owned strings; any element of another
/// JSON type yields nothing.
pub fn str_vec_of(a: &Vec<Json>) -> (r: Option<Vec<String>>)
    ensures
        r is Some <==> str_list_ok(a@),
        r matches Some(v) ==> v.deep_view() == str_list_vals(a@),
{
    let mut out: Vec<String> = Vec::new();
    let mut i: usize = 0;
    while i < a.len()
        invariant
            0 <= i <= a.len(),
            out@.len() == i,
            forall|j: int| 0 <= j < i ==> (#[trigger] a@[j]) is Str,
            forall|j: int| 0 <= j < i ==> (#[trigger] out@[j])@ == json_str_val(a@[j]),
        decreases a.len() - i,
    {
        match &a[i] {
            Json::Str(s) => {
                out.push(s.clone());
            },
            _ => {
                return None;
            },
        }
        i = i + 1;
    }
    proof {
        assert(out.deep_view() =~= str_list_vals(a@));
    }
    Some(out)
}

/// The string list under key `k`: present only when the member exists, is
/// an array, and every element is a string.
pub open spec fn opt_str_list_spec(m: Seq<(String, Json)>, k: Seq<char>) -> Option<Seq<Seq<char>>> {
    match lookup_spec(m, k) {
        Some(j) => match j {
            Json::Array(a) => if str_list_ok(a@) {
                Some(str_list_vals(a@))
            } else {
                None
            },
            _ => None,
        },
        None => None,
    }
}

/// Reads an optional list-of-strings field.  A missing member, a member of
/// another JSON type, or a malformed element all yield nothing: optional
/// fields absorb malformed input rather than failing the record.
pub fn opt_str_list(m: &Vec<(String, Json)>, k: &str) -> (r: Option<Vec<String>>)
    ensures
        r is Some <==> opt_str_list_spec(m@, k@) is Some,
        r matches Some(v) ==> opt_str_list_spec(m@, k@) == Some(v.deep_view()),
{
    match lookup(m, k) {
        Some(j) => match j {
            Json::Array(a) => str_vec_of(a),
            _ => None,
        },
        None => None,
    }
}

/// Reads a required list-of-strings field: an absent member is a
/// `MissingField` failure; a member of another type, or an array holding a
/// non-string element, is an `InvalidTypeName` failure.
pub fn req_str_list(m: &Vec<(String, Json)>, k: &str) -> (r: Result<Vec<String>, ErrorKind>)
    ensures
        r is Ok <==> opt_str_list_spec(m@, k@) is Some,
        r matches Ok(v) ==> opt_str_list_spec(m@, k@) == Some(v.deep_view()),
        r matches Err(e) ==> if lookup_spec(m@, k@) is None {
            missing_field_err(e, k@)
        } else {
            type_err(e, k@)
        },
{
    match lookup(m, k) {
        Some(j) => match j {
            Json::Array(a) => match str_vec_of(a) {
                Some(v) => Ok(v),
                None => Err(invalid_type(k)),
            },
            _ => Err(invalid_type(k)),
        },
        None => Err(missing_field(k)),
    }
}

/// Reads a required list-of-strings field under looser reporting: an
/// absent member or one of another type is a `MissingField` failure; an
/// array holding a non-string element is an `InvalidTypeName` failure.
pub fn req_str_list_m(m: &Vec<(String, Json)>, k: &str) -> (r: Result<Vec<String>, ErrorKind>)
    ensures
        r is Ok <==> opt_str_list_spec(m@, k@) is Some,
        r matches Ok(v) ==> opt_str_list_spec(m@, k@) == Some(v.deep_view()),
        r matches Err(e) ==> match lookup_spec(m@, k@) {
            None => missing_field_err(e, k@),
            Some(j) => if j is Array {
                type_err(e, k@)
            } else {
                missing_field_err(e, k@)
            },
        },
{
    match lookup(m, k) {
        Some(j) => match j {
            Json::Array(a) => match str_vec_of(a) {
                Some(v) => Ok(v),
                None => Err(invalid_type(k)),
            },
            _ => Err(missing_field(k)),
        },
        None => Err(missing_field(k)),
    }
}

/// The unsigned count under key `k`, when it exists, is an integer, and
/// fits the platform's `usize`.
pub open spec fn opt_usize_spec(m: Seq<(String, Json)>, k: Seq<char>) -> Option<int> {
    match lookup_spec(m, k) {
        Some(j) => match json_as_u64(j) {
            Some(v) => if v <= usize::MAX as int {
                Some(v)
            } else {
                None
            },
            None => None,
        },
        None => None,
    }
}

/// Reads an optional unsigned count.  A value above `usize::MAX` is
/// treated as malformed rather than wrapped.
pub fn opt_usize(m: &Vec<(String, Json)>, k: &str) -> (r: Option<usize>)
    ensures
        r is Some <==> opt_usize_spec(m@, k@) is Some,
        r matches Some(n) ==> opt_usize_spec(m@, k@) == Some(n as int),
{
    match lookup(m, k) {
        Some(j) => match j {
            Json::Int(i) => {
                if *i >= 0 && *i as u64 <= usize::MAX as u64 {
                    Some(*i as usize)
                } else {
                    None
                }
            },
            Json::UInt(u) => {
                if *u <= usize::MAX as u64 {
                    Some(*u as usize)
                } else {
                    None
                }
            },
            _ => None,
        },
        None => None,
    }
}

/// Reads a required unsigned count: absent is a `MissingField` failure,
/// any other shape (or a value above `usize::MAX`) an `InvalidTypeName`
/// failure.
pub fn req_usize(m: &Vec<(String, Json)>, k: &str) -> (r: Result<usize, ErrorKind>)
    ensures
        r is Ok <==> opt_usize_spec(m@, k@) is Some,
        r matches Ok(n) ==> opt_usize_spec(m@, k@) == Some(n as int),
        r matches Err(e) ==> if lookup_spec(m@, k@) is None {
            missing_field_err(e, k@)
        } else {
            type_err(e, k@)
        },
{
    match lookup(m, k) {
        None => Err(missing_field(k)),
        Some(_) => match opt_usize(m, k) {
            Some(n) => Ok(n),
            None => Err(invalid_type(k)),
        },
    }
}

/// Reads a required unsigned count under looser reporting: every failure
/// is a `MissingField` failure.
pub fn req_usize_m(m: &Vec<(String, Json)>, k: &str) -> (r: Result<usize, ErrorKind>)
    ensures
        r is Ok <==> opt_usize_spec(m@, k@) is Some,
        r matches Ok(n) ==> opt_usize_spec(m@, k@) == Some(n as int),
        r matches Err(e) ==> missing_field_err(e, k@),
{
    match opt_usize(m, k) {
        Some(n) => Ok(n),
        None => Err(missing_field(k)),
    }
}

/// The signed 32-bit value under key `k`, when it exists, is an integer,
/// and fits `i32`.
pub open spec fn opt_i32_spec(m: Seq<(String, Json)>, k: Seq<char>) -> Option<int> {
    match lookup_spec(m, k) {
        Some(j) => match json_as_i64(j) {
            Some(v) => if i32::MIN as int <= v <= i32::MAX as int {
                Some(v)
            } else {
                None
            },
            None => None,
        },
        None => None,
    }
}

/// Reads an optional signed 32-bit count.  A value outside the `i32`
/// range is treated as malformed rather than wrapped.
pub fn opt_i32(m: &Vec<(String, Json)>, k: &str) -> (r: Option<i32>)
    ensures
        r is Some <==> opt_i32_spec(m@, k@) is Some,
        r matches Some(n) ==> opt_i32_spec(m@, k@) == Some(n as int),
{
    match lookup(m, k) {
        Some(j) => match j {
            Json::Int(i) => {
                if i32::MIN as i64 <= *i && *i <= i32::MAX as i64 {
                    Some(*i as i32)
                } else {
                    None
                }
            },
            _ => None,
        },
        None => None,
    }
}

/// Reads a required signed 32-bit count: absent is a `MissingField`
/// failure, any other shape an `InvalidTypeName` failure.
pub fn req_i32(m: &Vec<(String, Json)>, k: &str) -> (r: Result<i32, ErrorKind>)
    ensures
        r is Ok <==> opt_i32_spec(m@, k@) is Some,
        r matches Ok(n) ==> opt_i32_spec(m@, k@) == Some(n as int),
        r matches Err(e) ==> if lookup_spec(m@, k@) is None {
            missing_field_err(e, k@)
        } else {
            type_err(e, k@)
        },
{
    match lookup(m, k) {
        None => Err(missing_field(k)),
        Some(_) => match opt_i32(m, k) {
            Some(n) => Ok(n),
            None => Err(invalid_type(k)),
        },
    }
}

/// Reads a required signed 32-bit count under looser reporting: every
/// failure is a `MissingField` failure.
pub fn req_i32_m(m: &Vec<(String, Json)>, k: &str) -> (r: Result<i32, ErrorKind>)
    ensures
        r is Ok <==> opt_i32_spec(m@, k@) is Some,
        r matches Ok(n) ==> opt_i32_spec(m@, k@) == Some(n as int),
        r matches Err(e) ==> missing_field_err(e, k@),
{
    match opt_i32(m, k) {
        Some(n) => Ok(n),
        None => Err(missing_field(k)),
    }
}

/// The signed 64-bit value under key `k`.
pub open spec fn opt_i64_spec(m: Seq<(String, Json)>, k: Seq<char>) -> Option<int> {
    match lookup_spec(m, k) {
        Some(j) => json_as_i64(j),
        None => None,
    }
}

/// Reads a required signed 64-bit value: absent is a `MissingField`
/// failure, any other shape an `InvalidTypeName` failure.
pub fn req_i64(m: &Vec<(String, Json)>, k: &str) -> (r: Result<i64, ErrorKind>)
    ensures
        r is Ok <==> opt_i64_spec(m@, k@) is Some,
        r matches Ok(n) ==> opt_i64_spec(m@, k@) == Some(n as int),
        r matches Err(e) ==> if lookup_spec(m@, k@) is None {
            missing_field_err(e, k@)
        } else {
            type_err(e, k@)
        },
{
    match lookup(m, k) {
        None => Err(missing_field(k)),
        Some(j) => match j {
            Json::Int(i) => Ok(*i),
            _ => Err(invalid_type(k)),
        },
    }
}

/// The boolean under key `k`.
pub open spec fn opt_bool_spec(m: Seq<(String, Json)>, k: Seq<char>) -> Option<bool> {
    match lookup_spec(m, k) {
        Some(j) => match j {
            Json::Bool(b) => Some(b),
            _ => None,
        },
        None => None,
    }
}

/// Reads an optional boolean field.
pub fn opt_bool(m: &Vec<(String, Json)>, k: &str) -> (r: Option<bool>)
    ensures
        r == opt_bool_spec(m@, k@),
{
    match lookup(m, k) {
        Some(j) => match j {
            Json::Bool(b) => Some(*b),
            _ => None,
        },
        None => None,
    }
}

/// Reads a required boolean field under looser reporting: every failure is
/// a `MissingField` failure.
pub fn req_bool_m(m: &Vec<(String, Json)>, k: &str) -> (r: Result<bool, ErrorKind>)
    ensures
        r is Ok <==> opt_bool_spec(m@, k@) is Some,
        r matches Ok(b) ==> opt_bool_spec(m@, k@) == Some(b),
        r matches Err(e) ==> missing_field_err(e, k@),
{
    match opt_bool(m, k) {
        Some(b) => Ok(b),
        None => Err(missing_field(k)),
    }
}

/// Reads an optional field as a deep copy of whatever JSON value sits
/// there, shape unchecked.
pub fn opt_json(m: &Vec<(String, Json)>, k: &str) -> (r: Option<Json>)
    ensures
        r is Some <==> lookup_spec(m@, k@) is Some,
        r matches Some(j) ==> json_eq(j, lookup_spec(m@, k@)->Some_0),
{
    match lookup(m, k) {
        Some(j) => Some(j.duplicate()),
        None => None,
    }
}

/// Reads an optional field as a deep copy, kept only when it is a JSON
/// number of any kind.
pub fn opt_number(m: &Vec<(String, Json)>, k: &str) -> (r: Option<Json>)
    ensures
        r is Some <==> (lookup_spec(m@, k@) matches Some(j) && json_is_number(j)),
        r matches Some(j) ==> json_eq(j, lookup_spec(m@, k@)->Some_0),
{
    match lookup(m, k) {
        Some(j) => match j {
            Json::Int(_) | Json::UInt(_) | Json::NumText(_) => Some(j.duplicate()),
            _ => None,
        },
        None => None,
    }
}

/// Reads an optional field as a deep copy of its member list, kept only
/// when it is a JSON object.
pub fn opt_obj_members(m: &Vec<(String, Json)>, k: &str) -> (r: Option<Vec<(String, Json)>>)
    ensures
        r is Some <==> (lookup_spec(m@, k@) matches Some(j) && j is Object),
        r matches Some(v) ==> pairs_eq(v@, lookup_spec(m@, k@)->Some_0->Object_0@),
{
    match lookup(m, k) {
        Some(j) => match j {
            Json::Object(mm) => Some(duplicate_members(mm)),
            _ => None,
        },
        None => None,
    }
}


/// The index of the first element that fails the predicate, or the length
/// when none does.
pub open spec fn first_not(a: Seq<Json>, p: spec_fn(Json) -> bool) -> int
    decreases a.len(),
{
    if a.len() == 0 {
        0
    } else if !p(a[0]) {
        0
    } else {
        1 + first_not(a.drop_first(), p)
    }
}

/// When the elements before `i` pass the predicate and the one at `i`
/// fails it, `i` is the first failure.
pub proof fn lemma_first_not(a: Seq<Json>, p: spec_fn(Json) -> bool, i: int)
    requires
        0 <= i < a.len(),
        !p(a[i]),
        forall|j: int| 0 <= j < i ==> p(#[trigger] a[j]),
    ensures
        first_not(a, p) == i,
    decreases i,
{
    if i > 0 {
        lemma_first_not(a.drop_first(), p, i - 1);
    }
}

} // verus!
