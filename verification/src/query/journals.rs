//! Queries that target the `/journals` resource.

use vstd::prelude::*;
use vstd::string::*;
use crate::error::{ErrorKind, result_control_err};
use crate::query::works::{
    WorkListQuery, WorksCombiner, WorksIdentQuery, combined_route_spec, combined_route_str,
};
use crate::query::{Component, CrossrefRoute, opt_str_view};
use crate::strutil::{
    bool_str, dec_str, join_sep, join_strings, lemma_map_values_push, parse_bool, parse_bool_spec,
    parse_usize, parse_usize_spec, plus_for_space, push_bool, push_plus_for_space, push_u64,
    split_char, split_string, string_eq, usize_string,
};

verus! {

/// Paging and sorting for the `/journals` free-form route: any of a row
/// limit, a start offset, a sample flag, and a sort key.
#[derive(Debug, Clone, PartialEq, Eq)]
pub struct JournalResultControl {
    /// The row limit, rendered as `rows={n}`.
    pub limit: Option<usize>,
    /// The start offset, rendered as `offset={n}`.
    pub offset: Option<usize>,
    /// The sample flag, rendered as `sample={bool}`.
    pub sample: Option<bool>,
    /// The sort key, rendered as `sort={key}`.
    pub sort: Option<String>,
}

/// The rendered fragments of a journal result control, in their fixed
/// order: rows, offset, sample, sort; absent parts are skipped.
pub open spec fn jrc_parts(c: JournalResultControl) -> Seq<Seq<char>> {
    (match c.limit {
        Some(l) => seq!["rows="@ + dec_str(l as int)],
        None => Seq::<Seq<char>>::empty(),
    }) + (match c.offset {
        Some(o) => seq!["offset="@ + dec_str(o as int)],
        None => Seq::<Seq<char>>::empty(),
    }) + (match c.sample {
        Some(s) => seq!["sample="@ + bool_str(s)],
        None => Seq::<Seq<char>>::empty(),
    }) + (match c.sort {
        Some(s) => seq!["sort="@ + s@],
        None => Seq::<Seq<char>>::empty(),
    })
}

/// The wire rendering of a journal result control: its fragments joined
/// by `&`.
pub open spec fn jrc_string_spec(c: JournalResultControl) -> Seq<char> {
    join_sep(jrc_parts(c), "&"@)
}

/// The fields a result-control string parses to.  This is the
/// mathematical shadow of `JournalResultControl`, used by the parsing
/// contract.
pub struct JrcView {
    /// The parsed row limit.
    pub limit: Option<int>,
    /// The parsed offset.
    pub offset: Option<int>,
    /// The parsed sample flag.
    pub sample: Option<bool>,
    /// The parsed sort key.
    pub sort: Option<Seq<char>>,
}

/// Whether a control carries exactly the parsed fields.
pub open spec fn jrc_matches(c: JournalResultControl, v: JrcView) -> bool {
    &&& (match (c.limit, v.limit) {
        (Some(a), Some(b)) => a as int == b,
        (None, None) => true,
        _ => false,
    })
    &&& (match (c.offset, v.offset) {
        (Some(a), Some(b)) => a as int == b,
        (None, None) => true,
        _ => false,
    })
    &&& c.sample == v.sample
    &&& opt_str_view(c.sort) == v.sort
}

/// Applies one `key=value` part to the state being parsed: `rows` and
/// `offset` take a decimal count, `sample` a boolean, `sort` any text;
/// any other key, or a part without exactly one `=`, fails the parse.
pub open spec fn jrc_apply(st: JrcView, part: Seq<char>) -> Option<JrcView> {
    let kv = split_char(part, '=');
    if kv.len() != 2 {
        None
    } else {
        let k = kv[0];
        let v = kv[1];
        if k == "rows"@ {
            match parse_usize_spec(v) {
                Some(n) => Some(JrcView { limit: Some(n), ..st }),
                None => None,
            }
        } else if k == "offset"@ {
            match parse_usize_spec(v) {
                Some(n) => Some(JrcView { offset: Some(n), ..st }),
                None => None,
            }
        } else if k == "sample"@ {
            match parse_bool_spec(v) {
                Some(b) => Some(JrcView { sample: Some(b), ..st }),
                None => None,
            }
        } else if k == "sort"@ {
            Some(JrcView { sort: Some(v), ..st })
        } else {
            None
        }
    }
}

/// The state after parsing the first `i` parts.
pub open spec fn jrc_fold(parts: Seq<Seq<char>>, i: int) -> Option<JrcView>
    decreases i,
{
    if i <= 0 {
        Some(JrcView { limit: None, offset: None, sample: None, sort: None })
    } else {
        match jrc_fold(parts, i - 1) {
            Some(st) => jrc_apply(st, parts[i - 1]),
            None => None,
        }
    }
}

/// What parsing a result-control string yields: the text split on `&`,
/// each part applied in order; a later part overrides an earlier one with
/// the same key.
pub open spec fn jrc_parse(s: Seq<char>) -> Option<JrcView> {
    let parts = split_char(s, '&');
    jrc_fold(parts, parts.len() as int)
}

/// Once a part fails to apply, the whole parse fails.
pub proof fn lemma_jrc_fold_none(parts: Seq<Seq<char>>, i: int, j: int)
    requires
        0 <= i <= j,
        jrc_fold(parts, i) is None,
    ensures
        jrc_fold(parts, j) is None,
    decreases j - i,
{
    if i < j {
        lemma_jrc_fold_none(parts, i, j - 1);
    }
}

impl JournalResultControl {
    /// Builds a control from all four fields.
    pub fn new(
        limit: Option<usize>,
        offset: Option<usize>,
        sample: Option<bool>,
        sort: Option<String>,
    ) -> (r: Self)
        ensures
            r == (JournalResultControl { limit, offset, sample, sort }),
    {
        JournalResultControl { limit, offset, sample, sort }
    }

    /// A control with only a row limit.
    pub fn new_from_limit(limit: usize) -> (r: Self)
        ensures
            r == (
            JournalResultControl { limit: Some(limit), offset: None, sample: None, sort: None }),
    {
        JournalResultControl { limit: Some(limit), offset: None, sample: None, sort: None }
    }

    /// A control with only an offset.
    pub fn new_from_offset(offset: usize) -> (r: Self)
        ensures
            r == (
            JournalResultControl { limit: None, offset: Some(offset), sample: None, sort: None }),
    {
        JournalResultControl { limit: None, offset: Some(offset), sample: None, sort: None }
    }

    /// A control with only the sample flag.
    pub fn new_from_sample(sample: bool) -> (r: Self)
        ensures
            r == (
            JournalResultControl { limit: None, offset: None, sample: Some(sample), sort: None }),
    {
        JournalResultControl { limit: None, offset: None, sample: Some(sample), sort: None }
    }

    /// A control with only a sort key.
    pub fn new_from_sort(sort: String) -> (r: Self)
        ensures
            r == (JournalResultControl { limit: None, offset: None, sample: None, sort: Some(sort) }),
    {
        JournalResultControl { limit: None, offset: None, sample: None, sort: Some(sort) }
    }

    /// Sets the row limit.
    pub fn limit(self, limit: usize) -> (r: Self)
        ensures
            r == (JournalResultControl { limit: Some(limit), ..self }),
    {
        let mut s = self;
        s.limit = Some(limit);
        s
    }

    /// Sets the offset.
    pub fn offset(self, offset: usize) -> (r: Self)
        ensures
            r == (JournalResultControl { offset: Some(offset), ..self }),
    {
        let mut s = self;
        s.offset = Some(offset);
        s
    }

    /// Sets the sample flag.
    pub fn sample(self, sample: bool) -> (r: Self)
        ensures
            r == (JournalResultControl { sample: Some(sample), ..self }),
    {
        let mut s = self;
        s.sample = Some(sample);
        s
    }

    /// Sets the sort key.
    pub fn sort(self, sort: String) -> (r: Self)
        ensures
            r == (JournalResultControl { sort: Some(sort), ..self }),
    {
        let mut s = self;
        s.sort = Some(sort);
        s
    }

    /// Renders the control for the wire, as `jrc_string_spec` describes.
    pub fn to_string(&self) -> (r: String)
        ensures
            r@ == jrc_string_spec(*self),
    {
        let ghost s1: Seq<Seq<char>> = match self.limit {
            Some(l) => seq!["rows="@ + dec_str(l as int)],
            None => Seq::<Seq<char>>::empty(),
        };
        let ghost s2: Seq<Seq<char>> = match self.offset {
            Some(o) => seq!["offset="@ + dec_str(o as int)],
            None => Seq::<Seq<char>>::empty(),
        };
        let ghost s3: Seq<Seq<char>> = match self.sample {
            Some(s) => seq!["sample="@ + bool_str(s)],
            None => Seq::<Seq<char>>::empty(),
        };
        let ghost s4: Seq<Seq<char>> = match &self.sort {
            Some(s) => seq!["sort="@ + s@],
            None => Seq::<Seq<char>>::empty(),
        };
        let mut parts: Vec<String> = Vec::new();
        if let Some(l) = &self.limit {
            let mut s = String::from_str("rows=");
            push_u64(&mut s, *l as u64);
            proof {
                lemma_map_values_push(parts@, s);
            }
            parts.push(s);
        }
        proof {
            assert(parts@.map_values(|p: String| p@) =~= s1);
        }
        if let Some(o) = &self.offset {
            let mut s = String::from_str("offset=");
            push_u64(&mut s, *o as u64);
            proof {
                lemma_map_values_push(parts@, s);
                assert(s1.push(s@) =~= s1 + s2);
            }
            parts.push(s);
        }
        proof {
            assert(parts@.map_values(|p: String| p@) =~= s1 + s2);
        }
        if let Some(b) = &self.sample {
            let mut s = String::from_str("sample=");
            push_bool(&mut s, *b);
            proof {
                lemma_map_values_push(parts@, s);
                assert((s1 + s2).push(s@) =~= s1 + s2 + s3);
            }
            parts.push(s);
        }
        proof {
            assert(parts@.map_values(|p: String| p@) =~= s1 + s2 + s3);
        }
        if let Some(k) = &self.sort {
            let mut s = String::from_str("sort=");
            s.append(k.as_str());
            proof {
                lemma_map_values_push(parts@, s);
                assert((s1 + s2 + s3).push(s@) =~= s1 + s2 + s3 + s4);
            }
            parts.push(s);
        }
        proof {
            assert(parts@.map_values(|p: String| p@) =~= s1 + s2 + s3 + s4);
            assert(s1 + s2 + s3 + s4 == jrc_parts(*self));
        }
        join_strings(&parts, "&")
    }

    /// Parses a result-control string back into a typed control, as
    /// `jrc_parse` describes.  An unparsable string is an
    /// `InvalidResultControl` failure carrying the whole input.
    pub fn try_from(value: String) -> (r: Result<JournalResultControl, ErrorKind>)
        ensures
            r is Ok <==> jrc_parse(value@) is Some,
            r matches Ok(c) ==> jrc_matches(c, jrc_parse(value@)->Some_0),
            r matches Err(e) ==> result_control_err(e, value@),
    {
        let parts = split_string(value.as_str(), '&');
        let ghost gparts = split_char(value@, '&');
        let mut limit: Option<usize> = None;
        let mut offset: Option<usize> = None;
        let mut sample: Option<bool> = None;
        let mut sort: Option<String> = None;
        let mut i: usize = 0;
        while i < parts.len()
            invariant
                0 <= i <= parts.len(),
                gparts == split_char(value@, '&'),
                parts.deep_view() == gparts,
                gparts.len() == parts.len(),
                jrc_fold(gparts, i as int) matches Some(st) && jrc_matches(
                    JournalResultControl { limit, offset, sample, sort },
                    st,
                ),
            decreases parts.len() - i,
        {
            let kv = split_string(parts[i].as_str(), '=');
            proof {
                assert(parts.deep_view()[i as int] == parts@[i as int]@);
            }
            if kv.len() != 2 {
                proof {
                    assert(jrc_apply(jrc_fold(gparts, i as int)->Some_0, gparts[i as int]) is None);
                    assert(jrc_fold(gparts, i as int + 1) is None);
                    lemma_jrc_fold_none(gparts, i as int + 1, gparts.len() as int);
                }
                return Err(ErrorKind::InvalidResultControl { error: value });
            }
            proof {
                assert(kv.deep_view()[0] == kv@[0]@);
                assert(kv.deep_view()[1] == kv@[1]@);
            }
            if string_eq(&kv[0], "rows") {
                match parse_usize(kv[1].as_str()) {
                    Some(n) => {
                        limit = Some(n);
                    },
                    None => {
                        proof {
                            assert(jrc_apply(
                                jrc_fold(gparts, i as int)->Some_0,
                                gparts[i as int],
                            ) is None);
                            assert(jrc_fold(gparts, i as int + 1) is None);
                            lemma_jrc_fold_none(gparts, i as int + 1, gparts.len() as int);
                        }
                        return Err(ErrorKind::InvalidResultControl { error: value });
                    },
                }
            } else if string_eq(&kv[0], "offset") {
                match parse_usize(kv[1].as_str()) {
                    Some(n) => {
                        offset = Some(n);
                    },
                    None => {
                        proof {
                            assert(jrc_apply(
                                jrc_fold(gparts, i as int)->Some_0,
                                gparts[i as int],
                            ) is None);
                            assert(jrc_fold(gparts, i as int + 1) is None);
                            lemma_jrc_fold_none(gparts, i as int + 1, gparts.len() as int);
                        }
                        return Err(ErrorKind::InvalidResultControl { error: value });
                    },
                }
            } else if string_eq(&kv[0], "sample") {
                match parse_bool(kv[1].as_str()) {
                    Some(b) => {
                        sample = Some(b);
                    },
                    None => {
                        proof {
                            assert(jrc_apply(
                                jrc_fold(gparts, i as int)->Some_0,
                                gparts[i as int],
                            ) is None);
                            assert(jrc_fold(gparts, i as int + 1) is None);
                            lemma_jrc_fold_none(gparts, i as int + 1, gparts.len() as int);
                        }
                        return Err(ErrorKind::InvalidResultControl { error: value });
                    },
                }
            } else if string_eq(&kv[0], "sort") {
                sort = Some(kv[1].clone());
            } else {
                proof {
                    assert(jrc_apply(jrc_fold(gparts, i as int)->Some_0, gparts[i as int]) is None);
                    assert(jrc_fold(gparts, i as int + 1) is None);
                    lemma_jrc_fold_none(gparts, i as int + 1, gparts.len() as int);
                }
                return Err(ErrorKind::InvalidResultControl { error: value });
            }
            i = i + 1;
        }
        Ok(JournalResultControl { limit, offset, sample, sort })
    }
}

/// Targets the `/journals` resource: a journal by identifier, a free-form
/// query, or the works of one journal.
#[derive(Debug, Clone)]
pub enum Journals {
    /// Target a specific journal at `/journals/{id}`.
    Identifier(String),
    /// Target the works of a specific journal at `/journals/{id}/works?...`.
    Works(WorksIdentQuery),
    /// A free-form query at `/journals?query=...`.
    Query(String, Option<JournalResultControl>),
}

impl CrossrefRoute for Journals {
    /// The free-form route reproduces an upstream quirk: the path keeps
    /// its trailing separator only when a result control is present
    /// (`/journals?query=...` without one, `/journals/?...` with one).
    open spec fn route_spec(&self) -> Seq<char> {
        match self {
            Journals::Identifier(s) => "/journals/"@ + s@,
            Journals::Query(q, rc) => match rc {
                Some(c) => if q@.len() == 0 {
                    "/journals/?"@ + jrc_string_spec(*c)
                } else {
                    "/journals/?query="@ + plus_for_space(q@) + "&"@ + jrc_string_spec(*c)
                },
                None => "/journals?query="@ + plus_for_space(q@),
            },
            Journals::Works(ident) => combined_route_spec(Component::Journals, *ident),
        }
    }

    fn route(&self) -> (r: Result<String, ErrorKind>) {
        match self {
            Journals::Identifier(id) => {
                let mut s = String::from_str("/journals/");
                s.append(id.as_str());
                Ok(s)
            },
            Journals::Query(q, rc) => match rc {
                Some(c) => {
                    if q.as_str().is_empty() {
                        let mut s = String::from_str("/journals/?");
                        let t = c.to_string();
                        s.append(t.as_str());
                        Ok(s)
                    } else {
                        let mut s = String::from_str("/journals/?query=");
                        push_plus_for_space(&mut s, q.as_str());
                        s.append("&");
                        let t = c.to_string();
                        s.append(t.as_str());
                        Ok(s)
                    }
                },
                None => {
                    let mut s = String::from_str("/journals?query=");
                    push_plus_for_space(&mut s, q.as_str());
                    Ok(s)
                },
            },
            Journals::Works(ident) => combined_route_str(&Component::Journals, ident),
        }
    }
}

impl WorksCombiner for Journals {
    open spec fn primary_component_spec() -> Component {
        Component::Journals
    }

    open spec fn wraps_ident(r: Self, id: Seq<char>, q: crate::query::works::WorksQuery) -> bool {
        &&& r matches Journals::Works(iq)
        &&& iq.id@ == id
        &&& iq.query == q
    }

    fn primary_component() -> (c: Component) {
        Component::Journals
    }

    fn ident_query(ident: WorksIdentQuery) -> (r: Self) {
        Journals::Works(ident)
    }

    fn combined_route(ident: &WorksIdentQuery) -> (r: Result<String, ErrorKind>) {
        combined_route_str(&Component::Journals, ident)
    }

    fn work_list_query(ident: WorksIdentQuery) -> (r: WorkListQuery) {
        WorkListQuery::Combined { primary_component: Component::Journals, ident }
    }
}

} // verus!
