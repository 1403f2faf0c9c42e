//! The route/parameter compiler: a typed algebra of query intents that
//! serializes deterministically into the query-string syntax the Crossref
//! service expects.

use vstd::prelude::*;
use vstd::string::*;
use crate::error::ErrorKind;
use crate::strutil::{
    collapse_spaces, dec_str, join_sep, join_strings, push_char, push_collapsed, push_u64,
    usize_string,
};

pub mod facet;
pub mod funders;
pub mod journals;
pub mod members;
pub mod prefixes;
pub mod types;
pub mod works;

use crate::query::facet::FacetCount;
use crate::query::funders::Funders;
use crate::query::journals::Journals;
use crate::query::members::Members;
use crate::query::prefixes::Prefixes;
use crate::query::types::Types;
use crate::query::works::{WorkListQuery, Works, WorksQuery};

verus! {

/// The view of an optional owned string.
pub open spec fn opt_str_view(v: Option<String>) -> Option<Seq<char>> {
    match v {
        Some(s) => Some(s@),
        None => None,
    }
}

/// A fragment inside a multi-value parameter: `key` alone, or `key:value`.
pub open spec fn fragment_spec(k: Seq<char>, v: Option<Seq<char>>) -> Seq<char> {
    match v {
        Some(val) => k + seq![':'] + val,
        None => k,
    }
}

/// A top-level query parameter: `key` alone, or `key=value`.
pub open spec fn kv_param_spec(k: Seq<char>, v: Option<Seq<char>>) -> Seq<char> {
    match v {
        Some(val) => k + seq!['='] + val,
        None => k,
    }
}

/// Joins a key and an optional value with `:`, as `fragment_spec`
/// describes.
pub fn make_fragment(k: String, v: Option<String>) -> (f: String)
    ensures
        f@ == fragment_spec(k@, opt_str_view(v)),
{
    match v {
        Some(val) => {
            let mut s = k;
            push_char(&mut s, ':');
            s.append(val.as_str());
            proof {
                assert(k@ + seq![':'] + val@ =~= fragment_spec(k@, opt_str_view(Some(val))));
            }
            s
        },
        None => k,
    }
}

/// Joins a key and an optional value with `=`, as `kv_param_spec`
/// describes.
pub fn make_param(k: String, v: Option<String>) -> (p: String)
    ensures
        p@ == kv_param_spec(k@, opt_str_view(v)),
{
    match v {
        Some(val) => {
            let mut s = k;
            push_char(&mut s, '=');
            s.append(val.as_str());
            proof {
                assert(k@ + seq!['='] + val@ =~= kv_param_spec(k@, opt_str_view(Some(val))));
            }
            s
        },
        None => k,
    }
}

/// A key/value pair used inside a multi-value query-string parameter.
pub trait ParamFragment {
    /// The key of the fragment, as the contracts state it.
    spec fn key_spec(&self) -> Seq<char>;

    /// The value of the fragment, if any, as the contracts state it.
    spec fn value_spec(&self) -> Option<Seq<char>>;

    /// The key, or name, of the fragment.
    fn key(&self) -> (k: String)
        ensures
            k@ == self.key_spec(),
    ;

    /// The value of the fragment, if any.
    fn value(&self) -> (v: Option<String>)
        ensures
            opt_str_view(v) == self.value_spec(),
    ;

    /// Key and value concatenated with `:`.
    fn fragment(&self) -> (f: String)
        ensures
            f@ == fragment_spec(self.key_spec(), self.value_spec()),
    ;
}

/// Marks the fragments that may appear inside the single `filter=`
/// parameter.
pub trait Filter: ParamFragment {
}

/// A parameter of the query string of a request.
pub trait CrossrefQueryParam {
    /// The key name of the parameter, as the contracts state it.
    spec fn param_key_spec(&self) -> Seq<char>;

    /// The value of the parameter, if any, as the contracts state it.
    spec fn param_value_spec(&self) -> Option<Seq<char>>;

    /// The full parameter, as the contracts state it.
    spec fn param_spec(&self) -> Seq<char>;

    /// The key name of the parameter in the query string.
    fn param_key(&self) -> (k: String)
        ensures
            k@ == self.param_key_spec(),
    ;

    /// The value of the parameter, if any.
    fn param_value(&self) -> (v: Option<String>)
        ensures
            opt_str_view(v) == self.param_value_spec(),
    ;

    /// The full parameter for the query string.
    fn param(&self) -> (p: String)
        ensures
            p@ == self.param_spec(),
    ;
}

/// An element that renders a part of the request path.
pub trait CrossrefRoute {
    /// The route, as the contracts state it.
    spec fn route_spec(&self) -> Seq<char>;

    /// Renders the route for the Crossref API.  Compilation of a typed
    /// query is total: the `Result` shape is kept for callers, and every
    /// implementation returns `Ok`.
    fn route(&self) -> (r: Result<String, ErrorKind>)
        ensures
            r matches Ok(s) && s@ == self.route_spec(),
    ;
}


/// A unified read interface over the parameters a query carries.
pub trait CrossrefParams {
    /// The filter kind this query narrows with.
    type Filter: Filter;

    /// The free-form search terms, as the contracts state them.
    spec fn query_terms_spec(&self) -> Seq<String>;

    /// The filters, as the contracts state them.
    spec fn filters_spec(&self) -> Seq<Self::Filter>;

    /// The sort field, as the contracts state it.
    spec fn sort_spec(&self) -> Option<Sort>;

    /// The order, as the contracts state it.
    spec fn order_spec(&self) -> Option<Order>;

    /// The facet requests, as the contracts state them.
    spec fn facets_spec(&self) -> Seq<FacetCount>;

    /// The result control, as the contracts state it.
    spec fn result_control_spec(&self) -> Option<ResultControl>;

    /// All free-form search terms.
    fn query_terms(&self) -> (r: &[String])
        ensures
            r@ == self.query_terms_spec(),
    ;

    /// The filters this query narrows with.
    fn filters(&self) -> (r: &[Self::Filter])
        ensures
            r@ == self.filters_spec(),
    ;

    /// The sort field, if set.
    fn sort(&self) -> (r: Option<&Sort>)
        ensures
            match r {
                Some(s) => self.sort_spec() == Some(*s),
                None => self.sort_spec() is None,
            },
    ;

    /// The order, if set.
    fn order(&self) -> (r: Option<&Order>)
        ensures
            match r {
                Some(o) => self.order_spec() == Some(*o),
                None => self.order_spec() is None,
            },
    ;

    /// All facet requests of this query.
    fn facets(&self) -> (r: &[FacetCount])
        ensures
            r@ == self.facets_spec(),
    ;

    /// The configured result control, if any.
    fn result_control(&self) -> (r: Option<&ResultControl>)
        ensures
            match r {
                Some(c) => self.result_control_spec() == Some(*c),
                None => self.result_control_spec() is None,
            },
    ;
}

/// The visibility classes Crossref knows for reference lists.
#[derive(Debug, PartialEq, Eq, Clone)]
pub enum Visibility {
    /// Openly available reference lists.
    Open,
    /// Reference lists limited to Metadata Plus subscribers.
    Limited,
    /// Closed reference lists.
    Closed,
}

impl Visibility {
    /// The wire identifier, as the contracts state it.
    pub open spec fn as_str_spec(&self) -> Seq<char> {
        match self {
            Visibility::Open => "open"@,
            Visibility::Limited => "limited"@,
            Visibility::Closed => "closed"@,
        }
    }

    /// The wire identifier of the visibility class.
    pub fn as_str(&self) -> (r: &str)
        ensures
            r@ == self.as_str_spec(),
    {
        match self {
            Visibility::Open => "open",
            Visibility::Limited => "limited",
            Visibility::Closed => "closed",
        }
    }
}

/// The direction results are sorted in.
#[derive(Debug, PartialEq, Eq, Clone)]
pub enum Order {
    /// List results in ascending order.
    Asc,
    /// List results in descending order.
    Desc,
}

impl Order {
    /// The wire identifier, as the contracts state it.
    pub open spec fn as_str_spec(&self) -> Seq<char> {
        match self {
            Order::Asc => "asc"@,
            Order::Desc => "desc"@,
        }
    }

    /// The wire identifier of the order.
    pub fn as_str(&self) -> (r: &str)
        ensures
            r@ == self.as_str_spec(),
    {
        match self {
            Order::Asc => "asc",
            Order::Desc => "desc",
        }
    }
}

impl CrossrefQueryParam for Order {
    open spec fn param_key_spec(&self) -> Seq<char> {
        "order"@
    }

    open spec fn param_value_spec(&self) -> Option<Seq<char>> {
        Some(self.as_str_spec())
    }

    open spec fn param_spec(&self) -> Seq<char> {
        kv_param_spec(self.param_key_spec(), self.param_value_spec())
    }

    fn param_key(&self) -> (k: String) {
        String::from_str("order")
    }

    fn param_value(&self) -> (v: Option<String>) {
        Some(String::from_str(self.as_str()))
    }

    fn param(&self) -> (p: String) {
        make_param(self.param_key(), self.param_value())
    }
}

/// The field a list response is sorted by.
#[derive(Debug, Clone)]
pub enum Sort {
    /// Sort by relevance score.
    Score,
    /// Sort by the date of the most recent change to metadata.
    Updated,
    /// Sort by the time of the most recent deposit.
    Deposited,
    /// Sort by the time of the most recent index run.
    Indexed,
    /// Sort by publication date.
    Published,
    /// Sort by print publication date.
    PublishedPrint,
    /// Sort by online publication date.
    PublishedOnline,
    /// Sort by issued date, the earliest known publication date.
    Issued,
    /// Sort by how often the DOI is referenced by other Crossref DOIs.
    IsReferencedByCount,
    /// Sort by the number of references the work itself deposits.
    ReferenceCount,
    /// Sort by the creation date of the record.
    Created,
    /// Sort by relevance.
    Relevance,
}

impl Sort {
    /// The wire identifier, as the contracts state it.
    pub open spec fn as_str_spec(&self) -> Seq<char> {
        match self {
            Sort::Score => "score"@,
            Sort::Updated => "updated"@,
            Sort::Deposited => "deposited"@,
            Sort::Indexed => "indexed"@,
            Sort::Published => "published"@,
            Sort::PublishedPrint => "published-print"@,
            Sort::PublishedOnline => "published-online"@,
            Sort::Issued => "issued"@,
            Sort::IsReferencedByCount => "is-reference-by-count"@,
            Sort::ReferenceCount => "reference-count"@,
            Sort::Created => "created"@,
            Sort::Relevance => "relevance"@,
        }
    }

    /// The wire identifier of the sort field.
    pub fn as_str(&self) -> (r: &str)
        ensures
            r@ == self.as_str_spec(),
    {
        match self {
            Sort::Score => "score",
            Sort::Updated => "updated",
            Sort::Deposited => "deposited",
            Sort::Indexed => "indexed",
            Sort::Published => "published",
            Sort::PublishedPrint => "published-print",
            Sort::PublishedOnline => "published-online",
            Sort::Issued => "issued",
            Sort::IsReferencedByCount => "is-reference-by-count",
            Sort::ReferenceCount => "reference-count",
            Sort::Created => "created",
            Sort::Relevance => "relevance",
        }
    }
}

impl CrossrefQueryParam for Sort {
    open spec fn param_key_spec(&self) -> Seq<char> {
        "sort"@
    }

    open spec fn param_value_spec(&self) -> Option<Seq<char>> {
        Some(self.as_str_spec())
    }

    open spec fn param_spec(&self) -> Seq<char> {
        kv_param_spec(self.param_key_spec(), self.param_value_spec())
    }

    fn param_key(&self) -> (k: String) {
        String::from_str("sort")
    }

    fn param_value(&self) -> (v: Option<String>) {
        Some(String::from_str(self.as_str()))
    }

    fn param(&self) -> (p: String) {
        make_param(self.param_key(), self.param_value())
    }
}

/// How many items Crossref returns and where it starts.
#[derive(Debug, Clone)]
pub enum ResultControl {
    /// Limits the returned items per page.
    Rows(usize),
    /// The offset where Crossref begins to retrieve items.
    Offset(usize),
    /// A row limit per page together with a starting offset.
    RowsOffset {
        /// The row limit.
        rows: usize,
        /// Where to start.
        offset: usize,
    },
    /// Requests random results.
    Sample(usize),
}

impl CrossrefQueryParam for ResultControl {
    open spec fn param_key_spec(&self) -> Seq<char> {
        match self {
            ResultControl::Rows(_) => "rows"@,
            ResultControl::Offset(_) => "offset"@,
            ResultControl::RowsOffset { rows, offset } => "rows="@ + dec_str(*rows as int)
                + "&offset="@ + dec_str(*offset as int),
            ResultControl::Sample(_) => "sample"@,
        }
    }

    open spec fn param_value_spec(&self) -> Option<Seq<char>> {
        match self {
            ResultControl::Rows(r) => Some(dec_str(*r as int)),
            ResultControl::Offset(r) => Some(dec_str(*r as int)),
            ResultControl::Sample(r) => Some(dec_str(*r as int)),
            ResultControl::RowsOffset { .. } => None,
        }
    }

    open spec fn param_spec(&self) -> Seq<char> {
        kv_param_spec(self.param_key_spec(), self.param_value_spec())
    }

    fn param_key(&self) -> (k: String) {
        match self {
            ResultControl::Rows(_) => String::from_str("rows"),
            ResultControl::Offset(_) => String::from_str("offset"),
            ResultControl::RowsOffset { rows, offset } => {
                let mut s = String::from_str("rows=");
                push_u64(&mut s, *rows as u64);
                s.append("&offset=");
                push_u64(&mut s, *offset as u64);
                proof {
                    assert("rows="@ + dec_str(*rows as int) + "&offset="@ + dec_str(*offset as int)
                        =~= self.param_key_spec());
                }
                s
            },
            ResultControl::Sample(_) => String::from_str("sample"),
        }
    }

    fn param_value(&self) -> (v: Option<String>) {
        match self {
            ResultControl::Rows(r) => Some(usize_string(*r)),
            ResultControl::Offset(r) => Some(usize_string(*r)),
            ResultControl::Sample(r) => Some(usize_string(*r)),
            ResultControl::RowsOffset { .. } => None,
        }
    }

    fn param(&self) -> (p: String) {
        make_param(self.param_key(), self.param_value())
    }
}

/// The major resource components of the Crossref API.
#[derive(Debug, Clone)]
pub enum Component {
    /// The `/works` component: journal articles, books, and so on.
    Works,
    /// The `/funders` component: the funder registry.
    Funders,
    /// The `/prefixes` component: DOI owner prefixes.
    Prefixes,
    /// The `/members` component: Crossref members, mostly publishers.
    Members,
    /// The `/types` component: valid work types.
    Types,
    /// The `/journals` component: journals in the Crossref database.
    Journals,
}

impl Component {
    /// The wire identifier, as the contracts state it.
    pub open spec fn as_str_spec(&self) -> Seq<char> {
        match self {
            Component::Works => "works"@,
            Component::Funders => "funders"@,
            Component::Prefixes => "prefixes"@,
            Component::Members => "members"@,
            Component::Types => "types"@,
            Component::Journals => "journals"@,
        }
    }

    /// The identifier for the component route.
    pub fn as_str(&self) -> (r: &str)
        ensures
            r@ == self.as_str_spec(),
    {
        match self {
            Component::Works => "works",
            Component::Funders => "funders",
            Component::Prefixes => "prefixes",
            Component::Members => "members",
            Component::Types => "types",
            Component::Journals => "journals",
        }
    }
}

impl CrossrefRoute for Component {
    open spec fn route_spec(&self) -> Seq<char> {
        seq!['/'] + self.as_str_spec()
    }

    fn route(&self) -> (r: Result<String, ErrorKind>) {
        let mut s = String::new();
        push_char(&mut s, '/');
        s.append(self.as_str());
        Ok(s)
    }
}

/// A list of filters renders as the single `filter=` parameter whose value
/// is every fragment joined by `,`, in insertion order.
pub open spec fn filter_list_value_spec<T: Filter>(filters: Seq<T>) -> Seq<char> {
    join_sep(
        filters.map_values(|t: T| fragment_spec(t.key_spec(), t.value_spec())),
        ","@,
    )
}

impl<T: Filter> CrossrefQueryParam for Vec<T> {
    open spec fn param_key_spec(&self) -> Seq<char> {
        "filter"@
    }

    open spec fn param_value_spec(&self) -> Option<Seq<char>> {
        Some(filter_list_value_spec(self@))
    }

    open spec fn param_spec(&self) -> Seq<char> {
        kv_param_spec(self.param_key_spec(), self.param_value_spec())
    }

    fn param_key(&self) -> (k: String) {
        String::from_str("filter")
    }

    fn param_value(&self) -> (v: Option<String>) {
        let ghost gfrags = self@.map_values(
            |t: T| fragment_spec(t.key_spec(), t.value_spec()),
        );
        let mut frags: Vec<String> = Vec::new();
        let mut i: usize = 0;
        while i < self.len()
            invariant
                0 <= i <= self.len(),
                gfrags == self@.map_values(|t: T| fragment_spec(t.key_spec(), t.value_spec())),
                gfrags.len() == self.len(),
                frags@.len() == i,
                forall|j: int| 0 <= j < i ==> (#[trigger] frags@[j])@ == gfrags[j],
            decreases self.len() - i,
        {
            let f = self[i].fragment();
            frags.push(f);
            i = i + 1;
        }
        let joined = join_strings(&frags, ",");
        proof {
            assert(frags@.map_values(|p: String| p@) =~= gfrags);
        }
        Some(joined)
    }

    fn param(&self) -> (p: String) {
        make_param(self.param_key(), self.param_value())
    }
}

/// Formats one topic for Crossref: every whitespace run becomes a single
/// `+`, as `collapse_spaces` describes.
pub fn format_query(topic: &str) -> (r: String)
    ensures
        r@ == collapse_spaces(topic@),
{
    let mut s = String::new();
    push_collapsed(&mut s, topic);
    s
}

/// Several topics formatted individually and joined by `+`.
pub open spec fn format_queries_spec(topics: Seq<Seq<char>>) -> Seq<char> {
    join_sep(topics.map_values(|t: Seq<char>| collapse_spaces(t)), "+"@)
}

/// Formats the topics of a query, as `format_queries_spec` describes.
pub fn format_queries(topics: &Vec<String>) -> (r: String)
    ensures
        r@ == format_queries_spec(topics.deep_view()),
{
    let mut parts: Vec<String> = Vec::new();
    let mut i: usize = 0;
    while i < topics.len()
        invariant
            0 <= i <= topics.len(),
            parts@.len() == i,
            forall|j: int|
                0 <= j < i ==> (#[trigger] parts@[j])@ == collapse_spaces(topics.deep_view()[j]),
        decreases topics.len() - i,
    {
        let f = format_query(topics[i].as_str());
        parts.push(f);
        i = i + 1;
    }
    let joined = join_strings(&parts, "+");
    proof {
        assert(parts@.map_values(|p: String| p@) =~= topics.deep_view().map_values(
            |t: Seq<char>| collapse_spaces(t),
        ));
    }
    joined
}


/// Bundles every Crossref endpoint a query can target.
#[derive(Debug, Clone)]
pub enum ResourceComponent {
    /// A query against `/works`.
    Works(Works),
    /// A query against `/funders`.
    Funders(Funders),
    /// A query against `/prefixes`.
    Prefixes(Prefixes),
    /// A query against `/members`.
    Members(Members),
    /// A query against `/types`.
    Types(Types),
    /// A query against `/journals`.
    Journals(Journals),
}

impl ResourceComponent {
    /// The primary component, as the contracts state it.
    pub open spec fn primary_component_spec(&self) -> Component {
        match self {
            ResourceComponent::Works(_) => Component::Works,
            ResourceComponent::Funders(_) => Component::Funders,
            ResourceComponent::Prefixes(_) => Component::Prefixes,
            ResourceComponent::Members(_) => Component::Members,
            ResourceComponent::Types(_) => Component::Types,
            ResourceComponent::Journals(_) => Component::Journals,
        }
    }

    /// The starting component in the route `/{primary_component}/{id}/works`.
    pub fn primary_component(&self) -> (c: Component)
        ensures
            c == self.primary_component_spec(),
    {
        match self {
            ResourceComponent::Works(_) => Component::Works,
            ResourceComponent::Funders(_) => Component::Funders,
            ResourceComponent::Prefixes(_) => Component::Prefixes,
            ResourceComponent::Members(_) => Component::Members,
            ResourceComponent::Types(_) => Component::Types,
            ResourceComponent::Journals(_) => Component::Journals,
        }
    }
}

impl CrossrefRoute for ResourceComponent {
    open spec fn route_spec(&self) -> Seq<char> {
        match self {
            ResourceComponent::Works(c) => c.route_spec(),
            ResourceComponent::Funders(c) => c.route_spec(),
            ResourceComponent::Prefixes(c) => c.route_spec(),
            ResourceComponent::Members(c) => c.route_spec(),
            ResourceComponent::Types(c) => c.route_spec(),
            ResourceComponent::Journals(c) => c.route_spec(),
        }
    }

    fn route(&self) -> (r: Result<String, ErrorKind>) {
        match self {
            ResourceComponent::Works(c) => c.route(),
            ResourceComponent::Funders(c) => c.route(),
            ResourceComponent::Prefixes(c) => c.route(),
            ResourceComponent::Members(c) => c.route(),
            ResourceComponent::Types(c) => c.route(),
            ResourceComponent::Journals(c) => c.route(),
        }
    }
}

/// The root capability: a value that compiles to a full request URL and
/// knows which resource component it targets.
pub trait CrossrefQuery: CrossrefRoute + Clone + Sized {
    /// The targeted resource component, as the contracts state it.
    spec fn resource_component_spec(self) -> ResourceComponent;

    /// The resource component endpoint this route targets.
    fn resource_component(self) -> (r: ResourceComponent)
        ensures
            r == self.resource_component_spec(),
    ;

    /// The full request URL: the base path followed by the route.
    fn to_url(&self, base_path: &str) -> (r: Result<String, ErrorKind>)
        ensures
            r matches Ok(s) && s@ == base_path@ + self.route_spec(),
    ;
}

impl CrossrefQuery for ResourceComponent {
    open spec fn resource_component_spec(self) -> ResourceComponent {
        self
    }

    fn resource_component(self) -> (r: ResourceComponent) {
        self
    }

    fn to_url(&self, base_path: &str) -> (r: Result<String, ErrorKind>) {
        let rt = match self.route() {
            Ok(s) => s,
            Err(e) => {
                return Err(e);
            },
        };
        let mut s = base_path.to_owned();
        s.append(rt.as_str());
        Ok(s)
    }
}

impl CrossrefQuery for Works {
    open spec fn resource_component_spec(self) -> ResourceComponent {
        ResourceComponent::Works(self)
    }

    fn resource_component(self) -> (r: ResourceComponent) {
        ResourceComponent::Works(self)
    }

    fn to_url(&self, base_path: &str) -> (r: Result<String, ErrorKind>) {
        let rt = match self.route() {
            Ok(s) => s,
            Err(e) => {
                return Err(e);
            },
        };
        let mut s = base_path.to_owned();
        s.append(rt.as_str());
        Ok(s)
    }
}

impl CrossrefQuery for Funders {
    open spec fn resource_component_spec(self) -> ResourceComponent {
        ResourceComponent::Funders(self)
    }

    fn resource_component(self) -> (r: ResourceComponent) {
        ResourceComponent::Funders(self)
    }

    fn to_url(&self, base_path: &str) -> (r: Result<String, ErrorKind>) {
        let rt = match self.route() {
            Ok(s) => s,
            Err(e) => {
                return Err(e);
            },
        };
        let mut s = base_path.to_owned();
        s.append(rt.as_str());
        Ok(s)
    }
}

impl CrossrefQuery for Prefixes {
    open spec fn resource_component_spec(self) -> ResourceComponent {
        ResourceComponent::Prefixes(self)
    }

    fn resource_component(self) -> (r: ResourceComponent) {
        ResourceComponent::Prefixes(self)
    }

    fn to_url(&self, base_path: &str) -> (r: Result<String, ErrorKind>) {
        let rt = match self.route() {
            Ok(s) => s,
            Err(e) => {
                return Err(e);
            },
        };
        let mut s = base_path.to_owned();
        s.append(rt.as_str());
        Ok(s)
    }
}

impl CrossrefQuery for Members {
    open spec fn resource_component_spec(self) -> ResourceComponent {
        ResourceComponent::Members(self)
    }

    fn resource_component(self) -> (r: ResourceComponent) {
        ResourceComponent::Members(self)
    }

    fn to_url(&self, base_path: &str) -> (r: Result<String, ErrorKind>) {
        let rt = match self.route() {
            Ok(s) => s,
            Err(e) => {
                return Err(e);
            },
        };
        let mut s = base_path.to_owned();
        s.append(rt.as_str());
        Ok(s)
    }
}

impl CrossrefQuery for Types {
    open spec fn resource_component_spec(self) -> ResourceComponent {
        ResourceComponent::Types(self)
    }

    fn resource_component(self) -> (r: ResourceComponent) {
        ResourceComponent::Types(self)
    }

    fn to_url(&self, base_path: &str) -> (r: Result<String, ErrorKind>) {
        let rt = match self.route() {
            Ok(s) => s,
            Err(e) => {
                return Err(e);
            },
        };
        let mut s = base_path.to_owned();
        s.append(rt.as_str());
        Ok(s)
    }
}

impl CrossrefQuery for Journals {
    open spec fn resource_component_spec(self) -> ResourceComponent {
        ResourceComponent::Journals(self)
    }

    fn resource_component(self) -> (r: ResourceComponent) {
        ResourceComponent::Journals(self)
    }

    fn to_url(&self, base_path: &str) -> (r: Result<String, ErrorKind>) {
        let rt = match self.route() {
            Ok(s) => s,
            Err(e) => {
                return Err(e);
            },
        };
        let mut s = base_path.to_owned();
        s.append(rt.as_str());
        Ok(s)
    }
}

impl CrossrefQuery for WorkListQuery {
    open spec fn resource_component_spec(self) -> ResourceComponent {
        match self {
            WorkListQuery::Works(query) => ResourceComponent::Works(Works::Query(query)),
            WorkListQuery::Combined { primary_component, ident } => match primary_component {
                Component::Funders => ResourceComponent::Funders(Funders::Works(ident)),
                Component::Journals => ResourceComponent::Journals(Journals::Works(ident)),
                Component::Members => ResourceComponent::Members(Members::Works(ident)),
                Component::Prefixes => ResourceComponent::Prefixes(Prefixes::Works(ident)),
                Component::Types => ResourceComponent::Types(Types::Works(ident)),
                Component::Works => ResourceComponent::Works(Works::Query(ident.query)),
            },
        }
    }

    fn resource_component(self) -> (r: ResourceComponent) {
        match self {
            WorkListQuery::Works(query) => ResourceComponent::Works(Works::Query(query)),
            WorkListQuery::Combined { primary_component, ident } => match primary_component {
                Component::Funders => ResourceComponent::Funders(Funders::Works(ident)),
                Component::Journals => ResourceComponent::Journals(Journals::Works(ident)),
                Component::Members => ResourceComponent::Members(Members::Works(ident)),
                Component::Prefixes => ResourceComponent::Prefixes(Prefixes::Works(ident)),
                Component::Types => ResourceComponent::Types(Types::Works(ident)),
                Component::Works => ResourceComponent::Works(Works::Query(ident.query)),
            },
        }
    }

    fn to_url(&self, base_path: &str) -> (r: Result<String, ErrorKind>) {
        let rt = match self.route() {
            Ok(s) => s,
            Err(e) => {
                return Err(e);
            },
        };
        let mut s = base_path.to_owned();
        s.append(rt.as_str());
        Ok(s)
    }
}

} // verus!
