//! Client-side modeling layer for the Crossref bibliographic metadata API.
//!
//! The crate has two halves: a route/parameter compiler that renders a typed
//! query description into the exact query-string syntax the service expects,
//! and a resilient decoder that walks an untyped JSON tree and produces
//! strict, fully typed records.  Both halves are pure functions over owned
//! values; the HTTP transport around them is out of scope.

pub mod dates;
pub mod error;
pub mod json;
pub mod query;
pub mod response;
pub mod strutil;

pub use dates::CalendarDate;
pub use error::ErrorKind;
pub use json::Json;
pub use query::facet::FacetCount;
pub use query::funders::Funders;
pub use query::journals::{JournalResultControl, Journals};
pub use query::members::Members;
pub use query::prefixes::Prefixes;
pub use query::types::{Type, Types};
pub use query::works::{
    FieldQuery, WorkElement, WorkListQuery, WorkResultControl, Works, WorksCombiner, WorksFilter,
    WorksIdentQuery, WorksQuery,
};
pub use query::{
    Component, CrossrefParams, CrossrefQuery, CrossrefQueryParam, CrossrefRoute, Filter, Order,
    ParamFragment, ResourceComponent, ResultControl, Sort, Visibility,
};
pub use response::journal::{Counts, Flags, IssnType, Journal, JournalList};
pub use response::work::{
    Affiliation, Agency, Assertion, AssertionGroup, ClinicalTrialNumber, ContentDomain,
    Contributor, Date, DateField, DateParts, FundingBody, ISSN, Issue, License, PartialDate,
    Reference, Relation, Relations, ResourceLink, Review, Update, Work, WorkList, to_citekey,
};
pub use response::{FacetItem, FacetMap, QueryResponse};
