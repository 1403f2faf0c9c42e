//! The `/types` resource: the closed list of valid work types.

use vstd::prelude::*;
use vstd::string::*;
use crate::error::ErrorKind;
use crate::query::works::{
    WorkListQuery, WorksCombiner, WorksIdentQuery, WorksQuery, combined_route_spec,
    combined_route_str,
};
use crate::query::{Component, CrossrefRoute};

verus! {

/// A work type from the `/types` resource, identified by its wire id.
#[derive(Debug, Clone)]
pub enum Type {
    /// The `journal-article` type.
    JournalArticle,
    /// The `journal` type.
    Journal,
    /// The `journal-issue` type.
    JournalIssue,
    /// The `journal-volume` type.
    JournalVolume,
    /// The `book` type.
    Book,
    /// The `book-chapter` type.
    BookChapter,
    /// The `book-section` type.
    BookSection,
    /// The `book-series` type.
    BookSeries,
    /// The `monograph` type.
    Monograph,
    /// The `proceedings` type.
    Proceedings,
    /// The `proceedings-article` type.
    ProceedingsArticle,
    /// The `dataset` type.
    Dataset,
    /// The `report` type.
    Report,
    /// The `dissertation` type.
    Dissertation,
    /// The `posted-content` type.
    PostedContent,
    /// The `reference-entry` type.
    ReferenceEntry,
    /// The `standard` type.
    Standard,
    /// The `component` type.
    Component,
    /// The `other` type.
    Other,
}

impl Type {
    /// The wire identifier, as the contracts state it.
    pub open spec fn id_spec(&self) -> Seq<char> {
        match self {
            Type::JournalArticle => "journal-article"@,
            Type::Journal => "journal"@,
            Type::JournalIssue => "journal-issue"@,
            Type::JournalVolume => "journal-volume"@,
            Type::Book => "book"@,
            Type::BookChapter => "book-chapter"@,
            Type::BookSection => "book-section"@,
            Type::BookSeries => "book-series"@,
            Type::Monograph => "monograph"@,
            Type::Proceedings => "proceedings"@,
            Type::ProceedingsArticle => "proceedings-article"@,
            Type::Dataset => "dataset"@,
            Type::Report => "report"@,
            Type::Dissertation => "dissertation"@,
            Type::PostedContent => "posted-content"@,
            Type::ReferenceEntry => "reference-entry"@,
            Type::Standard => "standard"@,
            Type::Component => "component"@,
            Type::Other => "other"@,
        }
    }

    /// The id value Crossref uses for this type.
    pub fn id(&self) -> (r: &str)
        ensures
            r@ == self.id_spec(),
    {
        match self {
            Type::JournalArticle => "journal-article",
            Type::Journal => "journal",
            Type::JournalIssue => "journal-issue",
            Type::JournalVolume => "journal-volume",
            Type::Book => "book",
            Type::BookChapter => "book-chapter",
            Type::BookSection => "book-section",
            Type::BookSeries => "book-series",
            Type::Monograph => "monograph",
            Type::Proceedings => "proceedings",
            Type::ProceedingsArticle => "proceedings-article",
            Type::Dataset => "dataset",
            Type::Report => "report",
            Type::Dissertation => "dissertation",
            Type::PostedContent => "posted-content",
            Type::ReferenceEntry => "reference-entry",
            Type::Standard => "standard",
            Type::Component => "component",
            Type::Other => "other",
        }
    }
}


/// Targets the `/types` resource: one work type by identifier, or the
/// works of one type.
#[derive(Debug, Clone)]
pub enum Types {
    /// Target a specific type at `/types/{id}`.
    Identifier(String),
    /// Target the works of a specific type at `/types/{id}/works?...`.
    Works(WorksIdentQuery),
}

impl CrossrefRoute for Types {
    open spec fn route_spec(&self) -> Seq<char> {
        match self {
            Types::Identifier(s) => "/types/"@ + s@,
            Types::Works(ident) => combined_route_spec(Component::Types, *ident),
        }
    }

    fn route(&self) -> (r: Result<String, ErrorKind>) {
        match self {
            Types::Identifier(id) => {
                let mut s = String::from_str("/types/");
                s.append(id.as_str());
                Ok(s)
            },
            Types::Works(ident) => combined_route_str(&Component::Types, ident),
        }
    }
}

impl WorksCombiner for Types {
    open spec fn primary_component_spec() -> Component {
        Component::Types
    }

    open spec fn wraps_ident(r: Self, id: Seq<char>, q: WorksQuery) -> bool {
        &&& r matches Types::Works(iq)
        &&& iq.id@ == id
        &&& iq.query == q
    }

    fn primary_component() -> (c: Component) {
        Component::Types
    }

    fn ident_query(ident: WorksIdentQuery) -> (r: Self) {
        Types::Works(ident)
    }

    fn combined_route(ident: &WorksIdentQuery) -> (r: Result<String, ErrorKind>) {
        combined_route_str(&Component::Types, ident)
    }

    fn work_list_query(ident: WorksIdentQuery) -> (r: WorkListQuery) {
        WorkListQuery::Combined { primary_component: Component::Types, ident }
    }
}

} // verus!
