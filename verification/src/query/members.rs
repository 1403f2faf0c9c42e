//! Queries that target the `/members` resource.

use vstd::prelude::*;
use vstd::string::*;
use crate::error::ErrorKind;
use crate::query::works::{
    WorkListQuery, WorksCombiner, WorksIdentQuery, WorksQuery, combined_route_spec,
    combined_route_str,
};
use crate::query::{Component, CrossrefRoute};

verus! {

/// Targets the `/members` resource: one item by identifier, or the works
/// of one item.
#[derive(Debug, Clone)]
pub enum Members {
    /// Target a specific item at `/members/{id}`.
    Identifier(String),
    /// Target the works of a specific item at `/members/{id}/works?...`.
    Works(WorksIdentQuery),
}

impl CrossrefRoute for Members {
    open spec fn route_spec(&self) -> Seq<char> {
        match self {
            Members::Identifier(s) => "/members/"@ + s@,
            Members::Works(ident) => combined_route_spec(Component::Members, *ident),
        }
    }

    fn route(&self) -> (r: Result<String, ErrorKind>) {
        match self {
            Members::Identifier(id) => {
                let mut s = String::from_str("/members/");
                s.append(id.as_str());
                Ok(s)
            },
            Members::Works(ident) => combined_route_str(&Component::Members, ident),
        }
    }
}

impl WorksCombiner for Members {
    open spec fn primary_component_spec() -> Component {
        Component::Members
    }

    open spec fn wraps_ident(r: Self, id: Seq<char>, q: WorksQuery) -> bool {
        &&& r matches Members::Works(iq)
        &&& iq.id@ == id
        &&& iq.query == q
    }

    fn primary_component() -> (c: Component) {
        Component::Members
    }

    fn ident_query(ident: WorksIdentQuery) -> (r: Self) {
        Members::Works(ident)
    }

    fn combined_route(ident: &WorksIdentQuery) -> (r: Result<String, ErrorKind>) {
        combined_route_str(&Component::Members, ident)
    }

    fn work_list_query(ident: WorksIdentQuery) -> (r: WorkListQuery) {
        WorkListQuery::Combined { primary_component: Component::Members, ident }
    }
}

} // verus!
