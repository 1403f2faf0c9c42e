//! Queries that target the `/funders` resource.

use vstd::prelude::*;
use vstd::string::*;
use crate::error::ErrorKind;
use crate::query::works::{
    WorkListQuery, WorksCombiner, WorksIdentQuery, WorksQuery, combined_route_spec,
    combined_route_str,
};
use crate::query::{Component, CrossrefRoute};

verus! {

/// Targets the `/funders` resource: one item by identifier, or the works
/// of one item.
#[derive(Debug, Clone)]
pub enum Funders {
    /// Target a specific item at `/funders/{id}`.
    Identifier(String),
    /// Target the works of a specific item at `/funders/{id}/works?...`.
    Works(WorksIdentQuery),
}

impl CrossrefRoute for Funders {
    open spec fn route_spec(&self) -> Seq<char> {
        match self {
            Funders::Identifier(s) => "/funders/"@ + s@,
            Funders::Works(ident) => combined_route_spec(Component::Funders, *ident),
        }
    }

    fn route(&self) -> (r: Result<String, ErrorKind>) {
        match self {
            Funders::Identifier(id) => {
                let mut s = String::from_str("/funders/");
                s.append(id.as_str());
                Ok(s)
            },
            Funders::Works(ident) => combined_route_str(&Component::Funders, ident),
        }
    }
}

impl WorksCombiner for Funders {
    open spec fn primary_component_spec() -> Component {
        Component::Funders
    }

    open spec fn wraps_ident(r: Self, id: Seq<char>, q: WorksQuery) -> bool {
        &&& r matches Funders::Works(iq)
        &&& iq.id@ == id
        &&& iq.query == q
    }

    fn primary_component() -> (c: Component) {
        Component::Funders
    }

    fn ident_query(ident: WorksIdentQuery) -> (r: Self) {
        Funders::Works(ident)
    }

    fn combined_route(ident: &WorksIdentQuery) -> (r: Result<String, ErrorKind>) {
        combined_route_str(&Component::Funders, ident)
    }

    fn work_list_query(ident: WorksIdentQuery) -> (r: WorkListQuery) {
        WorkListQuery::Combined { primary_component: Component::Funders, ident }
    }
}

} // verus!
