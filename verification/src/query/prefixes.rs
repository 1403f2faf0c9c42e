//! Queries that target the `/prefixes` resource.

use vstd::prelude::*;
use vstd::string::*;
use crate::error::ErrorKind;
use crate::query::works::{
    WorkListQuery, WorksCombiner, WorksIdentQuery, WorksQuery, combined_route_spec,
    combined_route_str,
};
use crate::query::{Component, CrossrefRoute};

verus! {

/// Targets the `/prefixes` resource: one item by identifier, or the works
/// of one item.
#[derive(Debug, Clone)]
pub enum Prefixes {
    /// Target a specific item at `/prefixes/{id}`.
    Identifier(String),
    /// Target the works of a specific item at `/prefixes/{id}/works?...`.
    Works(WorksIdentQuery),
}

impl CrossrefRoute for Prefixes {
    open spec fn route_spec(&self) -> Seq<char> {
        match self {
            Prefixes::Identifier(s) => "/prefixes/"@ + s@,
            Prefixes::Works(ident) => combined_route_spec(Component::Prefixes, *ident),
        }
    }

    fn route(&self) -> (r: Result<String, ErrorKind>) {
        match self {
            Prefixes::Identifier(id) => {
                let mut s = String::from_str("/prefixes/");
                s.append(id.as_str());
                Ok(s)
            },
            Prefixes::Works(ident) => combined_route_str(&Component::Prefixes, ident),
        }
    }
}

impl WorksCombiner for Prefixes {
    open spec fn primary_component_spec() -> Component {
        Component::Prefixes
    }

    open spec fn wraps_ident(r: Self, id: Seq<char>, q: WorksQuery) -> bool {
        &&& r matches Prefixes::Works(iq)
        &&& iq.id@ == id
        &&& iq.query == q
    }

    fn primary_component() -> (c: Component) {
        Component::Prefixes
    }

    fn ident_query(ident: WorksIdentQuery) -> (r: Self) {
        Prefixes::Works(ident)
    }

    fn combined_route(ident: &WorksIdentQuery) -> (r: Result<String, ErrorKind>) {
        combined_route_str(&Component::Prefixes, ident)
    }

    fn work_list_query(ident: WorksIdentQuery) -> (r: WorkListQuery) {
        WorkListQuery::Combined { primary_component: Component::Prefixes, ident }
    }
}

} // verus!
