//! Facet requests: aggregate counts over a metadata dimension.

use vstd::prelude::*;
use vstd::string::*;
use crate::query::{
    CrossrefQueryParam, ParamFragment, fragment_spec, join_strings, kv_param_spec, make_fragment,
    make_param, opt_str_view,
};
use crate::strutil::{dec_str, join_sep, usize_string};

verus! {

/// Asks Crossref to facet the result set over one dimension, optionally
/// capping how many facet values come back.
#[derive(Debug, Clone)]
pub struct FacetCount {
    /// The name of the facet dimension, for example `publisher-name`.
    pub facet: String,
    /// The most facet values to return; absent means the wire `*`.
    pub count: Option<usize>,
}

impl FacetCount {
    /// Builds a facet request for the dimension `facet`.
    pub fn new(facet: &str, count: Option<usize>) -> (r: FacetCount)
        ensures
            r.facet@ == facet@,
            r.count == count,
    {
        FacetCount { facet: facet.to_owned(), count }
    }
}

impl ParamFragment for FacetCount {
    open spec fn key_spec(&self) -> Seq<char> {
        self.facet@
    }

    open spec fn value_spec(&self) -> Option<Seq<char>> {
        match self.count {
            Some(n) => Some(dec_str(n as int)),
            None => Some("*"@),
        }
    }

    fn key(&self) -> (k: String) {
        self.facet.clone()
    }

    fn value(&self) -> (v: Option<String>) {
        match &self.count {
            Some(n) => Some(usize_string(*n)),
            None => Some(String::from_str("*")),
        }
    }

    fn fragment(&self) -> (f: String) {
        make_fragment(self.key(), self.value())
    }
}

/// A list of facet requests renders as the single `facet=` parameter whose
/// value is every fragment joined by `,`, in insertion order.
pub open spec fn facet_list_value_spec(facets: Seq<FacetCount>) -> Seq<char> {
    join_sep(
        facets.map_values(|f: FacetCount| fragment_spec(f.key_spec(), f.value_spec())),
        ","@,
    )
}

impl CrossrefQueryParam for Vec<FacetCount> {
    open spec fn param_key_spec(&self) -> Seq<char> {
        "facet"@
    }

    open spec fn param_value_spec(&self) -> Option<Seq<char>> {
        Some(facet_list_value_spec(self@))
    }

    open spec fn param_spec(&self) -> Seq<char> {
        kv_param_spec(self.param_key_spec(), self.param_value_spec())
    }

    fn param_key(&self) -> (k: String) {
        String::from_str("facet")
    }

    fn param_value(&self) -> (v: Option<String>) {
        let ghost gfrags = self@.map_values(
            |f: FacetCount| fragment_spec(f.key_spec(), f.value_spec()),
        );
        let mut frags: Vec<String> = Vec::new();
        let mut i: usize = 0;
        while i < self.len()
            invariant
                0 <= i <= self.len(),
                gfrags == self@.map_values(
                    |f: FacetCount| fragment_spec(f.key_spec(), f.value_spec()),
                ),
                gfrags.len() == self.len(),
                frags@.len() == i,
                forall|j: int| 0 <= j < i ==> (#[trigger] frags@[j])@ == gfrags[j],
            decreases self.len() - i,
        {
            let f = self[i].fragment();
            frags.push(f);
            i = i + 1;
        }
        let joined = join_strings(&frags, ",");
        proof {
            assert(frags@.map_values(|p: String| p@) =~= gfrags);
        }
        Some(joined)
    }

    fn param(&self) -> (p: String) {
        make_param(self.param_key(), self.param_value())
    }
}

} // verus!
