//! Core logic of a generic table-browsing backend: a dynamic query
//! synthesizer, a column-convention filter compiler, and a row-to-document
//! materializer, each specified and verified.

pub mod chart;
pub mod data_service;
pub mod dates;
pub mod filter;
pub mod generic;
pub mod model;
pub mod query;
pub mod row;
pub mod text;

use vstd::prelude::*;

verus! {

/// The sentinel a client sends when its filter widget holds no value; it is
/// treated exactly like an absent filter.
pub open spec fn spec_no_filter_sentinel() -> Seq<char> {
    "{filter:undefined}"@
}

} // verus!
