//! The table-browsing service: its filter compiler, query synthesizer and
//! row materializer live in sibling modules as further `impl` blocks.

use vstd::prelude::*;

verus! {

/// Namespace of the table-browsing operations.
pub struct DataService;

impl DataService {
    /// The name of the data section.
    pub fn get_header() -> (r: String)
        ensures
            r@ == "Data"@,
    {
        String::from_str("Data")
    }

    /// The filtered count runs only when a filter value is present and is
    /// not the client's "undefined" sentinel.
    pub fn wants_filtered_count(filter: &Option<String>) -> (r: bool)
        ensures
            r == (match *filter {
                Some(f) => f@ != crate::spec_no_filter_sentinel(),
                None => false,
            }),
    {
        match filter {
            Some(f) => !crate::text::str_eq(f.as_str(), "{filter:undefined}"),
            None => false,
        }
    }
}

} // verus!
