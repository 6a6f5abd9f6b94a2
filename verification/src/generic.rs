//! The generic service: the decisions of the order listing and the assembly
//! of company rows from read cells.

use vstd::prelude::*;
use crate::model::Company;

verus! {

/// Namespace of the generic lookups.
pub struct GenericService;

impl GenericService {
    /// The page size of the order listing: the requested limit, defaulting to
    /// fifty, capped at ten thousand.
    pub fn effective_limit(limit: Option<i32>) -> (r: i32)
        ensures
            r == ({
                let l = match limit {
                    Some(v) => v as int,
                    None => 50,
                };
                if l > 10000 {
                    10000int
                } else {
                    l
                }
            }),
    {
        let l = match limit {
            Some(v) => v,
            None => 50,
        };
        if l > 10000 {
            10000
        } else {
            l
        }
    }

    /// The cursor of the order listing: the requested last identifier,
    /// defaulting to zero.
    pub fn effective_last_id(last_id: Option<i64>) -> (r: i64)
        ensures
            r == (match last_id {
                Some(v) => v as int,
                None => 0,
            }),
    {
        match last_id {
            Some(v) => v,
            None => 0,
        }
    }

    /// Assembles a company from its two read cells, an unreadable cell taken
    /// as empty.
    pub fn company_from_cells(company_id: Option<String>, company_name: Option<String>) -> (c:
        Company)
        ensures
            c.company_id@ == (match company_id {
                Some(s) => s@,
                None => Seq::<char>::empty(),
            }),
            c.company_name@ == (match company_name {
                Some(s) => s@,
                None => Seq::<char>::empty(),
            }),
    {
        let id = match company_id {
            Some(s) => s,
            None => String::new(),
        };
        let name = match company_name {
            Some(s) => s,
            None => String::new(),
        };
        Company { company_id: id, company_name: name }
    }
}

} // verus!
