//! The query synthesizer: builds the paged data statement and the two count
//! statements for one table-browsing request.

use vstd::prelude::*;
use crate::data_service::DataService;
use crate::filter::{entries_view, spec_where_clause, spec_where_tail};
use crate::model::{QueryClass, QueryError, TableDataParams};
use crate::text::{i64_string, int_digits, str_eq};

verus! {

/// The filter mapping denoted by a string under JSON-object decoding with
/// string values only, in document order: `Some` exactly when the string is a
/// JSON object whose values are all strings. A function of the characters
/// alone.
pub uninterp spec fn filter_entries_of(s: Seq<char>) -> Option<Seq<(Seq<char>, Seq<char>)>>;

/// Relies on `serde_json::from_str` decoding into `serde_json::Map` (with
/// document order kept): acceptance and the decoded entries depend on the
/// string alone. An object with a non-string value is rejected, as decoding
/// a string-to-string map rejects it.
#[verifier::external_body]
fn parse_filter(s: &str) -> (r: Option<Vec<(String, String)>>)
    ensures
        r is Some <==> filter_entries_of(s@) is Some,
        r matches Some(v) ==> entries_view(v@) == filter_entries_of(s@)->Some_0,
{
    match serde_json::from_str::<serde_json::Map<String, serde_json::Value>>(s) {
        Ok(object) => {
            let mut out: Vec<(String, String)> = Vec::with_capacity(object.len());
            for (key, value) in object {
                match value {
                    serde_json::Value::String(text) => out.push((key, text)),
                    _ => return None,
                }
            }
            Some(out)
        },
        Err(_) => None,
    }
}

/// The view of an optional owned string.
pub open spec fn opt_view(o: Option<String>) -> Option<Seq<char>> {
    match o {
        Some(s) => Some(s@),
        None => None,
    }
}

/// A table name bracket-quoted for the engine.
pub open spec fn spec_bracketed(t: Seq<char>) -> Seq<char> {
    "["@ + t + "]"@
}

/// Query synthesis succeeds on a filter field: it is unused, or it decodes as
/// a flat string-to-string JSON object.
pub open spec fn spec_filter_ok(filter: Option<Seq<char>>) -> bool {
    match filter {
        None => true,
        Some(f) => f == crate::spec_no_filter_sentinel() || filter_entries_of(f) is Some,
    }
}

/// The filter entries a request contributes to its WHERE clause.
pub open spec fn spec_request_entries(filter: Option<Seq<char>>) -> Seq<(Seq<char>, Seq<char>)> {
    match filter {
        None => Seq::empty(),
        Some(f) => if f == crate::spec_no_filter_sentinel() || filter_entries_of(f) is None {
            Seq::empty()
        } else {
            filter_entries_of(f)->Some_0
        },
    }
}

/// The WHERE clause of a request, over the standard base clause.
pub open spec fn spec_request_where(filter: Option<Seq<char>>) -> Seq<char> {
    spec_where_clause(" WHERE 1=1 "@, spec_request_entries(filter))
}

/// The ordering key: the request's override when present, else the default
/// primary key.
pub open spec fn spec_primary_key(nidkey: Option<Seq<char>>) -> Seq<char> {
    match nidkey {
        Some(k) => k,
        None => "AutoNID"@,
    }
}

/// The ORDER BY clause: the requested column and direction when both are
/// supplied, else the primary key descending.
pub open spec fn spec_order_clause(
    sort: Option<Seq<char>>,
    order: Option<Seq<char>>,
    pk: Seq<char>,
) -> Seq<char> {
    if sort is Some && order is Some {
        " ORDER BY "@ + sort->Some_0 + " "@ + order->Some_0
    } else {
        " ORDER BY "@ + pk + " DESC"@
    }
}

/// The OFFSET/FETCH paging clause.
pub open spec fn spec_paging_clause(offset: int, limit: int) -> Seq<char> {
    " OFFSET "@ + int_digits(offset) + " ROWS FETCH NEXT "@ + int_digits(limit) + " ROWS ONLY"@
}

/// The unfiltered-count statement of a request.
pub open spec fn spec_count_all_query(p: TableDataParams) -> Seq<char> {
    "SELECT count(*) as total FROM "@ + spec_bracketed(p.tablename@) + spec_request_where(
        opt_view(p.filter),
    )
}

/// The filtered-count statement of a request.
pub open spec fn spec_count_filtered_query(p: TableDataParams) -> Seq<char> {
    "SELECT count(*) as totalWithFilter FROM "@ + spec_bracketed(p.tablename@) + " "@
        + spec_request_where(opt_view(p.filter))
}

/// The paged data statement of a request.
pub open spec fn spec_data_query(p: TableDataParams, bypass_skip: bool) -> Seq<char> {
    let order = if bypass_skip {
        Seq::<char>::empty()
    } else {
        spec_order_clause(opt_view(p.sort), opt_view(p.order), spec_primary_key(opt_view(p.nidkey)))
    };
    let paging = if bypass_skip {
        Seq::<char>::empty()
    } else {
        spec_paging_clause(p.offset as int, p.limit as int)
    };
    "SELECT * FROM "@ + spec_bracketed(p.tablename@) + " "@ + spec_request_where(opt_view(p.filter))
        + " "@ + order + " "@ + paging
}

/// Compiles the WHERE clause an optional filter string contributes, over the
/// standard base clause; a filter string that does not decode as a flat
/// string-to-string JSON object is a filter error.
pub fn request_where_clause(filter: &Option<String>) -> (r: Result<String, QueryError>)
    ensures
        r is Ok <==> spec_filter_ok(opt_view(*filter)),
        r is Err ==> r->Err_0 == QueryError::FilterDecode,
        r matches Ok(w) ==> w@ == spec_request_where(opt_view(*filter)),
{
    let mut q_and_where = String::from_str(" WHERE 1=1 ");
    if let Some(f) = filter {
        if !str_eq(f.as_str(), "{filter:undefined}") {
            match parse_filter(f.as_str()) {
                Some(entries) => {
                    if entries.len() > 0 {
                        q_and_where = DataService::get_query_table_where(q_and_where, entries);
                    } else {
                        proof {
                            assert(entries_view(entries@) =~= spec_request_entries(
                                opt_view(*filter),
                            ));
                        }
                    }
                },
                None => {
                    return Err(QueryError::FilterDecode);
                },
            }
        }
    }
    proof {
        assert(spec_where_tail(Seq::<(Seq<char>, Seq<char>)>::empty()) == Seq::<char>::empty());
        assert(q_and_where@ =~= spec_request_where(opt_view(*filter)));
    }
    Ok(q_and_where)
}

impl DataService {
    /// Synthesizes the three statements of one request. A `limit` of zero is
    /// the no-op sentinel and yields three empty statements; a filter string
    /// that does not decode as a flat string-to-string JSON object is a
    /// filter error.
    pub fn get_query_table(allparams: TableDataParams, bypass_skip: bool) -> (r: Result<
        QueryClass,
        QueryError,
    >)
        ensures
            r is Ok <==> (allparams.limit == 0 || spec_filter_ok(opt_view(allparams.filter))),
            r is Err ==> r->Err_0 == QueryError::FilterDecode,
            r matches Ok(q) ==> {
                &&& allparams.limit == 0 ==> {
                    &&& q.query@ == Seq::<char>::empty()
                    &&& q.query_total_all@ == Seq::<char>::empty()
                    &&& q.query_total_with_filter@ == Seq::<char>::empty()
                }
                &&& allparams.limit != 0 ==> {
                    &&& q.query@ == spec_data_query(allparams, bypass_skip)
                    &&& q.query_total_all@ == spec_count_all_query(allparams)
                    &&& q.query_total_with_filter@ == spec_count_filtered_query(allparams)
                }
            },
    {
        if allparams.limit == 0 {
            return Ok(
                QueryClass {
                    query: String::new(),
                    query_total_all: String::new(),
                    query_total_with_filter: String::new(),
                },
            );
        }
        let mut tablename = String::from_str("[");
        tablename.append(allparams.tablename.as_str());
        tablename.append("]");
        proof {
            assert(tablename@ =~= spec_bracketed(allparams.tablename@));
        }

        let q_and_where = match request_where_clause(&allparams.filter) {
            Ok(w) => w,
            Err(e) => {
                return Err(e);
            },
        };

        let mut query_total_all = String::from_str("SELECT count(*) as total FROM ");
        query_total_all.append(tablename.as_str());
        query_total_all.append(q_and_where.as_str());
        proof {
            assert(query_total_all@ =~= spec_count_all_query(allparams));
        }

        let mut query_total_with_filter = String::from_str(
            "SELECT count(*) as totalWithFilter FROM ",
        );
        query_total_with_filter.append(tablename.as_str());
        query_total_with_filter.append(" ");
        query_total_with_filter.append(q_and_where.as_str());
        proof {
            assert(query_total_with_filter@ =~= spec_count_filtered_query(allparams));
        }

        let mut q_order_by = String::new();
        let mut q_skip_row = String::new();
        if !bypass_skip {
            let both = allparams.sort.is_some() && allparams.order.is_some();
            if both {
                q_order_by.append(" ORDER BY ");
                match &allparams.sort {
                    Some(s) => q_order_by.append(s.as_str()),
                    None => {},
                }
                q_order_by.append(" ");
                match &allparams.order {
                    Some(o) => q_order_by.append(o.as_str()),
                    None => {},
                }
            } else {
                q_order_by.append(" ORDER BY ");
                match &allparams.nidkey {
                    Some(k) => q_order_by.append(k.as_str()),
                    None => q_order_by.append("AutoNID"),
                }
                q_order_by.append(" DESC");
            }
            proof {
                reveal_strlit("AutoNID");
                assert(q_order_by@ =~= spec_order_clause(
                    opt_view(allparams.sort),
                    opt_view(allparams.order),
                    spec_primary_key(opt_view(allparams.nidkey)),
                ));
            }
            q_skip_row.append(" OFFSET ");
            let offset_digits = i64_string(allparams.offset as i64);
            q_skip_row.append(offset_digits.as_str());
            q_skip_row.append(" ROWS FETCH NEXT ");
            let limit_digits = i64_string(allparams.limit as i64);
            q_skip_row.append(limit_digits.as_str());
            q_skip_row.append(" ROWS ONLY");
            proof {
                assert(q_skip_row@ =~= spec_paging_clause(
                    allparams.offset as int,
                    allparams.limit as int,
                ));
            }
        }

        let mut query = String::from_str("SELECT * FROM ");
        query.append(tablename.as_str());
        query.append(" ");
        query.append(q_and_where.as_str());
        query.append(" ");
        query.append(q_order_by.as_str());
        query.append(" ");
        query.append(q_skip_row.as_str());
        proof {
            assert(query@ =~= spec_data_query(allparams, bypass_skip));
        }

        Ok(QueryClass { query, query_total_all, query_total_with_filter })
    }
}

} // verus!
