//! The data model: request parameters, compiled query sets, row documents,
//! and the result envelopes the services hand back.

use vstd::prelude::*;

verus! {

/// Outcome envelope for service calls: a success flag, a human-readable
/// message, and optional payload and error values.
#[derive(Debug)]
pub struct ActionResult<T, E> {
    pub result: bool,
    pub message: String,
    pub data: Option<T>,
    pub error: Option<E>,
}

impl<T, E> Default for ActionResult<T, E> {
    /// The neutral outcome: not successful, empty message, no payload and no
    /// error.
    fn default() -> (r: Self)
        ensures
            !r.result,
            r.message@ == Seq::<char>::empty(),
            r.data is None,
            r.error is None,
    {
        ActionResult { result: false, message: String::new(), data: None, error: None }
    }
}

/// A company row: its identifier and display name.
#[derive(Debug, Clone)]
pub struct Company {
    pub company_id: String,
    pub company_name: String,
}

/// A generic code/description lookup row.
#[derive(Debug, Clone)]
pub struct ListData {
    pub data_id: i32,
    pub code: String,
    pub description: String,
}

/// Credentials as a login request carries them.
#[derive(Debug)]
pub struct LoginRequest {
    pub email: Option<String>,
    pub password: Option<String>,
}

/// Parameters of one table-browsing request: the table, paging bounds, an
/// optional JSON-encoded filter mapping, an optional sort column and
/// direction, and an optional primary-key override.
#[derive(Debug, Clone)]
pub struct TableDataParams {
    pub tablename: String,
    pub limit: i32,
    pub offset: i32,
    pub filter: Option<String>,
    pub sort: Option<String>,
    pub order: Option<String>,
    pub nidkey: Option<String>,
}

/// The three statements synthesized for one table-browsing request: the paged
/// data query and the two row-count queries.
#[derive(Debug)]
pub struct QueryClass {
    pub query: String,
    pub query_total_all: String,
    pub query_total_with_filter: String,
}

/// A bar-chart definition to be saved or updated.
#[derive(Debug)]
pub struct BarChartRequest {
    pub chart_name: Option<String>,
    pub menu_id: Option<String>,
    pub list_column: Option<String>,
}

/// The key of a bar chart to delete.
#[derive(Debug)]
pub struct DeleteBarChart {
    pub menu_id: Option<String>,
    pub chart_id: Option<String>,
}

/// Parameters of a grouped-count bar-chart query.
#[derive(Debug, Clone)]
pub struct BarChartParams {
    pub tablename: String,
    pub column: String,
    pub filter: Option<String>,
}

/// Parameters of a header request.
#[derive(Debug, Clone)]
pub struct HeaderParams {
    pub tablename: String,
}

/// Query-string parameters of the order listing.
#[derive(Debug)]
pub struct OrderQueryParams {
    pub last_id: Option<i64>,
    pub limit: Option<i32>,
}

/// One JSON scalar of a row document.
#[derive(Debug, Clone, PartialEq)]
pub enum JsonVal {
    Null,
    Str(String),
    Int(i32),
    Bool(bool),
    Bytes(Vec<u8>),
    /// A fixed-point decimal rendered as its decimal string; the serving
    /// layer turns it into a JSON number.
    Num(String),
}

/// One database row as an ordered mapping from column name to JSON scalar,
/// column order preserved from the driver's metadata.
#[derive(Debug, Clone, PartialEq)]
pub struct RowDocument {
    pub fields: Vec<(String, JsonVal)>,
}

/// The reply to a table-browsing request: the grand row count, the count
/// under the filter, and the page of row documents.
#[allow(non_snake_case)]
#[derive(Debug)]
pub struct ResultList {
    pub totalNotFiltered: i32,
    pub total: i32,
    pub rows: Vec<RowDocument>,
}

/// Errors of query synthesis.
#[derive(Debug, PartialEq, Eq, Structural)]
pub enum QueryError {
    /// The client's filter string was not a JSON object mapping strings to
    /// strings.
    FilterDecode,
}

impl QueryError {
    /// A short message for the serving layer.
    pub fn message(&self) -> (m: String)
        ensures
            m@ == "Invalid filter"@,
    {
        String::from_str("Invalid filter")
    }
}

impl ResultList {
    /// Assembles the reply from the two counts and the converted rows. When
    /// no filter was supplied — the field absent or holding the client's
    /// "undefined" sentinel — the filtered total equals the grand total;
    /// otherwise it is the count the filtered query returned, or zero when
    /// that query yielded no row.
    pub fn assemble(
        filter: &Option<String>,
        total_not_filtered: i32,
        filtered_total: Option<i32>,
        rows: Vec<RowDocument>,
    ) -> (r: ResultList)
        ensures
            r.totalNotFiltered == total_not_filtered,
            r.rows == rows,
            filter is None ==> r.total == total_not_filtered,
            filter matches Some(f) && f@ == crate::spec_no_filter_sentinel() ==> r.total
                == total_not_filtered,
            filter matches Some(f) && f@ != crate::spec_no_filter_sentinel() ==> r.total == (
            match filtered_total {
                Some(t) => t,
                None => 0,
            }),
    {
        let total: i32 = match filter {
            None => total_not_filtered,
            Some(f) => {
                if crate::text::str_eq(f.as_str(), "{filter:undefined}") {
                    total_not_filtered
                } else {
                    match filtered_total {
                        Some(t) => t,
                        None => 0,
                    }
                }
            },
        };
        ResultList { totalNotFiltered: total_not_filtered, total, rows }
    }
}

} // verus!
