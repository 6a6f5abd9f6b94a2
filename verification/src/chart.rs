//! The chart service: the grouped-count query builder that reuses the filter
//! compiler, the derivation of a chart identifier from its display name, and
//! the outcomes of the fixed persistence statements.

use vstd::prelude::*;
use crate::model::{BarChartParams, QueryError};
use crate::query::{opt_view, spec_request_where, spec_filter_ok};
use crate::text::{dec_digits, u128_string};

verus! {

/// Namespace of the chart operations.
pub struct ChartService;

// ---------------------------------------------------------------------------
// The grouped-count query
// ---------------------------------------------------------------------------

/// The grouped-count statement of a bar-chart request: one count per distinct
/// value of the chosen column, under the request's filter.
pub open spec fn spec_bar_chart_query(p: BarChartParams) -> Seq<char> {
    "SELECT "@ + p.column@ + " AS Value, COUNT(*) as Count FROM "@ + p.tablename@ + " "@
        + spec_request_where(opt_view(p.filter)) + " GROUP BY "@ + p.column@
}

impl ChartService {
    /// Builds the grouped-count statement; a filter string that does not
    /// decode as a flat string-to-string JSON object is a filter error.
    pub fn get_bar_chart_query(params: BarChartParams) -> (r: Result<String, QueryError>)
        ensures
            r is Ok <==> spec_filter_ok(opt_view(params.filter)),
            r is Err ==> r->Err_0 == QueryError::FilterDecode,
            r matches Ok(q) ==> q@ == spec_bar_chart_query(params),
    {
        let where_clause = match crate::query::request_where_clause(&params.filter) {
            Ok(w) => w,
            Err(e) => {
                return Err(e);
            },
        };
        let mut q = String::from_str("SELECT ");
        q.append(params.column.as_str());
        q.append(" AS Value, COUNT(*) as Count FROM ");
        q.append(params.tablename.as_str());
        q.append(" ");
        q.append(where_clause.as_str());
        q.append(" GROUP BY ");
        q.append(params.column.as_str());
        proof {
            assert(q@ =~= spec_bar_chart_query(params));
        }
        Ok(q)
    }
}

// ---------------------------------------------------------------------------
// Chart identifiers
// ---------------------------------------------------------------------------

/// Every space replaced by a dash.
pub open spec fn spec_dashed(s: Seq<char>) -> Seq<char> {
    s.map_values(
        |c: char|
            if c == ' ' {
                '-'
            } else {
                c
            },
    )
}

/// The lower-case form of a string under the standard library's case
/// folding, a function of the characters alone.
pub uninterp spec fn lower_of(s: Seq<char>) -> Seq<char>;

/// Replaces every space with a dash, character for character.
fn dashed(s: &str) -> (r: String)
    ensures
        r@ == spec_dashed(s@),
{
    let n = s.unicode_len();
    let mut out = String::new();
    let mut start: usize = 0;
    let mut i: usize = 0;
    while i < n
        invariant
            start <= i,
            i <= n,
            n == s@.len(),
            out@ =~= spec_dashed(s@.take(start as int)),
            forall|j: int| start <= j < i ==> s@[j] != ' ',
        decreases n - i,
    {
        if s.get_char(i) == ' ' {
            let ghost out_before = out@;
            let ghost start_before = start as int;
            let chunk = s.substring_char(start, i);
            out.append(chunk);
            proof {
                reveal_strlit("-");
            }
            out.append("-");
            start = i + 1;
            proof {
                assert("-"@ =~= seq!['-']);
                assert(out@ =~= out_before + s@.subrange(start_before, i as int) + seq!['-']);
                assert(spec_dashed(s@.take(start as int)) =~= out_before + s@.subrange(
                    start_before,
                    i as int,
                ) + seq!['-']);
            }
        }
        i += 1;
    }
    let tail = s.substring_char(start, n);
    out.append(tail);
    proof {
        assert(out@ =~= spec_dashed(s@));
    }
    out
}

/// Relies on `str::to_lowercase`: the result depends on the characters
/// alone, and an empty string stays empty.
#[verifier::external_body]
fn lowercase(s: &str) -> (r: String)
    ensures
        r@ == lower_of(s@),
        s@.len() == 0 ==> r@.len() == 0,
{
    s.to_lowercase()
}

/// The identifier a chart is stored under: its display name, absent taken as
/// empty, with spaces dashed and the whole lower-cased.
pub open spec fn spec_chart_id(name: Option<Seq<char>>) -> Seq<char> {
    lower_of(
        spec_dashed(
            match name {
                Some(s) => s,
                None => Seq::empty(),
            },
        ),
    )
}

impl ChartService {
    /// Derives the stored identifier from a chart's display name.
    pub fn chart_id_of(chart_name: &Option<String>) -> (r: String)
        ensures
            r@ == spec_chart_id(opt_view(*chart_name)),
    {
        let name: &str = match chart_name {
            Some(s) => s.as_str(),
            None => "",
        };
        proof {
            reveal_strlit("");
            assert(""@ =~= Seq::<char>::empty());
        }
        let base = dashed(name);
        lowercase(base.as_str())
    }
}

// ---------------------------------------------------------------------------
// Outcomes of the fixed persistence statements
// ---------------------------------------------------------------------------

/// Some statement of the batch affected at least one row.
pub open spec fn spec_any_affected(rows: Seq<u64>) -> bool {
    exists|i: int| 0 <= i < rows.len() && rows[i] > 0
}

/// Tests whether any statement affected rows.
fn any_affected(rows: &Vec<u64>) -> (r: bool)
    ensures
        r == spec_any_affected(rows@),
{
    let n = rows.len();
    let mut i: usize = 0;
    while i < n
        invariant
            i <= n,
            n == rows@.len(),
            forall|j: int| 0 <= j < i ==> rows@[j] == 0,
        decreases n - i,
    {
        if rows[i] > 0 {
            return true;
        }
        i += 1;
    }
    false
}

/// The message reporting how many statements took part.
fn counted_message(count: usize, suffix: &str) -> (r: String)
    ensures
        r@ == dec_digits(count as int) + suffix@,
{
    let mut s = u128_string(count as u128);
    s.append(suffix);
    s
}

impl ChartService {
    /// The outcome of saving a bar chart: success exactly when a statement
    /// affected rows, with the message reported for each case.
    pub fn save_bar_chart_outcome(rows_affected: &Vec<u64>) -> (r: (bool, String))
        ensures
            r.0 == spec_any_affected(rows_affected@),
            r.0 ==> r.1@ == dec_digits(rows_affected@.len() as int)
                + " BarChart saved successfully"@,
            !r.0 ==> r.1@ == "No BarChart found to save"@,
    {
        if any_affected(rows_affected) {
            (true, counted_message(rows_affected.len(), " BarChart saved successfully"))
        } else {
            (false, String::from_str("No BarChart found to save"))
        }
    }

    /// The outcome of updating a bar chart.
    pub fn update_bar_chart_outcome(rows_affected: &Vec<u64>) -> (r: (bool, String))
        ensures
            r.0 == spec_any_affected(rows_affected@),
            r.0 ==> r.1@ == dec_digits(rows_affected@.len() as int)
                + " BarChart updated successfully"@,
            !r.0 ==> r.1@ == "No BarChart found to update"@,
    {
        if any_affected(rows_affected) {
            (true, counted_message(rows_affected.len(), " BarChart updated successfully"))
        } else {
            (false, String::from_str("No BarChart found to update"))
        }
    }

    /// The outcome of deleting a bar chart.
    pub fn delete_bar_chart_outcome(rows_affected: &Vec<u64>) -> (r: (bool, String))
        ensures
            r.0 == spec_any_affected(rows_affected@),
            r.0 ==> r.1@ == dec_digits(rows_affected@.len() as int)
                + " BarChart(s) deleted successfully"@,
            !r.0 ==> r.1@ == "No BarChart found to delete"@,
    {
        if any_affected(rows_affected) {
            (true, counted_message(rows_affected.len(), " BarChart(s) deleted successfully"))
        } else {
            (false, String::from_str("No BarChart found to delete"))
        }
    }

    /// The placeholder reply of the line-chart endpoints.
    pub fn get_line_chart() -> (r: String)
        ensures
            r@ == "Line Chart"@,
    {
        String::from_str("Line Chart")
    }

    /// The placeholder reply of saving a line chart.
    pub fn save_line_chart() -> (r: String)
        ensures
            r@ == "Line Chart"@,
    {
        String::from_str("Line Chart")
    }

    /// The placeholder reply of the pie-chart endpoints.
    pub fn get_pie_chart() -> (r: String)
        ensures
            r@ == "Pie Chart"@,
    {
        String::from_str("Pie Chart")
    }

    /// The placeholder reply of saving a pie chart.
    pub fn save_pie_chart() -> (r: String)
        ensures
            r@ == "Pie Chart"@,
    {
        String::from_str("Pie Chart")
    }

    /// The placeholder reply of the scatter-chart endpoints.
    pub fn get_scatter_chart() -> (r: String)
        ensures
            r@ == "Scatter Chart"@,
    {
        String::from_str("Scatter Chart")
    }

    /// The placeholder reply of saving a scatter chart.
    pub fn save_scatter_chart() -> (r: String)
        ensures
            r@ == "Scatter Chart"@,
    {
        String::from_str("Scatter Chart")
    }

    /// The placeholder reply of the radar-chart endpoints.
    pub fn get_radar_chart() -> (r: String)
        ensures
            r@ == "Radar Chart"@,
    {
        String::from_str("Radar Chart")
    }

    /// The placeholder reply of saving a radar chart.
    pub fn save_radar_chart() -> (r: String)
        ensures
            r@ == "Radar Chart"@,
    {
        String::from_str("Radar Chart")
    }
}

} // verus!
