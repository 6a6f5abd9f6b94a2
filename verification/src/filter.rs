//! The filter compiler: turns a mapping of column name to textual value into
//! a SQL predicate fragment, choosing comparison semantics from column-name
//! suffix conventions.

use vstd::prelude::*;
use crate::data_service::DataService;
use crate::dates::{date_of, date_succ, spec_date_str, parse_date, next_date, format_date};
use crate::text::{
    spec_ends_with, spec_starts_with_underscore, spec_time_parts, str_ends_with,
    starts_with_underscore, split_two_on_to,
};

verus! {

/// The fragment compiled for one filter entry.
///
/// A value that parses as a calendar date compiles to a one-day `BETWEEN`
/// range when the key ends in `Date`, and to an exact match otherwise. A key
/// ending in `Time` expects two tokens joined by `to` and compiles to a
/// day-span `BETWEEN` range, or to nothing when the split does not give
/// exactly two tokens. A key starting with an underscore or ending in `NID`
/// or `ID` compiles to an exact match. Everything else compiles to a
/// substring `LIKE` match.
pub open spec fn spec_filter_clause(key: Seq<char>, value: Seq<char>) -> Seq<char> {
    if date_of(value) is Some {
        if spec_ends_with(key, "Date"@) {
            let p = date_of(value)->Some_0;
            let n = date_succ(p.0, p.1, p.2);
            " AND "@ + key + " BETWEEN '"@ + value + "' AND '"@ + spec_date_str(n.0, n.1, n.2)
                + "'"@
        } else {
            " AND "@ + key + " = '"@ + value + "'"@
        }
    } else if spec_ends_with(key, "Time"@) {
        match spec_time_parts(value) {
            Some(p) => " AND "@ + key + " BETWEEN '"@ + p.0 + " 00:00:00' AND '"@ + p.1
                + " 23:59:59'"@,
            None => Seq::empty(),
        }
    } else if spec_starts_with_underscore(key) || spec_ends_with(key, "NID"@) || spec_ends_with(
        key,
        "ID"@,
    ) {
        " AND "@ + key + " = '"@ + value + "'"@
    } else {
        " AND "@ + key + " LIKE '%"@ + value + "%'"@
    }
}

/// The concatenation of the fragments of all entries, in order.
pub open spec fn spec_where_tail(entries: Seq<(Seq<char>, Seq<char>)>) -> Seq<char>
    decreases entries.len(),
{
    if entries.len() == 0 {
        Seq::empty()
    } else {
        spec_where_tail(entries.drop_last()) + spec_filter_clause(
            entries.last().0,
            entries.last().1,
        )
    }
}

/// A compiled WHERE clause: the base clause followed by one fragment per
/// entry.
pub open spec fn spec_where_clause(base: Seq<char>, entries: Seq<(Seq<char>, Seq<char>)>) -> Seq<
    char,
> {
    base + spec_where_tail(entries)
}

/// The views of a vector of owned filter entries.
pub open spec fn entries_view(entries: Seq<(String, String)>) -> Seq<(Seq<char>, Seq<char>)> {
    entries.map_values(|p: (String, String)| (p.0@, p.1@))
}

/// Law: a compiled WHERE clause always begins with its base clause, and is
/// the base followed by exactly one fragment per entry, where each fragment
/// either begins with `" AND "` or is empty — the latter exactly for a
/// malformed time range on a `Time` key.
pub proof fn lemma_where_clause_shape(base: Seq<char>, entries: Seq<(Seq<char>, Seq<char>)>)
    ensures
        spec_where_clause(base, entries) == base + spec_where_tail(entries),
        spec_where_clause(base, entries).len() >= base.len(),
        spec_where_clause(base, entries).take(base.len() as int) == base,
        forall|i: int|
            0 <= i < entries.len() ==> {
                let fragment = #[trigger] spec_filter_clause(entries[i].0, entries[i].1);
                (fragment.len() >= 5 && fragment.take(5) == " AND "@) || (fragment
                    == Seq::<char>::empty() && !(date_of(entries[i].1) is Some)
                    && spec_ends_with(entries[i].0, "Time"@) && spec_time_parts(entries[i].1)
                    is None)
            },
{
    reveal_strlit(" AND ");
    assert(spec_where_clause(base, entries).take(base.len() as int) =~= base);
    assert forall|i: int| 0 <= i < entries.len() implies {
        let fragment = #[trigger] spec_filter_clause(entries[i].0, entries[i].1);
        (fragment.len() >= 5 && fragment.take(5) == " AND "@) || (fragment
            == Seq::<char>::empty() && !(date_of(entries[i].1) is Some) && spec_ends_with(
            entries[i].0,
            "Time"@,
        ) && spec_time_parts(entries[i].1) is None)
    } by {
        let key = entries[i].0;
        let value = entries[i].1;
        let fragment = spec_filter_clause(key, value);
        if date_of(value) is Some {
            assert(fragment.take(5) =~= " AND "@);
        } else if spec_ends_with(key, "Time"@) {
            match spec_time_parts(value) {
                Some(p) => {
                    assert(fragment.take(5) =~= " AND "@);
                },
                None => {
                    assert(fragment =~= Seq::<char>::empty());
                },
            }
        } else {
            assert(fragment.take(5) =~= " AND "@);
        }
    }
}

impl DataService {
    /// Compiles the filter mapping onto the given base clause, appending one
    /// fragment per entry in order.
    pub fn get_query_table_where(fquery: String, filter_name: Vec<(String, String)>) -> (r: String)
        ensures
            r@ == spec_where_clause(fquery@, entries_view(filter_name@)),
    {
        let ghost all_entries = entries_view(filter_name@);
        let mut out = fquery;
        let n = filter_name.len();
        let mut i: usize = 0;
        while i < n
            invariant
                i <= n,
                n == filter_name.len(),
                all_entries == entries_view(filter_name@),
                out@ == spec_where_clause(fquery@, all_entries.take(i as int)),
            decreases n - i,
        {
            let key = &filter_name[i].0;
            let value = &filter_name[i].1;
            let ghost out_before = out@;
            match parse_date(value.as_str()) {
                Some((y, m, d)) => {
                    if str_ends_with(key.as_str(), "Date") {
                        let nxt = next_date(y, m, d);
                        let nstr = format_date(nxt.0, nxt.1, nxt.2);
                        out.append(" AND ");
                        out.append(key.as_str());
                        out.append(" BETWEEN '");
                        out.append(value.as_str());
                        out.append("' AND '");
                        out.append(nstr.as_str());
                        out.append("'");
                    } else {
                        out.append(" AND ");
                        out.append(key.as_str());
                        out.append(" = '");
                        out.append(value.as_str());
                        out.append("'");
                    }
                },
                None => {
                    if str_ends_with(key.as_str(), "Time") {
                        match split_two_on_to(value.as_str()) {
                            Some(parts) => {
                                out.append(" AND ");
                                out.append(key.as_str());
                                out.append(" BETWEEN '");
                                out.append(parts.0.as_str());
                                out.append(" 00:00:00' AND '");
                                out.append(parts.1.as_str());
                                out.append(" 23:59:59'");
                            },
                            None => {},
                        }
                    } else if starts_with_underscore(key.as_str()) || str_ends_with(
                        key.as_str(),
                        "NID",
                    ) || str_ends_with(key.as_str(), "ID") {
                        out.append(" AND ");
                        out.append(key.as_str());
                        out.append(" = '");
                        out.append(value.as_str());
                        out.append("'");
                    } else {
                        out.append(" AND ");
                        out.append(key.as_str());
                        out.append(" LIKE '%");
                        out.append(value.as_str());
                        out.append("%'");
                    }
                },
            }
            proof {
                assert(out@ =~= out_before + spec_filter_clause(key@, value@));
                assert(all_entries.take(i + 1 as int).drop_last() =~= all_entries.take(i as int));
                assert(all_entries.take(i + 1 as int).last() == (key@, value@));
                assert(spec_where_clause(fquery@, all_entries.take(i + 1 as int)) =~= out_before
                    + spec_filter_clause(key@, value@));
            }
            i += 1;
        }
        proof {
            assert(all_entries.take(n as int) =~= all_entries);
        }
        out
    }
}

} // verus!
