use dashboard_core::data_service::DataService;

fn compile(entries: Vec<(&str, &str)>) -> String {
    let owned: Vec<(String, String)> = entries
        .into_iter()
        .map(|(k, v)| (k.to_string(), v.to_string()))
        .collect();
    DataService::get_query_table_where(" WHERE 1=1 ".to_string(), owned)
}

#[test]
fn date_key_compiles_to_one_day_range() {
    let out = compile(vec![("OrderDate", "2024-03-01")]);
    assert_eq!(
        out,
        " WHERE 1=1  AND OrderDate BETWEEN '2024-03-01' AND '2024-03-02'"
    );
}

#[test]
fn date_range_crosses_month_and_year() {
    let out = compile(vec![("OrderDate", "2024-12-31")]);
    assert_eq!(
        out,
        " WHERE 1=1  AND OrderDate BETWEEN '2024-12-31' AND '2025-01-01'"
    );
}

#[test]
fn date_range_respects_leap_years() {
    let leap = compile(vec![("OrderDate", "2024-02-28")]);
    assert_eq!(
        leap,
        " WHERE 1=1  AND OrderDate BETWEEN '2024-02-28' AND '2024-02-29'"
    );
    let common = compile(vec![("OrderDate", "2023-02-28")]);
    assert_eq!(
        common,
        " WHERE 1=1  AND OrderDate BETWEEN '2023-02-28' AND '2023-03-01'"
    );
}

#[test]
fn date_value_under_other_key_compiles_to_equality() {
    let out = compile(vec![("Created", "2024-03-01")]);
    assert_eq!(out, " WHERE 1=1  AND Created = '2024-03-01'");
}

#[test]
fn nid_key_compiles_to_equality() {
    let out = compile(vec![("CustNID", "42")]);
    assert_eq!(out, " WHERE 1=1  AND CustNID = '42'");
}

#[test]
fn id_key_compiles_to_equality() {
    let out = compile(vec![("CompanyID", "7")]);
    assert_eq!(out, " WHERE 1=1  AND CompanyID = '7'");
}

#[test]
fn underscore_key_compiles_to_equality() {
    let out = compile(vec![("_hidden", "x")]);
    assert_eq!(out, " WHERE 1=1  AND _hidden = 'x'");
}

#[test]
fn plain_key_compiles_to_substring_match() {
    let out = compile(vec![("Description", "foo")]);
    assert_eq!(out, " WHERE 1=1  AND Description LIKE '%foo%'");
}

#[test]
fn time_key_with_two_tokens_compiles_to_day_span() {
    let out = compile(vec![("LogTime", "2024-01-01to2024-01-31")]);
    assert_eq!(
        out,
        " WHERE 1=1  AND LogTime BETWEEN '2024-01-01 00:00:00' AND '2024-01-31 23:59:59'"
    );
}

#[test]
fn time_key_without_separator_is_dropped() {
    let out = compile(vec![("LogTime", "nonsense")]);
    assert_eq!(out, " WHERE 1=1 ");
}

#[test]
fn time_key_with_three_tokens_is_dropped() {
    let out = compile(vec![("LogTime", "atobtoc")]);
    assert_eq!(out, " WHERE 1=1 ");
}

#[test]
fn lenient_date_forms_keep_the_raw_lower_bound() {
    let out = compile(vec![("OrderDate", "2024-3-1")]);
    assert_eq!(
        out,
        " WHERE 1=1  AND OrderDate BETWEEN '2024-3-1' AND '2024-03-02'"
    );
}

#[test]
fn empty_map_leaves_base_clause() {
    let out = compile(vec![]);
    assert_eq!(out, " WHERE 1=1 ");
}

#[test]
fn entries_compile_in_order() {
    let out = compile(vec![("CustNID", "42"), ("Description", "foo")]);
    assert_eq!(
        out,
        " WHERE 1=1  AND CustNID = '42' AND Description LIKE '%foo%'"
    );
}

#[test]
fn dropped_entry_leaves_neighbours_intact() {
    let out = compile(vec![("LogTime", "broken"), ("CustNID", "42")]);
    assert_eq!(out, " WHERE 1=1  AND CustNID = '42'");
}

#[test]
fn output_always_begins_with_the_base_clause() {
    let cases: Vec<Vec<(&str, &str)>> = vec![
        vec![],
        vec![("CustNID", "42")],
        vec![("LogTime", "bad")],
        vec![("A", "x"), ("CustNID", "7"), ("LogTime", "bad")],
    ];
    for entries in cases {
        let expected_fragments = entries
            .iter()
            .filter(|(k, v)| !(k.ends_with("Time") && v.split("to").count() != 2))
            .count();
        let out = compile(entries);
        assert!(out.starts_with(" WHERE 1=1 "));
        assert_eq!(out.matches(" AND ").count(), expected_fragments);
    }
}

#[test]
fn non_date_value_is_not_a_range() {
    let out = compile(vec![("OrderDate", "hello")]);
    assert_eq!(out, " WHERE 1=1  AND OrderDate LIKE '%hello%'");
}
