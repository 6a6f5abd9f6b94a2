use dashboard_core::data_service::DataService;
use dashboard_core::model::{QueryError, TableDataParams};

fn params(
    tablename: &str,
    limit: i32,
    offset: i32,
    filter: Option<&str>,
    sort: Option<&str>,
    order: Option<&str>,
    nidkey: Option<&str>,
) -> TableDataParams {
    TableDataParams {
        tablename: tablename.to_string(),
        limit,
        offset,
        filter: filter.map(|s| s.to_string()),
        sort: sort.map(|s| s.to_string()),
        order: order.map(|s| s.to_string()),
        nidkey: nidkey.map(|s| s.to_string()),
    }
}

#[test]
fn limit_zero_builds_nothing() {
    let q = DataService::get_query_table(
        params("Orders", 0, 0, Some("not even json"), None, None, None),
        false,
    )
    .unwrap();
    assert_eq!(q.query, "");
    assert_eq!(q.query_total_all, "");
    assert_eq!(q.query_total_with_filter, "");
}

#[test]
fn default_request_builds_the_three_statements() {
    let q = DataService::get_query_table(params("Orders", 10, 0, None, None, None, None), false)
        .unwrap();
    assert_eq!(
        q.query_total_all,
        "SELECT count(*) as total FROM [Orders] WHERE 1=1 "
    );
    assert_eq!(
        q.query_total_with_filter,
        "SELECT count(*) as totalWithFilter FROM [Orders]  WHERE 1=1 "
    );
    assert_eq!(
        q.query,
        "SELECT * FROM [Orders]  WHERE 1=1   ORDER BY AutoNID DESC  OFFSET 0 ROWS FETCH NEXT 10 ROWS ONLY"
    );
}

#[test]
fn filter_entries_reach_all_three_statements() {
    let q = DataService::get_query_table(
        params("Orders", 5, 20, Some("{\"CustNID\":\"42\"}"), None, None, None),
        false,
    )
    .unwrap();
    assert_eq!(
        q.query_total_all,
        "SELECT count(*) as total FROM [Orders] WHERE 1=1  AND CustNID = '42'"
    );
    assert_eq!(
        q.query_total_with_filter,
        "SELECT count(*) as totalWithFilter FROM [Orders]  WHERE 1=1  AND CustNID = '42'"
    );
    assert_eq!(
        q.query,
        "SELECT * FROM [Orders]  WHERE 1=1  AND CustNID = '42'  ORDER BY AutoNID DESC  OFFSET 20 ROWS FETCH NEXT 5 ROWS ONLY"
    );
}

#[test]
fn sentinel_filter_means_no_filter() {
    let q = DataService::get_query_table(
        params("Orders", 10, 0, Some("{filter:undefined}"), None, None, None),
        false,
    )
    .unwrap();
    assert_eq!(
        q.query_total_all,
        "SELECT count(*) as total FROM [Orders] WHERE 1=1 "
    );
}

#[test]
fn empty_filter_object_means_no_clause() {
    let q =
        DataService::get_query_table(params("Orders", 10, 0, Some("{}"), None, None, None), false)
            .unwrap();
    assert_eq!(
        q.query_total_all,
        "SELECT count(*) as total FROM [Orders] WHERE 1=1 "
    );
}

#[test]
fn undecodable_filter_is_a_filter_error() {
    let r = DataService::get_query_table(
        params("Orders", 10, 0, Some("not json"), None, None, None),
        false,
    );
    assert_eq!(r.unwrap_err(), QueryError::FilterDecode);
}

#[test]
fn non_string_filter_value_is_a_filter_error() {
    let r = DataService::get_query_table(
        params("Orders", 10, 0, Some("{\"A\":1}"), None, None, None),
        false,
    );
    assert_eq!(r.unwrap_err(), QueryError::FilterDecode);
}

#[test]
fn filter_error_message_names_the_filter() {
    let r = DataService::get_query_table(
        params("Orders", 10, 0, Some("not json"), None, None, None),
        false,
    );
    assert_eq!(r.unwrap_err().message(), "Invalid filter");
}

#[test]
fn sort_and_order_drive_the_order_clause() {
    let q = DataService::get_query_table(
        params("Orders", 10, 0, None, Some("Name"), Some("ASC"), None),
        false,
    )
    .unwrap();
    assert_eq!(
        q.query,
        "SELECT * FROM [Orders]  WHERE 1=1   ORDER BY Name ASC  OFFSET 0 ROWS FETCH NEXT 10 ROWS ONLY"
    );
}

#[test]
fn sort_without_order_falls_back_to_primary_key() {
    let q = DataService::get_query_table(
        params("Orders", 10, 0, None, Some("Name"), None, None),
        false,
    )
    .unwrap();
    assert_eq!(
        q.query,
        "SELECT * FROM [Orders]  WHERE 1=1   ORDER BY AutoNID DESC  OFFSET 0 ROWS FETCH NEXT 10 ROWS ONLY"
    );
}

#[test]
fn primary_key_override_is_used() {
    let q = DataService::get_query_table(
        params("Orders", 10, 0, None, None, None, Some("OrderNID")),
        false,
    )
    .unwrap();
    assert_eq!(
        q.query,
        "SELECT * FROM [Orders]  WHERE 1=1   ORDER BY OrderNID DESC  OFFSET 0 ROWS FETCH NEXT 10 ROWS ONLY"
    );
}

#[test]
fn suppressed_paging_leaves_order_and_paging_empty() {
    let q = DataService::get_query_table(params("Orders", 10, 0, None, None, None, None), true)
        .unwrap();
    assert_eq!(q.query, "SELECT * FROM [Orders]  WHERE 1=1   ");
}
