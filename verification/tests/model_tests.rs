use dashboard_core::chart::ChartService;
use dashboard_core::data_service::DataService;
use dashboard_core::generic::GenericService;
use dashboard_core::model::{ActionResult, BarChartParams, QueryError, ResultList};

#[test]
fn totals_agree_when_no_filter_was_supplied() {
    let r = ResultList::assemble(&None, 25, None, vec![]);
    assert_eq!(r.totalNotFiltered, 25);
    assert_eq!(r.total, 25);
}

#[test]
fn sentinel_filter_means_no_filter_for_the_totals() {
    let r = ResultList::assemble(&Some("{filter:undefined}".to_string()), 10, None, vec![]);
    assert_eq!(r.totalNotFiltered, 10);
    assert_eq!(r.total, 10);
}

#[test]
fn real_filter_takes_the_filtered_count() {
    let r = ResultList::assemble(&Some("{\"A\":\"b\"}".to_string()), 10, Some(4), vec![]);
    assert_eq!(r.total, 4);
}

#[test]
fn missing_filtered_count_reads_as_zero() {
    let r = ResultList::assemble(&Some("{\"A\":\"b\"}".to_string()), 10, None, vec![]);
    assert_eq!(r.total, 0);
}

#[test]
fn end_to_end_defaults_for_a_twenty_five_row_table() {
    let q = DataService::get_query_table(
        dashboard_core::model::TableDataParams {
            tablename: "Orders".to_string(),
            limit: 10,
            offset: 0,
            filter: None,
            sort: None,
            order: None,
            nidkey: None,
        },
        false,
    )
    .unwrap();
    assert_eq!(
        q.query,
        "SELECT * FROM [Orders]  WHERE 1=1   ORDER BY AutoNID DESC  OFFSET 0 ROWS FETCH NEXT 10 ROWS ONLY"
    );
    assert_eq!(
        q.query_total_all,
        "SELECT count(*) as total FROM [Orders] WHERE 1=1 "
    );
    let r = ResultList::assemble(&None, 25, None, vec![]);
    assert_eq!(r.totalNotFiltered, 25);
    assert_eq!(r.total, 25);
}

#[test]
fn default_action_result_is_empty_and_unsuccessful() {
    let r: ActionResult<String, String> = ActionResult::default();
    assert!(!r.result);
    assert_eq!(r.message, "");
    assert!(r.data.is_none());
    assert!(r.error.is_none());
}

#[test]
fn chart_id_dashes_and_lowercases_the_name() {
    let id = ChartService::chart_id_of(&Some("My Chart Name".to_string()));
    assert_eq!(id, "my-chart-name");
}

#[test]
fn chart_id_of_a_missing_name_is_empty() {
    assert_eq!(ChartService::chart_id_of(&None), "");
}

#[test]
fn bar_chart_query_groups_by_the_chosen_column() {
    let q = ChartService::get_bar_chart_query(BarChartParams {
        tablename: "Orders".to_string(),
        column: "BuySell".to_string(),
        filter: None,
    })
    .unwrap();
    assert_eq!(
        q,
        "SELECT BuySell AS Value, COUNT(*) as Count FROM Orders  WHERE 1=1  GROUP BY BuySell"
    );
}

#[test]
fn bar_chart_query_applies_the_filter() {
    let q = ChartService::get_bar_chart_query(BarChartParams {
        tablename: "Orders".to_string(),
        column: "BuySell".to_string(),
        filter: Some("{\"CustNID\":\"42\"}".to_string()),
    })
    .unwrap();
    assert_eq!(
        q,
        "SELECT BuySell AS Value, COUNT(*) as Count FROM Orders  WHERE 1=1  AND CustNID = '42' GROUP BY BuySell"
    );
}

#[test]
fn bar_chart_query_rejects_a_bad_filter() {
    let r = ChartService::get_bar_chart_query(BarChartParams {
        tablename: "Orders".to_string(),
        column: "BuySell".to_string(),
        filter: Some("nope".to_string()),
    });
    assert_eq!(r.unwrap_err(), QueryError::FilterDecode);
}

#[test]
fn save_outcome_counts_the_statements() {
    let (ok, msg) = ChartService::save_bar_chart_outcome(&vec![1]);
    assert!(ok);
    assert_eq!(msg, "1 BarChart saved successfully");
}

#[test]
fn save_outcome_reports_nothing_saved() {
    let (ok, msg) = ChartService::save_bar_chart_outcome(&vec![0]);
    assert!(!ok);
    assert_eq!(msg, "No BarChart found to save");
}

#[test]
fn update_outcome_messages() {
    let (ok, msg) = ChartService::update_bar_chart_outcome(&vec![0, 3]);
    assert!(ok);
    assert_eq!(msg, "2 BarChart updated successfully");
    let (ok2, msg2) = ChartService::update_bar_chart_outcome(&vec![]);
    assert!(!ok2);
    assert_eq!(msg2, "No BarChart found to update");
}

#[test]
fn delete_outcome_messages() {
    let (ok, msg) = ChartService::delete_bar_chart_outcome(&vec![0, 2]);
    assert!(ok);
    assert_eq!(msg, "2 BarChart(s) deleted successfully");
    let (ok2, msg2) = ChartService::delete_bar_chart_outcome(&vec![0]);
    assert!(!ok2);
    assert_eq!(msg2, "No BarChart found to delete");
}

#[test]
fn placeholder_chart_replies() {
    assert_eq!(ChartService::get_line_chart(), "Line Chart");
    assert_eq!(ChartService::save_pie_chart(), "Pie Chart");
    assert_eq!(ChartService::get_scatter_chart(), "Scatter Chart");
    assert_eq!(ChartService::save_radar_chart(), "Radar Chart");
}

#[test]
fn data_header_reply() {
    assert_eq!(DataService::get_header(), "Data");
}

#[test]
fn filtered_count_runs_only_for_a_real_filter() {
    assert!(!DataService::wants_filtered_count(&None));
    assert!(!DataService::wants_filtered_count(&Some(
        "{filter:undefined}".to_string()
    )));
    assert!(DataService::wants_filtered_count(&Some(
        "{\"A\":\"b\"}".to_string()
    )));
}

#[test]
fn order_listing_limits_are_defaulted_and_capped() {
    assert_eq!(GenericService::effective_limit(None), 50);
    assert_eq!(GenericService::effective_limit(Some(7)), 7);
    assert_eq!(GenericService::effective_limit(Some(99999)), 10000);
    assert_eq!(GenericService::effective_last_id(None), 0);
    assert_eq!(GenericService::effective_last_id(Some(12)), 12);
}

#[test]
fn company_cells_default_to_empty_strings() {
    let c = GenericService::company_from_cells(Some("SS".to_string()), None);
    assert_eq!(c.company_id, "SS");
    assert_eq!(c.company_name, "");
}
