use rust_ssr_example_backend::calendar::CalendarDate;
use rust_ssr_example_backend::repository::column_def;
use rust_ssr_example_backend::repository::get_rows_error_status;
use rust_ssr_example_backend::repository::plan_get_rows;
use rust_ssr_example_backend::repository::BindValue;
use rust_ssr_example_backend::repository::ColumnKind;
use rust_ssr_example_backend::repository::RepositoryError;
use rust_ssr_example_backend::ssrm::DateFilterModel;
use rust_ssr_example_backend::ssrm::FilterModel;
use rust_ssr_example_backend::ssrm::GetRowsRequest;
use rust_ssr_example_backend::ssrm::NumberFilterModel;
use rust_ssr_example_backend::ssrm::SortModelItem;
use rust_ssr_example_backend::ssrm::TextFilterModel;

const COLUMNS: &str = r#""DATE", TICKER, "OPEN", HIGH, LOW, "CLOSE", VOLUME"#;

fn request(start: i64, end: i64) -> GetRowsRequest {
    GetRowsRequest { start_row: start, end_row: end, sort_model: vec![], filter_model: vec![] }
}

fn text(op: &str, value: Option<&str>) -> FilterModel {
    FilterModel::Text(TextFilterModel {
        filter_op: op.to_string(),
        filter: value.map(|v| v.to_string()),
    })
}

fn number(op: &str, from: Option<f64>, to: Option<f64>) -> FilterModel {
    FilterModel::Number(NumberFilterModel {
        filter_op: op.to_string(),
        filter: from.map(f64::to_bits),
        filter_to: to.map(f64::to_bits),
    })
}

fn date(op: &str, from: Option<&str>, to: Option<&str>) -> FilterModel {
    FilterModel::Date(DateFilterModel {
        filter_op: op.to_string(),
        date_from: from.map(|v| v.to_string()),
        date_to: to.map(|v| v.to_string()),
    })
}

fn sort(col: &str, dir: &str) -> SortModelItem {
    SortModelItem { col_id: col.to_string(), sort: dir.to_string() }
}

fn page(where_sql: &str, order: &str, offset: i64, fetch: i64) -> String {
    format!(
        "SELECT {COLUMNS} FROM STOCK_HISTORY{where_sql} ORDER BY {order} OFFSET {offset} ROWS FETCH NEXT {fetch} ROWS ONLY"
    )
}

fn conversion(msg: &str) -> RepositoryError {
    RepositoryError::Conversion(msg.to_string())
}

#[test]
fn column_def_knows_the_grid_columns() {
    let d = column_def("date").unwrap();
    assert_eq!(d.sql_name, "\"DATE\"");
    assert_eq!(d.kind, ColumnKind::Date);
    let t = column_def("ticker").unwrap();
    assert_eq!(t.sql_name, "TICKER");
    assert_eq!(t.kind, ColumnKind::Text);
    assert_eq!(column_def("open").unwrap().sql_name, "\"OPEN\"");
    assert_eq!(column_def("high").unwrap().sql_name, "HIGH");
    assert_eq!(column_def("low").unwrap().sql_name, "LOW");
    assert_eq!(column_def("close").unwrap().sql_name, "\"CLOSE\"");
    let v = column_def("volume").unwrap();
    assert_eq!(v.sql_name, "VOLUME");
    assert_eq!(v.kind, ColumnKind::Number);
}

#[test]
fn column_def_rejects_other_ids() {
    assert!(column_def("Date").is_none());
    assert!(column_def("DATE; DROP TABLE STOCK_HISTORY").is_none());
    assert!(column_def("").is_none());
}

#[test]
fn empty_request_pages_with_tiebreak() {
    let q = plan_get_rows(&request(0, 100)).unwrap().unwrap();
    assert_eq!(q.count_sql, "SELECT COUNT(*) FROM STOCK_HISTORY");
    assert_eq!(q.page_sql, page("", "\"DATE\" DESC, TICKER ASC", 0, 100));
    assert!(q.binds.is_empty());
}

#[test]
fn negative_start_and_short_range_are_clamped() {
    let q = plan_get_rows(&request(-5, 20)).unwrap().unwrap();
    assert_eq!(q.page_sql, page("", "\"DATE\" DESC, TICKER ASC", 0, 20));
    let q = plan_get_rows(&request(50, 10)).unwrap().unwrap();
    assert_eq!(q.page_sql, page("", "\"DATE\" DESC, TICKER ASC", 50, 0));
}

#[test]
fn text_filters_bind_their_operands() {
    let cases = [
        ("equals", "TICKER = :1", "AAPL"),
        ("notEqual", "TICKER <> :1", "AAPL"),
        ("contains", "TICKER LIKE :1", "%AAPL%"),
        ("notContains", "TICKER NOT LIKE :1", "%AAPL%"),
        ("startsWith", "TICKER LIKE :1", "AAPL%"),
        ("endsWith", "TICKER LIKE :1", "%AAPL"),
    ];
    for (op, predicate, bound) in cases {
        let mut r = request(0, 10);
        r.filter_model.push(("ticker".to_string(), text(op, Some("AAPL"))));
        let q = plan_get_rows(&r).unwrap().unwrap();
        let w = format!(" WHERE {predicate}");
        assert_eq!(q.count_sql, format!("SELECT COUNT(*) FROM STOCK_HISTORY{w}"));
        assert_eq!(q.page_sql, page(&w, "\"DATE\" DESC, TICKER ASC", 0, 10));
        assert_eq!(q.binds, vec![BindValue::Text(bound.to_string())]);
    }
}

#[test]
fn blank_filters_bind_nothing() {
    let mut r = request(0, 10);
    r.filter_model.push(("ticker".to_string(), text("blank", Some("ignored"))));
    r.filter_model.push(("open".to_string(), number("notBlank", None, None)));
    r.filter_model.push(("date".to_string(), date("blank", None, None)));
    let q = plan_get_rows(&r).unwrap().unwrap();
    assert_eq!(
        q.count_sql,
        "SELECT COUNT(*) FROM STOCK_HISTORY WHERE TICKER IS NULL AND \"OPEN\" IS NOT NULL AND \"DATE\" IS NULL"
    );
    assert!(q.binds.is_empty());
}

#[test]
fn number_filters_number_their_placeholders_in_order() {
    let mut r = request(0, 10);
    r.filter_model.push(("high".to_string(), number("inRange", Some(1.5), Some(2.5))));
    r.filter_model.push(("volume".to_string(), number("greaterThanOrEqual", Some(1000.0), None)));
    r.filter_model.push(("low".to_string(), number("lessThan", Some(3.0), None)));
    let q = plan_get_rows(&r).unwrap().unwrap();
    assert_eq!(
        q.count_sql,
        "SELECT COUNT(*) FROM STOCK_HISTORY WHERE HIGH BETWEEN :1 AND :2 AND VOLUME >= :3 AND LOW < :4"
    );
    assert_eq!(
        q.binds,
        vec![
            BindValue::Num(1.5f64.to_bits()),
            BindValue::Num(2.5f64.to_bits()),
            BindValue::Num(1000.0f64.to_bits()),
            BindValue::Num(3.0f64.to_bits()),
        ]
    );
}

#[test]
fn number_comparisons() {
    let cases = [
        ("equals", "="),
        ("notEqual", "<>"),
        ("lessThan", "<"),
        ("lessThanOrEqual", "<="),
        ("greaterThan", ">"),
        ("greaterThanOrEqual", ">="),
    ];
    for (op, sym) in cases {
        let mut r = request(0, 10);
        r.filter_model.push(("close".to_string(), number(op, Some(7.0), None)));
        let q = plan_get_rows(&r).unwrap().unwrap();
        assert_eq!(q.count_sql, format!("SELECT COUNT(*) FROM STOCK_HISTORY WHERE \"CLOSE\" {sym} :1"));
    }
}

#[test]
fn date_filters_read_the_date_part() {
    let mut r = request(0, 10);
    r.filter_model.push(("date".to_string(), date("equals", Some("2024-01-15 00:00:00"), None)));
    let q = plan_get_rows(&r).unwrap().unwrap();
    assert_eq!(q.count_sql, "SELECT COUNT(*) FROM STOCK_HISTORY WHERE \"DATE\" = :1");
    assert_eq!(q.binds, vec![BindValue::Date(CalendarDate { year: 2024, month: 1, day: 15 })]);
}

#[test]
fn date_range_binds_both_ends() {
    let mut r = request(0, 10);
    r.filter_model.push((
        "date".to_string(),
        date("inRange", Some("2023-12-31T00:00:00.000Z"), Some("2024-02-29")),
    ));
    let q = plan_get_rows(&r).unwrap().unwrap();
    assert_eq!(q.count_sql, "SELECT COUNT(*) FROM STOCK_HISTORY WHERE \"DATE\" BETWEEN :1 AND :2");
    assert_eq!(
        q.binds,
        vec![
            BindValue::Date(CalendarDate { year: 2023, month: 12, day: 31 }),
            BindValue::Date(CalendarDate { year: 2024, month: 2, day: 29 }),
        ]
    );
}

#[test]
fn date_comparisons() {
    for (op, sym) in [("notEqual", "<>"), ("lessThan", "<"), ("greaterThan", ">")] {
        let mut r = request(0, 10);
        r.filter_model.push(("date".to_string(), date(op, Some("2020-06-01"), None)));
        let q = plan_get_rows(&r).unwrap().unwrap();
        assert_eq!(q.count_sql, format!("SELECT COUNT(*) FROM STOCK_HISTORY WHERE \"DATE\" {sym} :1"));
    }
}

#[test]
fn invalid_dates_are_conversion_errors() {
    let mut r = request(0, 10);
    r.filter_model.push(("date".to_string(), date("equals", Some("2024-13-01"), None)));
    assert_eq!(
        plan_get_rows(&r),
        Err(conversion("invalid date filter value: input is out of range"))
    );
    let mut r = request(0, 10);
    r.filter_model.push(("date".to_string(), date("equals", Some("yesterday"), None)));
    assert_eq!(
        plan_get_rows(&r),
        Err(conversion("invalid date filter value: input contains invalid characters"))
    );
    let mut r = request(0, 10);
    r.filter_model.push(("date".to_string(), date("equals", Some("2023-02-29"), None)));
    assert_eq!(
        plan_get_rows(&r),
        Err(conversion("invalid date filter value: input is out of range"))
    );
}

#[test]
fn missing_operands_are_conversion_errors() {
    let cases = [
        (("ticker", text("equals", None)), "missing text filter value"),
        (("open", number("inRange", None, Some(1.0))), "missing inRange filter value"),
        (("open", number("inRange", Some(1.0), None)), "missing inRange filterTo value"),
        (("open", number("equals", None, None)), "missing number filter value"),
        (("date", date("inRange", None, Some("2024-01-01"))), "missing dateFrom filter value"),
        (("date", date("inRange", Some("2024-01-01"), None)), "missing dateTo filter value"),
        (("date", date("equals", None, None)), "missing dateFrom filter value"),
    ];
    for ((col, f), msg) in cases {
        let mut r = request(0, 10);
        r.filter_model.push((col.to_string(), f));
        assert_eq!(plan_get_rows(&r), Err(conversion(msg)));
    }
}

#[test]
fn unsupported_operations_are_conversion_errors() {
    let cases = [
        (("ticker", text("regex", Some("A.*"))), "unsupported text filter type: regex"),
        (("open", number("between", Some(1.0), None)), "unsupported number filter type: between"),
        (("date", date("lessThanOrEqual", Some("2024-01-01"), None)), "unsupported date filter type: lessThanOrEqual"),
    ];
    for ((col, f), msg) in cases {
        let mut r = request(0, 10);
        r.filter_model.push((col.to_string(), f));
        assert_eq!(plan_get_rows(&r), Err(conversion(msg)));
    }
}

#[test]
fn unknown_and_mismatched_filter_columns_are_rejected() {
    let mut r = request(0, 10);
    r.filter_model.push(("price".to_string(), number("equals", Some(1.0), None)));
    assert_eq!(plan_get_rows(&r), Err(conversion("unknown filter column: price")));
    let mut r = request(0, 10);
    r.filter_model.push(("ticker".to_string(), number("equals", Some(1.0), None)));
    assert_eq!(plan_get_rows(&r), Err(conversion("filter type does not match column: ticker")));
}

#[test]
fn sort_keys_come_before_the_tiebreak() {
    let mut r = request(10, 30);
    r.sort_model.push(sort("volume", "desc"));
    r.sort_model.push(sort("ticker", "ASC"));
    let q = plan_get_rows(&r).unwrap().unwrap();
    assert_eq!(
        q.page_sql,
        page("", "VOLUME DESC, TICKER ASC, \"DATE\" DESC, TICKER ASC", 10, 20)
    );
}

#[test]
fn sort_direction_is_read_in_lowercase() {
    let mut r = request(0, 10);
    r.sort_model.push(sort("open", "Desc"));
    let q = plan_get_rows(&r).unwrap().unwrap();
    assert_eq!(q.page_sql, page("", "\"OPEN\" DESC, \"DATE\" DESC, TICKER ASC", 0, 10));
    let mut r = request(0, 10);
    r.sort_model.push(sort("open", "UPWARD"));
    assert_eq!(plan_get_rows(&r), Err(conversion("unsupported sort direction: upward")));
}

#[test]
fn unknown_sort_columns_are_rejected() {
    let mut r = request(0, 10);
    r.sort_model.push(sort("price", "asc"));
    assert_eq!(plan_get_rows(&r), Err(conversion("unknown sort column: price")));
}

#[test]
fn filter_errors_come_before_sort_errors() {
    let mut r = request(0, 10);
    r.sort_model.push(sort("price", "asc"));
    r.filter_model.push(("ticker".to_string(), text("equals", None)));
    assert_eq!(plan_get_rows(&r), Err(conversion("missing text filter value")));
}

#[test]
fn plain_dates_in_any_case_of_direction() {
    let mut r = request(0, 10);
    r.filter_model.push(("date".to_string(), date("greaterThan", Some("0000-02-29"), None)));
    r.sort_model.push(sort("date", "aSc"));
    let q = plan_get_rows(&r).unwrap().unwrap();
    assert_eq!(q.binds, vec![BindValue::Date(CalendarDate { year: 0, month: 2, day: 29 })]);
    assert_eq!(q.page_sql, page(" WHERE \"DATE\" > :1", "\"DATE\" ASC, \"DATE\" DESC, TICKER ASC", 0, 10));
}

#[test]
fn filter_values_never_reach_the_sql() {
    let mut a = request(0, 10);
    a.filter_model.push(("ticker".to_string(), text("contains", Some("x' OR '1'='1"))));
    let mut b = request(0, 10);
    b.filter_model.push(("ticker".to_string(), text("contains", Some("MSFT"))));
    let qa = plan_get_rows(&a).unwrap().unwrap();
    let qb = plan_get_rows(&b).unwrap().unwrap();
    assert_eq!(qa.count_sql, qb.count_sql);
    assert_eq!(qa.page_sql, qb.page_sql);
    assert_eq!(qa.binds.len(), qb.binds.len());
}

#[test]
fn planning_errors_answer_bad_request() {
    let mut r = request(0, 10);
    r.filter_model.push(("price".to_string(), text("equals", Some("1"))));
    let err = plan_get_rows(&r).unwrap_err();
    assert!(err.is_client_error());
    assert_eq!(get_rows_error_status(&err), 400);
    let db = RepositoryError::Database("ORA-12541: TNS:no listener".to_string());
    assert!(!db.is_client_error());
    assert_eq!(get_rows_error_status(&db), 500);
}

#[test]
fn errors_display_their_origin() {
    assert_eq!(conversion("bad").to_message(), "conversion error: bad");
    assert_eq!(
        RepositoryError::Database("ORA-01017".to_string()).to_message(),
        "database error: ORA-01017"
    );
}

#[test]
fn bad_requests_fail_whatever_the_rows_asked_for() {
    let mut r = request(1, i64::MIN);
    r.filter_model.push(("price".to_string(), text("equals", Some("1"))));
    assert_eq!(plan_get_rows(&r), Err(conversion("unknown filter column: price")));
}

#[test]
fn an_overflowing_block_length_has_no_plan() {
    assert_eq!(plan_get_rows(&request(1, i64::MIN)), Ok(None));
    let q = plan_get_rows(&request(0, i64::MIN)).unwrap().unwrap();
    assert_eq!(q.page_sql, page("", "\"DATE\" DESC, TICKER ASC", 0, 0));
}
