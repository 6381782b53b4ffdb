use rust_ssr_example_backend::calendar::ag_grid_date_part;
use rust_ssr_example_backend::calendar::CalendarDate;
use rust_ssr_example_backend::model::RawStockHistoryRow;
use rust_ssr_example_backend::repository::get_rows_error_status;
use rust_ssr_example_backend::repository::list_stock_history_sql;
use rust_ssr_example_backend::repository::row_to_stock_history;
use rust_ssr_example_backend::repository::RepositoryError;
use rust_ssr_example_backend::text::decimal_text;
use rust_ssr_example_backend::text::join_texts;
use rust_ssr_example_backend::text::parse_u64_text;
use rust_ssr_example_backend::text::same_text;
use rust_ssr_example_backend::text::IntTextError;

fn raw(open: &str, volume: &str) -> RawStockHistoryRow {
    RawStockHistoryRow {
        date: CalendarDate { year: 2024, month: 3, day: 8 },
        ticker: "AAPL".to_string(),
        open: open.to_string(),
        high: "171.25".to_string(),
        low: "169.00".to_string(),
        close: "170.73".to_string(),
        volume: volume.to_string(),
    }
}

#[test]
fn list_query_orders_newest_first() {
    assert_eq!(
        list_stock_history_sql(),
        r#"SELECT "DATE", TICKER, "OPEN", HIGH, LOW, "CLOSE", VOLUME FROM STOCK_HISTORY ORDER BY "DATE" DESC"#
    );
}

#[test]
fn rows_convert_prices_and_volume() {
    let row = row_to_stock_history(&raw("170.50", "52345678")).unwrap();
    assert_eq!(row.date, CalendarDate { year: 2024, month: 3, day: 8 });
    assert_eq!(row.ticker, "AAPL");
    assert_eq!(row.open, "170.50");
    assert_eq!(row.high, "171.25");
    assert_eq!(row.low, "169.00");
    assert_eq!(row.close, "170.73");
    assert_eq!(row.volume, 52345678);
}

#[test]
fn prices_take_the_decimal_display_form() {
    let row = row_to_stock_history(&raw(".5", "+7")).unwrap();
    assert_eq!(row.open, "0.5");
    assert_eq!(row.volume, 7);
}

#[test]
fn bad_prices_are_conversion_errors() {
    match row_to_stock_history(&raw("n/a", "1")) {
        Err(RepositoryError::StoredValue(msg)) => assert!(msg.starts_with("invalid open value: ")),
        other => panic!("unexpected {other:?}"),
    }
    match row_to_stock_history(&raw("", "1")) {
        Err(RepositoryError::StoredValue(msg)) => {
            assert_eq!(msg, "invalid open value: Failed to parse empty string")
        }
        other => panic!("unexpected {other:?}"),
    }
}

#[test]
fn bad_volumes_are_conversion_errors() {
    let cases = [
        ("", "invalid volume value: cannot parse integer from empty string"),
        ("12a", "invalid volume value: invalid digit found in string"),
        ("-3", "invalid volume value: invalid digit found in string"),
        ("+", "invalid volume value: invalid digit found in string"),
        ("18446744073709551616", "invalid volume value: number too large to fit in target type"),
    ];
    for (volume, msg) in cases {
        assert_eq!(
            row_to_stock_history(&raw("1", volume)),
            Err(RepositoryError::StoredValue(msg.to_string()))
        );
    }
}

#[test]
fn u64_parsing_matches_std() {
    for s in ["0", "42", "+42", "007", "18446744073709551615", "18446744073709551616", "", "+", "-", "-1", " 1", "1 ", "1_000", "١٢"] {
        let want = s.parse::<u64>();
        let got = parse_u64_text(s);
        match (want, got) {
            (Ok(a), Ok(b)) => assert_eq!(a, b),
            (Err(e), Err(k)) => {
                let kind = match k {
                    IntTextError::Empty => std::num::IntErrorKind::Empty,
                    IntTextError::InvalidDigit => std::num::IntErrorKind::InvalidDigit,
                    IntTextError::PosOverflow => std::num::IntErrorKind::PosOverflow,
                };
                assert_eq!(e.kind(), &kind, "{s}");
            }
            (w, g) => panic!("{s}: std {w:?}, here {g:?}"),
        }
    }
}

#[test]
fn decimal_text_reads_back() {
    for n in [0u64, 7, 10, 99, 100, 12345, u64::MAX] {
        let t = decimal_text(n);
        assert_eq!(t, n.to_string());
        assert_eq!(parse_u64_text(&t), Ok(n));
    }
}

#[test]
fn join_and_compare_texts() {
    let parts = vec!["a".to_string(), "b".to_string(), "c".to_string()];
    assert_eq!(join_texts(&parts, ", "), "a, b, c");
    assert_eq!(join_texts(&vec![], ", "), "");
    assert!(same_text("asc", "asc"));
    assert!(!same_text("asc", "ASC"));
}

#[test]
fn date_part_is_the_first_ten_bytes() {
    assert_eq!(ag_grid_date_part("2024-01-15 00:00:00"), "2024-01-15");
    assert_eq!(ag_grid_date_part("2024-01-15"), "2024-01-15");
    assert_eq!(ag_grid_date_part("2024-1-5"), "2024-1-5");
    assert_eq!(ag_grid_date_part("2024-01-é5"), "2024-01-é");
    assert_eq!(ag_grid_date_part("2024-01-0é"), "2024-01-0é");
}

#[test]
fn stored_values_that_do_not_convert_are_server_errors() {
    let err = row_to_stock_history(&raw("1", "lots")).unwrap_err();
    assert!(!err.is_client_error());
    assert_eq!(get_rows_error_status(&err), 500);
    assert_eq!(err.to_message(), "conversion error: invalid volume value: invalid digit found in string");
}
