use shikabom::sql::SqlValue;
use shikabom::stock::{create_new_stock, fetch_nonstocked_partnumbers, fetch_stock_info, StockInfo, StockRow};
use shikabom::stock_view::{CreateStockPartField, CurrentlyEditingStock};

#[test]
fn stock_rows_map_columns() {
    let rows = vec![StockRow {
        partnumber: Some("A".to_string()),
        low_stock_threshold: Some(5),
        on_hand: Some(10),
        on_order: Some(2),
        in_prod: Some(1),
        c_stock: Some(12),
        c_balance: Some(11),
        c_available: Some(9),
    }];
    let stock = fetch_stock_info(&rows);
    assert_eq!(stock.len(), 1);
    let s = &stock[0];
    assert_eq!(s.partnumber, "A");
    assert_eq!(s.low_stock_threshold, 5);
    assert_eq!(s.on_hand, 10);
    assert_eq!(s.on_order, 2);
    assert_eq!(s.in_prod, 1);
    assert_eq!(s.total_stock, 12);
    assert_eq!(s.balance, 11);
    assert_eq!(s.available, 9);
}

#[test]
fn stock_row_without_values_is_zero() {
    let rows = vec![StockRow {
        partnumber: None,
        low_stock_threshold: None,
        on_hand: None,
        on_order: None,
        in_prod: None,
        c_stock: None,
        c_balance: None,
        c_available: None,
    }];
    let s = &fetch_stock_info(&rows)[0];
    assert_eq!(s.partnumber, "");
    assert_eq!(s.on_hand, 0);
    assert_eq!(s.available, 0);
}

#[test]
fn nonstocked_numbers_default_to_empty() {
    let rows = Some(vec![Some("A".to_string()), None, Some("B".to_string())]);
    let pns = fetch_nonstocked_partnumbers(&rows);
    assert_eq!(pns, vec!["A".to_string(), String::new(), "B".to_string()]);
    assert!(fetch_nonstocked_partnumbers(&None).is_empty());
}

#[test]
fn new_stock_params_in_column_order() {
    let mut s = StockInfo::new();
    s.partnumber = "A".to_string();
    s.low_stock_threshold = 4;
    s.on_hand = 7;
    s.on_order = 3;
    let params = create_new_stock(s);
    assert_eq!(params.len(), 4);
    assert!(matches!(&params[0], SqlValue::Text(t) if t == "A"));
    assert!(matches!(params[1], SqlValue::Int(4)));
    assert!(matches!(params[2], SqlValue::Int(7)));
    assert!(matches!(params[3], SqlValue::Int(3)));
}

#[test]
fn stock_info_new_is_zero() {
    let s = StockInfo::new();
    assert_eq!(s.partnumber, "");
    assert_eq!(s.low_stock_threshold, 0);
    assert_eq!(s.total_stock, 0);
    assert_eq!(s.balance, 0);
}

#[test]
fn stock_form_parses_counters() {
    let mut e = CurrentlyEditingStock::new();
    assert!(e.active_field == CreateStockPartField::PartNumber);
    e.partnumber = "A".to_string();
    e.low_stock_threshold = "15".to_string();
    e.on_hand = "-3".to_string();
    let s = e.copy_to_stock_info();
    assert_eq!(s.partnumber, "A");
    assert_eq!(s.low_stock_threshold, 15);
    assert_eq!(s.on_hand, -3);
    assert_eq!(s.on_order, 0);
    assert_eq!(s.in_prod, 0);
}

#[test]
fn stock_form_unreadable_counters_are_zero() {
    let mut e = CurrentlyEditingStock::new();
    e.low_stock_threshold = "12a".to_string();
    e.on_hand = "99999999999".to_string();
    let s = e.copy_to_stock_info();
    assert_eq!(s.low_stock_threshold, 0);
    assert_eq!(s.on_hand, 0);
    let empty = CurrentlyEditingStock::new().copy_to_stock_info();
    assert_eq!(empty.low_stock_threshold, 0);
}
