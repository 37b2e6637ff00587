use vstd::prelude::*;
use crate::sql::{params_view, SqlValue, SqlValueModel};
use crate::text::{string_or_empty, view_or_empty};

verus! {

/// Stock counters of one stocked part.
pub struct StockInfo {
    pub partnumber: String,
    pub low_stock_threshold: i32,
    pub on_hand: i32,
    pub on_order: i32,
    pub in_prod: i32,
    pub total_stock: i32,
    pub balance: i32,
    pub available: i32,
}

impl StockInfo {
    /// Stock of no part: empty part number, every counter zero.
    pub fn new() -> (r: StockInfo)
        ensures
            r.partnumber@.len() == 0,
            r.low_stock_threshold == 0,
            r.on_hand == 0,
            r.on_order == 0,
            r.in_prod == 0,
            r.total_stock == 0,
            r.balance == 0,
            r.available == 0,
    {
        StockInfo {
            partnumber: String::new(),
            low_stock_threshold: 0,
            on_hand: 0,
            on_order: 0,
            in_prod: 0,
            total_stock: 0,
            balance: 0,
            available: 0,
        }
    }
}

/// The columns of one row of the stock listing, each as read: `None` where
/// the column is null or could not be read as its type.
pub struct StockRow {
    pub partnumber: Option<String>,
    pub low_stock_threshold: Option<i32>,
    pub on_hand: Option<i32>,
    pub on_order: Option<i32>,
    pub in_prod: Option<i32>,
    pub c_stock: Option<i32>,
    pub c_balance: Option<i32>,
    pub c_available: Option<i32>,
}

/// The stock entry that a row describes, unreadable columns taken as empty or zero.
pub open spec fn stock_matches_row(s: StockInfo, row: StockRow) -> bool {
    &&& s.partnumber@ == view_or_empty(row.partnumber)
    &&& s.low_stock_threshold == row.low_stock_threshold.unwrap_or(0)
    &&& s.on_hand == row.on_hand.unwrap_or(0)
    &&& s.on_order == row.on_order.unwrap_or(0)
    &&& s.in_prod == row.in_prod.unwrap_or(0)
    &&& s.total_stock == row.c_stock.unwrap_or(0)
    &&& s.balance == row.c_balance.unwrap_or(0)
    &&& s.available == row.c_available.unwrap_or(0)
}

/// The stock entries of the stock listing, one per row, in row order.
pub fn fetch_stock_info(rows: &Vec<StockRow>) -> (r: Vec<StockInfo>)
    ensures
        r@.len() == rows@.len(),
        forall|i: int| 0 <= i < rows@.len() ==> stock_matches_row(#[trigger] r@[i], rows@[i]),
{
    let mut stock_data: Vec<StockInfo> = Vec::new();
    let mut i: usize = 0;
    while i < rows.len()
        invariant
            i <= rows@.len(),
            stock_data@.len() == i,
            forall|j: int| 0 <= j < i ==> stock_matches_row(#[trigger] stock_data@[j], rows@[j]),
        decreases rows@.len() - i,
    {
        let row = &rows[i];
        let mut stock = StockInfo::new();
        stock.partnumber = string_or_empty(&row.partnumber);
        stock.low_stock_threshold = row.low_stock_threshold.unwrap_or(0);
        stock.on_hand = row.on_hand.unwrap_or(0);
        stock.on_order = row.on_order.unwrap_or(0);
        stock.in_prod = row.in_prod.unwrap_or(0);
        stock.total_stock = row.c_stock.unwrap_or(0);
        stock.balance = row.c_balance.unwrap_or(0);
        stock.available = row.c_available.unwrap_or(0);
        stock_data.push(stock);
        i = i + 1;
    }
    stock_data
}

/// The part numbers of the parts that have no stock entry, one per row of
/// the listing (an unreadable one as empty text); none when the listing
/// could not be read.
pub fn fetch_nonstocked_partnumbers(rows: &Option<Vec<Option<String>>>) -> (r: Vec<String>)
    ensures
        rows is None ==> r@.len() == 0,
        rows matches Some(v) ==> {
            &&& r@.len() == v@.len()
            &&& forall|i: int| 0 <= i < v@.len() ==> (#[trigger] r@[i])@ == view_or_empty(v@[i])
        },
{
    let mut partnumbers: Vec<String> = Vec::new();
    match rows {
        Some(v) => {
            let mut i: usize = 0;
            while i < v.len()
                invariant
                    i <= v@.len(),
                    partnumbers@.len() == i,
                    forall|j: int| 0 <= j < i ==> (#[trigger] partnumbers@[j])@ == view_or_empty(v@[j]),
                decreases v@.len() - i,
            {
                partnumbers.push(string_or_empty(&v[i]));
                i = i + 1;
            }
        },
        None => {},
    }
    partnumbers
}

/// Parameters of the insert of a new stock entry, bound to partnumber,
/// low_stock_threshold, on_hand and on_order, in that order.
pub open spec fn new_stock_params(s: StockInfo) -> Seq<SqlValueModel> {
    seq![
        SqlValueModel::Text(s.partnumber@),
        SqlValueModel::Int(s.low_stock_threshold),
        SqlValueModel::Int(s.on_hand),
        SqlValueModel::Int(s.on_order),
    ]
}

/// The parameters with which a new stock entry is inserted.
pub fn create_new_stock(stock: StockInfo) -> (r: Vec<SqlValue>)
    ensures
        params_view(r@) == new_stock_params(stock),
{
    let mut v: Vec<SqlValue> = Vec::new();
    v.push(SqlValue::Text(stock.partnumber.clone()));
    v.push(SqlValue::Int(stock.low_stock_threshold));
    v.push(SqlValue::Int(stock.on_hand));
    v.push(SqlValue::Int(stock.on_order));
    assert(params_view(v@) =~= new_stock_params(stock));
    v
}

} // verus!
