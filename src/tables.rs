use vstd::prelude::*;
use crate::parts::{Part, PartModel, PartStorage};
use crate::projects::{Project, ProjectPart};
use crate::stock::StockInfo;
use crate::text::{decimal, i32_to_string, i64_to_string, string_or_empty, view_or_empty};

verus! {

/// The texts of a row of cells.
pub open spec fn cells_view(v: Vec<String>) -> Seq<Seq<char>> {
    v@.map_values(|s: String| s@)
}

/// Cells of a part in the parts table: part number, total quantity (zero when
/// unknown), manufacturer, package, label, value and tolerance, missing
/// attributes as empty text.
pub open spec fn part_cells(p: PartModel) -> Seq<Seq<char>> {
    seq![
        p.part_number,
        decimal(p.total_qty.unwrap_or(0) as int),
        p.manufacturer.unwrap_or(Seq::empty()),
        p.package.unwrap_or(Seq::empty()),
        p.label.unwrap_or(Seq::empty()),
        p.value.unwrap_or(Seq::empty()),
        p.tolerance.unwrap_or(Seq::empty()),
    ]
}

/// Cells of a storage entry: location and quantity.
pub open spec fn storage_cells(s: PartStorage) -> Seq<Seq<char>> {
    seq![s.location@, decimal(s.quantity as int)]
}

/// Cells of a stock entry: part number, total stock, on hand, available, in
/// production, balance, low-stock threshold and on order.
pub open spec fn stock_cells(s: StockInfo) -> Seq<Seq<char>> {
    seq![
        s.partnumber@,
        decimal(s.total_stock as int),
        decimal(s.on_hand as int),
        decimal(s.available as int),
        decimal(s.in_prod as int),
        decimal(s.balance as int),
        decimal(s.low_stock_threshold as int),
        decimal(s.on_order as int),
    ]
}

/// Cells of a bill-of-materials line: part number, designators, quantity,
/// then the part's value, tolerance, package, label and manufacturer
/// (missing attributes as empty text).
pub open spec fn bom_cells(p: ProjectPart) -> Seq<Seq<char>> {
    seq![
        p.partnumber@,
        p.designators@,
        decimal(p.qty as int),
        view_or_empty(p.part_info.value),
        view_or_empty(p.part_info.tolerance),
        view_or_empty(p.part_info.package),
        view_or_empty(p.part_info.label),
        view_or_empty(p.part_info.manufacturer),
    ]
}

fn part_row(part: &Part) -> (r: Vec<String>)
    ensures
        cells_view(r) == part_cells(part@),
{
    let mut row: Vec<String> = Vec::new();
    row.push(part.part_number.clone());
    row.push(i64_to_string(part.total_qty.unwrap_or(0)));
    row.push(string_or_empty(&part.manufacturer));
    row.push(string_or_empty(&part.package));
    row.push(string_or_empty(&part.label));
    row.push(string_or_empty(&part.value));
    row.push(string_or_empty(&part.tolerance));
    assert(cells_view(row) =~= part_cells(part@));
    row
}

/// The rows of the parts table, one per part, in order.
pub fn create_parts_table_rows(part_data: &Vec<Part>) -> (r: Vec<Vec<String>>)
    ensures
        r@.len() == part_data@.len(),
        forall|i: int| 0 <= i < part_data@.len() ==> cells_view(#[trigger] r@[i]) == part_cells(part_data@[i]@),
{
    let mut rows: Vec<Vec<String>> = Vec::new();
    let mut i: usize = 0;
    while i < part_data.len()
        invariant
            i <= part_data@.len(),
            rows@.len() == i,
            forall|j: int| 0 <= j < i ==> cells_view(#[trigger] rows@[j]) == part_cells(part_data@[j]@),
        decreases part_data@.len() - i,
    {
        rows.push(part_row(&part_data[i]));
        i = i + 1;
    }
    rows
}

/// The rows of a part's storage table, one per storage entry, in order.
pub fn create_storage_table_rows(storage: &Vec<PartStorage>) -> (r: Vec<Vec<String>>)
    ensures
        r@.len() == storage@.len(),
        forall|i: int| 0 <= i < storage@.len() ==> cells_view(#[trigger] r@[i]) == storage_cells(storage@[i]),
{
    let mut rows: Vec<Vec<String>> = Vec::new();
    let mut i: usize = 0;
    while i < storage.len()
        invariant
            i <= storage@.len(),
            rows@.len() == i,
            forall|j: int| 0 <= j < i ==> cells_view(#[trigger] rows@[j]) == storage_cells(storage@[j]),
        decreases storage@.len() - i,
    {
        let entry = &storage[i];
        let mut row: Vec<String> = Vec::new();
        row.push(entry.location.clone());
        row.push(i64_to_string(entry.quantity));
        assert(cells_view(row) =~= storage_cells(*entry));
        rows.push(row);
        i = i + 1;
    }
    rows
}

fn stock_row(stock: &StockInfo) -> (r: Vec<String>)
    ensures
        cells_view(r) == stock_cells(*stock),
{
    let mut row: Vec<String> = Vec::new();
    row.push(stock.partnumber.clone());
    row.push(i32_to_string(stock.total_stock));
    row.push(i32_to_string(stock.on_hand));
    row.push(i32_to_string(stock.available));
    row.push(i32_to_string(stock.in_prod));
    row.push(i32_to_string(stock.balance));
    row.push(i32_to_string(stock.low_stock_threshold));
    row.push(i32_to_string(stock.on_order));
    assert(cells_view(row) =~= stock_cells(*stock));
    row
}

/// The rows of the stock table, one per stock entry, in order.
pub fn create_stock_table_rows(stock_data: &Vec<StockInfo>) -> (r: Vec<Vec<String>>)
    ensures
        r@.len() == stock_data@.len(),
        forall|i: int| 0 <= i < stock_data@.len() ==> cells_view(#[trigger] r@[i]) == stock_cells(stock_data@[i]),
{
    let mut rows: Vec<Vec<String>> = Vec::new();
    let mut i: usize = 0;
    while i < stock_data.len()
        invariant
            i <= stock_data@.len(),
            rows@.len() == i,
            forall|j: int| 0 <= j < i ==> cells_view(#[trigger] rows@[j]) == stock_cells(stock_data@[j]),
        decreases stock_data@.len() - i,
    {
        rows.push(stock_row(&stock_data[i]));
        i = i + 1;
    }
    rows
}

/// The entries of the project list: each project's name, in order.
pub fn create_project_list(projects: &Vec<Project>) -> (r: Vec<String>)
    ensures
        r@.len() == projects@.len(),
        forall|i: int| 0 <= i < projects@.len() ==> (#[trigger] r@[i])@ == projects@[i].name@,
{
    let mut rows: Vec<String> = Vec::new();
    let mut i: usize = 0;
    while i < projects.len()
        invariant
            i <= projects@.len(),
            rows@.len() == i,
            forall|j: int| 0 <= j < i ==> (#[trigger] rows@[j])@ == projects@[j].name@,
        decreases projects@.len() - i,
    {
        rows.push(projects[i].name.clone());
        i = i + 1;
    }
    rows
}

fn bom_row(part: &ProjectPart) -> (r: Vec<String>)
    ensures
        cells_view(r) == bom_cells(*part),
{
    let mut row: Vec<String> = Vec::new();
    row.push(part.partnumber.clone());
    row.push(part.designators.clone());
    row.push(i32_to_string(part.qty));
    row.push(string_or_empty(&part.part_info.value));
    row.push(string_or_empty(&part.part_info.tolerance));
    row.push(string_or_empty(&part.part_info.package));
    row.push(string_or_empty(&part.part_info.label));
    row.push(string_or_empty(&part.part_info.manufacturer));
    assert(cells_view(row) =~= bom_cells(*part));
    row
}

/// The rows of a project's bill-of-materials table, one per line, in order.
pub fn create_project_table_rows(project: &Project) -> (r: Vec<Vec<String>>)
    ensures
        r@.len() == project.parts@.len(),
        forall|i: int| 0 <= i < project.parts@.len() ==> cells_view(#[trigger] r@[i]) == bom_cells(project.parts@[i]),
{
    let mut rows: Vec<Vec<String>> = Vec::new();
    let mut i: usize = 0;
    while i < project.parts.len()
        invariant
            i <= project.parts@.len(),
            rows@.len() == i,
            forall|j: int| 0 <= j < i ==> cells_view(#[trigger] rows@[j]) == bom_cells(project.parts@[j]),
        decreases project.parts@.len() - i,
    {
        rows.push(bom_row(&project.parts[i]));
        i = i + 1;
    }
    rows
}

} // verus!
