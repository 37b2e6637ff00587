use vstd::prelude::*;
use crate::sql::{params_view, SqlValue, SqlValueModel};
use crate::text::{clone_opt_string, opt_view, string_or_empty, view_or_empty};

verus! {

/// An inventory item, keyed by its part number.
pub struct Part {
    pub part_number: String,
    pub total_qty: Option<i64>,
    pub manufacturer: Option<String>,
    pub description: Option<String>,
    pub label: Option<String>,
    pub package: Option<String>,
    pub value: Option<String>,
    pub tolerance: Option<String>,
}

pub struct PartModel {
    pub part_number: Seq<char>,
    pub total_qty: Option<i64>,
    pub manufacturer: Option<Seq<char>>,
    pub description: Option<Seq<char>>,
    pub label: Option<Seq<char>>,
    pub package: Option<Seq<char>>,
    pub value: Option<Seq<char>>,
    pub tolerance: Option<Seq<char>>,
}

impl View for Part {
    type V = PartModel;

    open spec fn view(&self) -> PartModel {
        PartModel {
            part_number: self.part_number@,
            total_qty: self.total_qty,
            manufacturer: opt_view(self.manufacturer),
            description: opt_view(self.description),
            label: opt_view(self.label),
            package: opt_view(self.package),
            value: opt_view(self.value),
            tolerance: opt_view(self.tolerance),
        }
    }
}

impl Part {
    /// A part with an empty part number and no attributes.
    pub fn new() -> (r: Part)
        ensures
            r@ == (PartModel {
                part_number: Seq::empty(),
                total_qty: None,
                manufacturer: None,
                description: None,
                label: None,
                package: None,
                value: None,
                tolerance: None,
            }),
    {
        Part {
            part_number: String::new(),
            total_qty: None,
            manufacturer: None,
            description: None,
            label: None,
            package: None,
            value: None,
            tolerance: None,
        }
    }
}

/// Quantity of one part held at one storage location.
pub struct PartStorage {
    pub part_number: String,
    pub location: String,
    pub quantity: i64,
}

/// The columns of one row of the part listing, each as read: `None` where
/// the column is null or could not be read as its type.
pub struct PartRow {
    pub partnumber: Option<String>,
    pub total_qty: Option<i64>,
    pub manufacturer: Option<String>,
    pub description: Option<String>,
    pub label: Option<String>,
    pub package: Option<String>,
    pub value: Option<String>,
    pub tolerance: Option<String>,
}

/// The columns of one row of the part-storage listing, each as read.
pub struct PartStorageRow {
    pub partnumber: Option<String>,
    pub storage_loc_name: Option<String>,
    pub quantity: Option<i64>,
}

/// The part that a row describes: unreadable text columns become empty text
/// and an unreadable quantity becomes zero; every attribute is present.
pub open spec fn part_of_row(row: PartRow) -> PartModel {
    PartModel {
        part_number: view_or_empty(row.partnumber),
        total_qty: Some(row.total_qty.unwrap_or(0)),
        manufacturer: Some(view_or_empty(row.manufacturer)),
        description: Some(view_or_empty(row.description)),
        label: Some(view_or_empty(row.label)),
        package: Some(view_or_empty(row.package)),
        value: Some(view_or_empty(row.value)),
        tolerance: Some(view_or_empty(row.tolerance)),
    }
}

fn new_part_from_sql(row: &PartRow) -> (r: Part)
    ensures
        r@ == part_of_row(*row),
{
    Part {
        part_number: string_or_empty(&row.partnumber),
        total_qty: Some(row.total_qty.unwrap_or(0)),
        manufacturer: Some(string_or_empty(&row.manufacturer)),
        description: Some(string_or_empty(&row.description)),
        label: Some(string_or_empty(&row.label)),
        package: Some(string_or_empty(&row.package)),
        value: Some(string_or_empty(&row.value)),
        tolerance: Some(string_or_empty(&row.tolerance)),
    }
}

/// The parts of the part listing, one per row, in row order.
pub fn fetch_all_parts(rows: &Vec<PartRow>) -> (r: Vec<Part>)
    ensures
        r@.len() == rows@.len(),
        forall|i: int| 0 <= i < rows@.len() ==> #[trigger] r@[i]@ == part_of_row(rows@[i]),
{
    let mut parts: Vec<Part> = Vec::new();
    let mut i: usize = 0;
    while i < rows.len()
        invariant
            i <= rows@.len(),
            parts@.len() == i,
            forall|j: int| 0 <= j < i ==> #[trigger] parts@[j]@ == part_of_row(rows@[j]),
        decreases rows@.len() - i,
    {
        let part = new_part_from_sql(&rows[i]);
        parts.push(part);
        i = i + 1;
    }
    parts
}

/// The part that a lookup by part number found: there is one exactly when
/// the lookup returned exactly one row.
pub fn fetch_single_part(rows: &Vec<PartRow>) -> (r: Option<Part>)
    ensures
        r is Some <==> rows@.len() == 1,
        r matches Some(p) ==> p@ == part_of_row(rows@[0]),
{
    if rows.len() == 1 {
        Some(new_part_from_sql(&rows[0]))
    } else {
        None
    }
}

/// The storage entries of a part, one per row, in row order: an unreadable
/// text column becomes empty text and an unreadable quantity zero.
pub fn fetch_part_storage_data(rows: &Vec<PartStorageRow>) -> (r: Vec<PartStorage>)
    ensures
        r@.len() == rows@.len(),
        forall|i: int|
            0 <= i < rows@.len() ==> {
                &&& (#[trigger] r@[i]).part_number@ == view_or_empty(rows@[i].partnumber)
                &&& r@[i].location@ == view_or_empty(rows@[i].storage_loc_name)
                &&& r@[i].quantity == rows@[i].quantity.unwrap_or(0)
            },
{
    let mut part_stores: Vec<PartStorage> = Vec::new();
    let mut i: usize = 0;
    while i < rows.len()
        invariant
            i <= rows@.len(),
            part_stores@.len() == i,
            forall|j: int|
                0 <= j < i ==> {
                    &&& (#[trigger] part_stores@[j]).part_number@ == view_or_empty(rows@[j].partnumber)
                    &&& part_stores@[j].location@ == view_or_empty(rows@[j].storage_loc_name)
                    &&& part_stores@[j].quantity == rows@[j].quantity.unwrap_or(0)
                },
        decreases rows@.len() - i,
    {
        let row = &rows[i];
        let store = PartStorage {
            part_number: string_or_empty(&row.partnumber),
            location: string_or_empty(&row.storage_loc_name),
            quantity: row.quantity.unwrap_or(0),
        };
        part_stores.push(store);
        i = i + 1;
    }
    part_stores
}

/// Parameters of the insert of a new part, bound to the columns partnumber,
/// manufacturer, label, package, value and tolerance, in that order.
pub open spec fn new_part_params(p: PartModel) -> Seq<SqlValueModel> {
    seq![
        SqlValueModel::Text(p.part_number),
        SqlValueModel::NullableText(p.manufacturer),
        SqlValueModel::NullableText(p.label),
        SqlValueModel::NullableText(p.package),
        SqlValueModel::NullableText(p.value),
        SqlValueModel::NullableText(p.tolerance),
    ]
}

/// Parameters of the update of a part, bound to manufacturer, description,
/// label, package, value and tolerance, then the part number that selects the row.
pub open spec fn modify_part_params(p: PartModel) -> Seq<SqlValueModel> {
    seq![
        SqlValueModel::NullableText(p.manufacturer),
        SqlValueModel::NullableText(p.description),
        SqlValueModel::NullableText(p.label),
        SqlValueModel::NullableText(p.package),
        SqlValueModel::NullableText(p.value),
        SqlValueModel::NullableText(p.tolerance),
        SqlValueModel::Text(p.part_number),
    ]
}

/// Whether a column read back holds the value that was bound to it.
pub open spec fn column_holds(column: Option<String>, bound: SqlValueModel) -> bool {
    match bound {
        SqlValueModel::Text(t) => column is Some && column.unwrap()@ == t,
        SqlValueModel::NullableText(o) => opt_view(column) == o,
        SqlValueModel::Int(_) => false,
    }
}

/// A part inserted and read back is the same part: when each column of the
/// row read back holds the value that the insert bound to that column, the
/// part read from the row has the inserted part number and attributes (an
/// attribute inserted as null reads back as empty text).
pub proof fn lemma_insert_then_fetch(p: PartModel, row: PartRow)
    requires
        column_holds(row.partnumber, new_part_params(p)[0]),
        column_holds(row.manufacturer, new_part_params(p)[1]),
        column_holds(row.label, new_part_params(p)[2]),
        column_holds(row.package, new_part_params(p)[3]),
        column_holds(row.value, new_part_params(p)[4]),
        column_holds(row.tolerance, new_part_params(p)[5]),
    ensures
        part_of_row(row).part_number == p.part_number,
        part_of_row(row).manufacturer == Some(p.manufacturer.unwrap_or(Seq::empty())),
        part_of_row(row).label == Some(p.label.unwrap_or(Seq::empty())),
        part_of_row(row).package == Some(p.package.unwrap_or(Seq::empty())),
        part_of_row(row).value == Some(p.value.unwrap_or(Seq::empty())),
        part_of_row(row).tolerance == Some(p.tolerance.unwrap_or(Seq::empty())),
{
}

/// The parameters with which a new part is inserted; a part without a part
/// number is not inserted.
pub fn add_new_part(new_part: &Part) -> (r: Option<Vec<SqlValue>>)
    ensures
        r is None <==> new_part.part_number@.len() == 0,
        r matches Some(v) ==> params_view(v@) == new_part_params(new_part@),
{
    if new_part.part_number.as_str().is_empty() {
        return None;
    }
    let mut v: Vec<SqlValue> = Vec::new();
    v.push(SqlValue::Text(new_part.part_number.clone()));
    v.push(SqlValue::NullableText(clone_opt_string(&new_part.manufacturer)));
    v.push(SqlValue::NullableText(clone_opt_string(&new_part.label)));
    v.push(SqlValue::NullableText(clone_opt_string(&new_part.package)));
    v.push(SqlValue::NullableText(clone_opt_string(&new_part.value)));
    v.push(SqlValue::NullableText(clone_opt_string(&new_part.tolerance)));
    assert(params_view(v@) =~= new_part_params(new_part@));
    Some(v)
}

/// The parameters with which a part's attributes are updated; a part without
/// a part number is not updated.
pub fn modify_part(inpart: &Part) -> (r: Option<Vec<SqlValue>>)
    ensures
        r is None <==> inpart.part_number@.len() == 0,
        r matches Some(v) ==> params_view(v@) == modify_part_params(inpart@),
{
    if inpart.part_number.as_str().is_empty() {
        return None;
    }
    let mut v: Vec<SqlValue> = Vec::new();
    v.push(SqlValue::NullableText(clone_opt_string(&inpart.manufacturer)));
    v.push(SqlValue::NullableText(clone_opt_string(&inpart.description)));
    v.push(SqlValue::NullableText(clone_opt_string(&inpart.label)));
    v.push(SqlValue::NullableText(clone_opt_string(&inpart.package)));
    v.push(SqlValue::NullableText(clone_opt_string(&inpart.value)));
    v.push(SqlValue::NullableText(clone_opt_string(&inpart.tolerance)));
    v.push(SqlValue::Text(inpart.part_number.clone()));
    assert(params_view(v@) =~= modify_part_params(inpart@));
    Some(v)
}

} // verus!
