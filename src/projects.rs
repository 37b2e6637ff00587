use vstd::prelude::*;
use crate::parts::Part;
use crate::sql::{params_view, SqlValue, SqlValueModel};
use crate::text::{string_or_empty, view_or_empty};

verus! {

/// A named bill of materials.
pub struct Project {
    pub name: String,
    pub parts: Vec<ProjectPart>,
}

impl Project {
    /// A project with an empty name and no parts.
    pub fn new() -> (r: Project)
        ensures
            r.name@.len() == 0,
            r.parts@.len() == 0,
    {
        Project { name: String::new(), parts: Vec::new() }
    }
}

/// One line of a bill of materials.
pub struct ProjectPart {
    pub partnumber: String,
    pub designators: String,
    pub qty: i32,
    /// The part's own attributes, not specific to the project.
    pub part_info: Part,
}

/// The columns of one row of a project's component listing, each as read,
/// with the attributes of the part that it names.
pub struct ProjectPartRow {
    pub partnumber: Option<String>,
    pub total_qty: Option<i32>,
    pub designators: Option<String>,
    pub part_info: Part,
}

/// The bill-of-materials line that a row describes, unreadable columns taken
/// as empty or zero.
pub open spec fn project_part_matches_row(p: ProjectPart, row: ProjectPartRow) -> bool {
    &&& p.partnumber@ == view_or_empty(row.partnumber)
    &&& p.qty == row.total_qty.unwrap_or(0)
    &&& p.designators@ == view_or_empty(row.designators)
    &&& p.part_info == row.part_info
}

fn project_part_from_row(row: ProjectPartRow) -> (r: ProjectPart)
    ensures
        project_part_matches_row(r, row),
{
    let pn = string_or_empty(&row.partnumber);
    ProjectPart {
        partnumber: pn,
        qty: row.total_qty.unwrap_or(0),
        designators: string_or_empty(&row.designators),
        part_info: row.part_info,
    }
}

/// The projects of the project listing, one per row of names (an unreadable
/// name as empty text), each with no parts loaded.
pub fn fetch_project_list(rows: &Vec<Option<String>>) -> (r: Vec<Project>)
    ensures
        r@.len() == rows@.len(),
        forall|i: int|
            0 <= i < rows@.len() ==> {
                &&& (#[trigger] r@[i]).name@ == view_or_empty(rows@[i])
                &&& r@[i].parts@.len() == 0
            },
{
    let mut project_list: Vec<Project> = Vec::new();
    let mut i: usize = 0;
    while i < rows.len()
        invariant
            i <= rows@.len(),
            project_list@.len() == i,
            forall|j: int|
                0 <= j < i ==> {
                    &&& (#[trigger] project_list@[j]).name@ == view_or_empty(rows@[j])
                    &&& project_list@[j].parts@.len() == 0
                },
        decreases rows@.len() - i,
    {
        let mut project = Project::new();
        project.name = string_or_empty(&rows[i]);
        project_list.push(project);
        i = i + 1;
    }
    project_list
}

/// Replaces a project's parts by the lines of its component listing, in row
/// order; the name is kept.
pub fn fetch_project_details(project: &mut Project, rows: Vec<ProjectPartRow>)
    ensures
        final(project).name == old(project).name,
        final(project).parts@.len() == rows@.len(),
        forall|i: int|
            0 <= i < rows@.len() ==> project_part_matches_row(#[trigger] final(project).parts@[i], rows@[i]),
{
    let mut rows = rows;
    let ghost all = rows@;
    let mut parts: Vec<ProjectPart> = Vec::new();
    while rows.len() > 0
        invariant
            parts@.len() + rows@.len() == all.len(),
            rows@ =~= all.subrange(parts@.len() as int, all.len() as int),
            forall|j: int| 0 <= j < parts@.len() ==> project_part_matches_row(#[trigger] parts@[j], all[j]),
        decreases rows@.len(),
    {
        let row = rows.remove(0);
        parts.push(project_part_from_row(row));
    }
    project.parts = parts;
}

/// The readable entries of a column of text, in order.
pub open spec fn readable_pns(v: Seq<Option<String>>) -> Seq<Seq<char>>
    decreases v.len(),
{
    if v.len() == 0 {
        Seq::empty()
    } else {
        let rest = readable_pns(v.drop_last());
        match v.last() {
            Some(s) => rest.push(s@),
            None => rest,
        }
    }
}

/// The part numbers not yet in a project's bill of materials, in row order;
/// rows whose part number cannot be read are left out, and there are none
/// when the listing could not be read.
pub fn fetch_pns_not_in_project(rows: &Option<Vec<Option<String>>>) -> (r: Vec<String>)
    ensures
        rows is None ==> r@.len() == 0,
        rows matches Some(v) ==> r@.map_values(|s: String| s@) == readable_pns(v@),
{
    let mut ret_vec: Vec<String> = Vec::new();
    match rows {
        Some(v) => {
            let mut i: usize = 0;
            while i < v.len()
                invariant
                    i <= v@.len(),
                    ret_vec@.map_values(|s: String| s@) == readable_pns(v@.subrange(0, i as int)),
                decreases v@.len() - i,
            {
                assert(v@.subrange(0, i as int + 1).drop_last() =~= v@.subrange(0, i as int));
                match &v[i] {
                    Some(val) => {
                        ret_vec.push(val.clone());
                    },
                    None => {},
                }
                assert(ret_vec@.map_values(|s: String| s@) =~= readable_pns(v@.subrange(0, i as int + 1)));
                i = i + 1;
            }
            assert(v@.subrange(0, v@.len() as int) =~= v@);
        },
        None => {},
    }
    ret_vec
}

/// Parameters of the insert of a new project, bound to project_name.
pub fn create_new_project_name(name: String) -> (r: Vec<SqlValue>)
    ensures
        params_view(r@) == seq![SqlValueModel::Text(name@)],
{
    let mut v: Vec<SqlValue> = Vec::new();
    v.push(SqlValue::Text(name));
    assert(params_view(v@) =~= seq![SqlValueModel::Text(name@)]);
    v
}

/// Parameters of the insert of a line into a project's bill of materials,
/// bound to project_name, partnumber, designators and qty, in that order.
pub open spec fn project_part_params(project: Project, ppart: ProjectPart) -> Seq<SqlValueModel> {
    seq![
        SqlValueModel::Text(project.name@),
        SqlValueModel::Text(ppart.partnumber@),
        SqlValueModel::Text(ppart.designators@),
        SqlValueModel::Int(ppart.qty),
    ]
}

pub fn add_pn_to_project(project: &Project, ppart: &ProjectPart) -> (r: Vec<SqlValue>)
    ensures
        params_view(r@) == project_part_params(*project, *ppart),
{
    let mut v: Vec<SqlValue> = Vec::new();
    v.push(SqlValue::Text(project.name.clone()));
    v.push(SqlValue::Text(ppart.partnumber.clone()));
    v.push(SqlValue::Text(ppart.designators.clone()));
    v.push(SqlValue::Int(ppart.qty));
    assert(params_view(v@) =~= project_part_params(*project, *ppart));
    v
}

} // verus!
