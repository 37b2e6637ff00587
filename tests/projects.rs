use shikabom::parts::Part;
use shikabom::projects::{
    add_pn_to_project, create_new_project_name, fetch_pns_not_in_project, fetch_project_details, fetch_project_list,
    Project, ProjectPart, ProjectPartRow,
};
use shikabom::sql::SqlValue;

#[test]
fn project_list_from_names() {
    let projects = fetch_project_list(&vec![Some("Amp".to_string()), None]);
    assert_eq!(projects.len(), 2);
    assert_eq!(projects[0].name, "Amp");
    assert_eq!(projects[1].name, "");
    assert!(projects[0].parts.is_empty());
}

#[test]
fn project_details_replace_parts() {
    let mut project = Project::new();
    project.name = "Amp".to_string();
    let mut info = Part::new();
    info.part_number = "R1".to_string();
    let rows = vec![
        ProjectPartRow {
            partnumber: Some("R1".to_string()),
            total_qty: Some(4),
            designators: Some("R1,R2,R3,R4".to_string()),
            part_info: info,
        },
        ProjectPartRow { partnumber: None, total_qty: None, designators: None, part_info: Part::new() },
    ];
    fetch_project_details(&mut project, rows);
    assert_eq!(project.name, "Amp");
    assert_eq!(project.parts.len(), 2);
    assert_eq!(project.parts[0].partnumber, "R1");
    assert_eq!(project.parts[0].qty, 4);
    assert_eq!(project.parts[0].designators, "R1,R2,R3,R4");
    assert_eq!(project.parts[0].part_info.part_number, "R1");
    assert_eq!(project.parts[1].partnumber, "");
    assert_eq!(project.parts[1].qty, 0);
    fetch_project_details(&mut project, vec![]);
    assert!(project.parts.is_empty());
}

#[test]
fn pns_not_in_project_skip_unreadable() {
    let rows = Some(vec![Some("A".to_string()), None, Some("C".to_string())]);
    assert_eq!(fetch_pns_not_in_project(&rows), vec!["A".to_string(), "C".to_string()]);
    assert!(fetch_pns_not_in_project(&None).is_empty());
}

#[test]
fn project_insert_params() {
    let params = create_new_project_name("Amp".to_string());
    assert_eq!(params.len(), 1);
    assert!(matches!(&params[0], SqlValue::Text(t) if t == "Amp"));
}

#[test]
fn bom_line_params_in_column_order() {
    let mut project = Project::new();
    project.name = "Amp".to_string();
    let line = ProjectPart {
        partnumber: "R1".to_string(),
        designators: "R1,R2".to_string(),
        qty: 2,
        part_info: Part::new(),
    };
    let params = add_pn_to_project(&project, &line);
    assert_eq!(params.len(), 4);
    assert!(matches!(&params[0], SqlValue::Text(t) if t == "Amp"));
    assert!(matches!(&params[1], SqlValue::Text(t) if t == "R1"));
    assert!(matches!(&params[2], SqlValue::Text(t) if t == "R1,R2"));
    assert!(matches!(params[3], SqlValue::Int(2)));
}
