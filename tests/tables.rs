use shikabom::parts::{Part, PartStorage};
use shikabom::projects::{Project, ProjectPart};
use shikabom::stock::StockInfo;
use shikabom::tables::{
    create_parts_table_rows, create_project_list, create_project_table_rows, create_stock_table_rows,
    create_storage_table_rows,
};

#[test]
fn parts_table_cells() {
    let mut p = Part::new();
    p.part_number = "R1".to_string();
    p.manufacturer = Some("Yageo".to_string());
    p.value = Some("10k".to_string());
    let rows = create_parts_table_rows(&vec![p, Part::new()]);
    assert_eq!(rows[0], vec!["R1", "0", "Yageo", "", "", "10k", ""]);
    assert_eq!(rows[1], vec!["", "0", "", "", "", "", ""]);
}

#[test]
fn storage_table_cells() {
    let s = PartStorage { part_number: "R1".to_string(), location: "Bin 4".to_string(), quantity: 1200 };
    assert_eq!(create_storage_table_rows(&vec![s]), vec![vec!["Bin 4".to_string(), "1200".to_string()]]);
}

#[test]
fn stock_table_cells() {
    let s = StockInfo {
        partnumber: "C1".to_string(),
        low_stock_threshold: 5,
        on_hand: 10,
        on_order: 2,
        in_prod: 1,
        total_stock: 12,
        balance: -3,
        available: 9,
    };
    let rows = create_stock_table_rows(&vec![s]);
    assert_eq!(rows[0], vec!["C1", "12", "10", "9", "1", "-3", "5", "2"]);
}

#[test]
fn project_list_and_bom_cells() {
    let mut info = Part::new();
    info.value = Some("1uF".to_string());
    info.manufacturer = Some("TDK".to_string());
    let mut p = Project::new();
    p.name = "Amp".to_string();
    p.parts.push(ProjectPart {
        partnumber: "C1".to_string(),
        designators: "C1,C2".to_string(),
        qty: 2,
        part_info: info,
    });
    assert_eq!(create_project_list(&vec![p]), vec!["Amp".to_string()]);
    let mut q = Project::new();
    q.parts.push(ProjectPart {
        partnumber: "C1".to_string(),
        designators: "C1,C2".to_string(),
        qty: 2,
        part_info: Part::new(),
    });
    assert_eq!(create_project_table_rows(&q)[0], vec!["C1", "C1,C2", "2", "", "", "", "", ""]);
}
