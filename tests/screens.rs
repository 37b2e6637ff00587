use shikabom::app::{App, AppRequest, CurrentScreen};
use shikabom::keys::Key;
use shikabom::parts::{fetch_all_parts, Part, PartRow};
use shikabom::parts_view::{CurrentlyEditingPart, PartsRequest, PartsSubState, PartsView};
use shikabom::projects::{Project, ProjectPart};
use shikabom::projects_view::{ATBFormField, ProjectSubState, ProjectsRequest, ProjectsView};
use shikabom::sql::SqlValue;
use shikabom::stock_view::{CreateStockPartField, StockRequest, StockSubState, StockView};
use shikabom::utils::{exec_list_mvmt, ListMvmtDir, ScrollBarInfo};

fn listed_parts(pns: &[&str]) -> Vec<Part> {
    let rows: Vec<PartRow> = pns
        .iter()
        .map(|pn| PartRow {
            partnumber: Some(pn.to_string()),
            total_qty: Some(1),
            manufacturer: None,
            description: None,
            label: None,
            package: None,
            value: None,
            tolerance: None,
        })
        .collect();
    fetch_all_parts(&rows)
}

fn type_into_form(view: &mut PartsView, text: &str, edit: bool) {
    for c in text.chars() {
        let r = if edit { view.handle_edit_part_keys(Key::Char(c)) } else { view.handle_new_part_keys(Key::Char(c)) };
        assert!(matches!(r, PartsRequest::Nothing));
    }
}

fn project_named(name: &str, n_parts: usize) -> Project {
    let mut p = Project::new();
    p.name = name.to_string();
    for i in 0..n_parts {
        p.parts.push(ProjectPart {
            partnumber: format!("P{}", i),
            designators: String::new(),
            qty: 1,
            part_info: Part::new(),
        });
    }
    p
}

#[test]
fn list_movement_stays_inside_list() {
    let mut sel = None;
    exec_list_mvmt(ListMvmtDir::Greater, &mut sel, 0);
    assert_eq!(sel, None);
    exec_list_mvmt(ListMvmtDir::Greater, &mut sel, 2);
    assert_eq!(sel, Some(0));
    exec_list_mvmt(ListMvmtDir::Greater, &mut sel, 2);
    assert_eq!(sel, Some(1));
    exec_list_mvmt(ListMvmtDir::Greater, &mut sel, 2);
    assert_eq!(sel, Some(1));
    exec_list_mvmt(ListMvmtDir::Less, &mut sel, 2);
    assert_eq!(sel, Some(0));
    exec_list_mvmt(ListMvmtDir::Less, &mut sel, 2);
    assert_eq!(sel, Some(0));
    let mut none = None;
    exec_list_mvmt(ListMvmtDir::Less, &mut none, 3);
    assert_eq!(none, Some(0));
}

#[test]
fn scroll_bar_info_clears() {
    let mut s = ScrollBarInfo::new();
    assert_eq!(s.scroll_position, 0);
    s.scroll_position = 7;
    s.scroll_length = 3;
    s.clear();
    assert_eq!(s.scroll_position, 0);
    assert_eq!(s.scroll_length, 0);
}

#[test]
fn new_part_form_types_tabs_and_inserts() {
    let mut view = PartsView::new();
    assert!(matches!(view.handle_main_keys(Key::Char('n')), PartsRequest::Nothing));
    assert_eq!(view.parts_sub_state, PartsSubState::NewPart);
    assert_eq!(view.currently_editing_part, CurrentlyEditingPart::PartNumber);
    type_into_form(&mut view, "R10", false);
    view.handle_new_part_keys(Key::Backspace);
    assert_eq!(view.part_text.part_number, "R1");
    view.handle_new_part_keys(Key::Tab);
    assert_eq!(view.currently_editing_part, CurrentlyEditingPart::Manufacturer);
    type_into_form(&mut view, "Yageo", false);
    for _ in 0..5 {
        view.handle_new_part_keys(Key::Tab);
    }
    // after the tolerance the form goes back to the manufacturer
    assert_eq!(view.currently_editing_part, CurrentlyEditingPart::Manufacturer);
    view.part_text.total_qty = "25".to_string();
    match view.handle_new_part_keys(Key::Enter) {
        PartsRequest::InsertPart(params) => {
            assert_eq!(params.len(), 6);
            assert!(matches!(&params[0], SqlValue::Text(t) if t == "R1"));
            assert!(matches!(&params[1], SqlValue::NullableText(Some(t)) if t == "Yageo"));
        },
        _ => panic!("expected an insert"),
    }
    assert_eq!(view.parts_sub_state, PartsSubState::Main);
}

#[test]
fn new_part_without_number_only_refreshes() {
    let mut view = PartsView::new();
    view.handle_main_keys(Key::Char('n'));
    assert!(matches!(view.handle_new_part_keys(Key::Enter), PartsRequest::RefreshParts));
    assert_eq!(view.parts_sub_state, PartsSubState::Main);
    view.handle_main_keys(Key::Char('n'));
    assert!(matches!(view.handle_new_part_keys(Key::Esc), PartsRequest::RefreshParts));
}

#[test]
fn edit_needs_a_selected_part() {
    let mut view = PartsView::new();
    assert!(matches!(view.handle_main_keys(Key::Char('e')), PartsRequest::Nothing));
    assert_eq!(view.parts_sub_state, PartsSubState::Main);
    view.refresh_part_data(listed_parts(&["A", "B"]));
    match view.handle_main_keys(Key::Down) {
        PartsRequest::LoadPart(pn) => assert_eq!(pn, "A"),
        _ => panic!("expected a load"),
    }
    match view.handle_main_keys(Key::Char('e')) {
        PartsRequest::LoadPart(pn) => assert_eq!(pn, "A"),
        _ => panic!("expected a load"),
    }
    assert_eq!(view.parts_sub_state, PartsSubState::EditPart);
    assert_eq!(view.currently_editing_part, CurrentlyEditingPart::Manufacturer);
}

#[test]
fn edit_form_keeps_part_number_and_updates() {
    let mut view = PartsView::new();
    view.refresh_part_data(listed_parts(&["A"]));
    view.handle_main_keys(Key::Down);
    view.handle_main_keys(Key::Char('e'));
    let mut loaded = Part::new();
    loaded.part_number = "A".to_string();
    loaded.total_qty = Some(42);
    view.part_text.copy_from_db_part(&loaded);
    assert_eq!(view.part_text.total_qty, "42");
    view.currently_editing_part = CurrentlyEditingPart::PartNumber;
    type_into_form(&mut view, "X", true);
    view.handle_edit_part_keys(Key::Backspace);
    assert_eq!(view.part_text.part_number, "A");
    view.handle_edit_part_keys(Key::Tab);
    type_into_form(&mut view, "TI", true);
    match view.handle_edit_part_keys(Key::Enter) {
        PartsRequest::UpdatePart(params) => {
            assert_eq!(params.len(), 7);
            assert!(matches!(&params[0], SqlValue::NullableText(Some(t)) if t == "TI"));
            assert!(matches!(&params[6], SqlValue::Text(t) if t == "A"));
        },
        _ => panic!("expected an update"),
    }
}

#[test]
fn part_text_round_trip() {
    let mut view = PartsView::new();
    let part = Part {
        part_number: "C5".to_string(),
        total_qty: Some(-17),
        manufacturer: Some("Murata".to_string()),
        description: Some("Ceramic".to_string()),
        label: Some("C5".to_string()),
        package: Some("0402".to_string()),
        value: Some("100nF".to_string()),
        tolerance: Some("10%".to_string()),
    };
    view.part_text.copy_from_db_part(&part);
    assert_eq!(view.part_text.total_qty, "-17");
    let mut back = Part::new();
    view.part_text.copy_to_db_part(&mut back);
    assert_eq!(back.part_number, "C5");
    assert_eq!(back.total_qty, Some(-17));
    assert_eq!(back.description.as_deref(), Some("Ceramic"));
    assert_eq!(back.package.as_deref(), Some("0402"));
    view.part_text.clear();
    assert_eq!(view.part_text.part_number, "");
    assert_eq!(view.part_text.description, "");
}

#[test]
fn unparsable_quantity_is_zero() {
    let mut view = PartsView::new();
    view.part_text.total_qty = "lots".to_string();
    let mut p = Part::new();
    view.part_text.copy_to_db_part(&mut p);
    assert_eq!(p.total_qty, Some(0));
}

#[test]
fn details_panel_scrolls() {
    let mut view = PartsView::new();
    view.refresh_part_data(listed_parts(&["A", "B"]));
    view.handle_main_keys(Key::Down);
    view.handle_main_keys(Key::Down);
    assert_eq!(view.part_table_selected, Some(1));
    match view.handle_main_keys(Key::Char('d')) {
        PartsRequest::LoadPartDetails(pn) => assert_eq!(pn, "B"),
        _ => panic!("expected a details load"),
    }
    assert!(view.show_details);
    view.handle_main_keys(Key::Down);
    view.handle_main_keys(Key::Down);
    assert_eq!(view.part_scroll_info.scroll_position, 2);
    assert_eq!(view.part_table_selected, Some(1));
    view.handle_main_keys(Key::Up);
    view.handle_main_keys(Key::Up);
    view.handle_main_keys(Key::Up);
    assert_eq!(view.part_scroll_info.scroll_position, 0);
    view.handle_main_keys(Key::Char('d'));
    assert!(!view.show_details);
}

#[test]
fn empty_parts_table_selects_nothing_to_load() {
    let mut view = PartsView::new();
    assert!(matches!(view.handle_main_keys(Key::Down), PartsRequest::Nothing));
    assert_eq!(view.part_table_selected, Some(0));
    assert!(matches!(view.handle_main_keys(Key::Char('r')), PartsRequest::RefreshParts));
}

#[test]
fn create_stock_form_flow() {
    let mut view = StockView::new();
    assert!(matches!(view.handle_main_keys(Key::Char('c')), StockRequest::LoadNonstockedPns));
    assert_eq!(view.stock_sub_state, StockSubState::CreateStock);
    view.nonstocked_pns = vec!["A".to_string(), "B".to_string()];
    // nothing is stored before a part number is selected
    assert!(matches!(view.handle_create_stock_keys(Key::Enter), StockRequest::Nothing));
    assert_eq!(view.stock_sub_state, StockSubState::CreateStock);
    view.handle_create_stock_keys(Key::Down);
    view.handle_create_stock_keys(Key::Down);
    view.handle_create_stock_keys(Key::Down);
    assert_eq!(view.nonstocked_pn_selected, Some(1));
    view.handle_create_stock_keys(Key::Tab);
    assert_eq!(view.currently_editing_stock.active_field, CreateStockPartField::LowStockThreshold);
    view.handle_create_stock_keys(Key::Down);
    assert_eq!(view.nonstocked_pn_selected, Some(1));
    for c in ['1', 'x', '5'] {
        view.handle_create_stock_keys(Key::Char(c));
    }
    assert_eq!(view.currently_editing_stock.low_stock_threshold, "15");
    view.handle_create_stock_keys(Key::Tab);
    for c in ['9', '8'] {
        view.handle_create_stock_keys(Key::Char(c));
    }
    view.handle_create_stock_keys(Key::Backspace);
    assert_eq!(view.currently_editing_stock.on_hand, "9");
    match view.handle_create_stock_keys(Key::Enter) {
        StockRequest::InsertStock(params) => {
            assert!(matches!(&params[0], SqlValue::Text(t) if t == "B"));
            assert!(matches!(params[1], SqlValue::Int(15)));
            assert!(matches!(params[2], SqlValue::Int(9)));
            assert!(matches!(params[3], SqlValue::Int(0)));
        },
        _ => panic!("expected an insert"),
    }
    assert_eq!(view.stock_sub_state, StockSubState::StockMain);
    assert_eq!(view.currently_editing_stock.partnumber, "B");
}

#[test]
fn stock_modes_leave_with_esc() {
    let mut view = StockView::new();
    view.handle_main_keys(Key::Char('a'));
    assert_eq!(view.stock_sub_state, StockSubState::AddStock);
    view.handle_add_stock_keys(Key::Enter);
    assert_eq!(view.stock_sub_state, StockSubState::AddStock);
    view.handle_add_stock_keys(Key::Esc);
    view.handle_main_keys(Key::Char('s'));
    assert_eq!(view.stock_sub_state, StockSubState::SpendStock);
    view.handle_spend_stock_keys(Key::Esc);
    view.handle_main_keys(Key::Char('e'));
    assert_eq!(view.stock_sub_state, StockSubState::EditStock);
    view.handle_edit_stock_keys(Key::Esc);
    assert_eq!(view.stock_sub_state, StockSubState::StockMain);
    view.handle_main_keys(Key::Char('d'));
    assert!(view.show_details);
    view.handle_main_keys(Key::Up);
    assert_eq!(view.stock_table_selected, Some(0));
}

#[test]
fn project_list_and_bom_navigation() {
    let mut view = ProjectsView::new();
    view.refresh_list(vec![project_named("Amp", 2), project_named("Radio", 0)]);
    view.handle_main_keys(Key::Tab);
    assert_eq!(view.sub_state, ProjectSubState::ListMode);
    view.handle_list_mode_keys(Key::Down);
    view.handle_list_mode_keys(Key::Down);
    view.handle_list_mode_keys(Key::Down);
    assert_eq!(view.project_list_selected, Some(1));
    assert_eq!(view.prj_lst_sbar_state.scroll_position, 3);
    view.handle_list_mode_keys(Key::Up);
    match view.handle_list_mode_keys(Key::Enter) {
        ProjectsRequest::LoadProjectDetails(i) => assert_eq!(i, 0),
        _ => panic!("expected a details load"),
    }
    assert_eq!(view.sub_state, ProjectSubState::BOMMode);
    view.handle_bom_mode_keys(Key::Down);
    view.handle_bom_mode_keys(Key::Down);
    view.handle_bom_mode_keys(Key::Down);
    assert_eq!(view.bom_table_selected, Some(1));
    match view.handle_bom_mode_keys(Key::Char('c')) {
        ProjectsRequest::LoadPnsNotInProject(name) => assert_eq!(name, "Amp"),
        _ => panic!("expected a part-number load"),
    }
    assert_eq!(view.sub_state, ProjectSubState::AddToBOM);
}

#[test]
fn list_tab_selects_shown_project() {
    let mut view = ProjectsView::new();
    view.refresh_list(vec![project_named("A", 0), project_named("B", 0), project_named("C", 0)]);
    view.sub_state = ProjectSubState::ListMode;
    view.selected_project_idx = 2;
    view.handle_list_mode_keys(Key::Tab);
    assert_eq!(view.project_list_selected, Some(2));
    assert_eq!(view.sub_state, ProjectSubState::BOMMode);
    view.handle_bom_mode_keys(Key::Tab);
    assert_eq!(view.sub_state, ProjectSubState::ListMode);
    assert!(matches!(view.handle_list_mode_keys(Key::Char('r')), ProjectsRequest::RefreshList));
    view.handle_list_mode_keys(Key::Esc);
    assert_eq!(view.sub_state, ProjectSubState::Main);
}

#[test]
fn create_project_and_select_last() {
    let mut view = ProjectsView::new();
    view.sub_state = ProjectSubState::ListMode;
    view.handle_list_mode_keys(Key::Char('c'));
    assert_eq!(view.sub_state, ProjectSubState::CreateNewProject);
    for c in "Amps".chars() {
        view.handle_create_project_keys(Key::Char(c));
    }
    view.handle_create_project_keys(Key::Backspace);
    match view.handle_create_project_keys(Key::Enter) {
        ProjectsRequest::InsertProject(params) => {
            assert_eq!(params.len(), 1);
            assert!(matches!(&params[0], SqlValue::Text(t) if t == "Amp"));
        },
        _ => panic!("expected an insert"),
    }
    assert_eq!(view.new_project_name_text, "");
    assert_eq!(view.sub_state, ProjectSubState::BOMMode);
    assert!(matches!(view.select_last_idx(), ProjectsRequest::Nothing));
    view.refresh_list(vec![project_named("Old", 0), project_named("Amp", 0)]);
    match view.select_last_idx() {
        ProjectsRequest::LoadProjectDetails(i) => assert_eq!(i, 1),
        _ => panic!("expected a details load"),
    }
    assert_eq!(view.selected_project_idx, 1);
    assert_eq!(view.project_list_selected, Some(1));
}

#[test]
fn add_to_bom_form_fields() {
    let mut view = ProjectsView::new();
    view.sub_state = ProjectSubState::AddToBOM;
    view.atb_form_data.pns_not_in_project = vec!["A".to_string(), "B".to_string()];
    view.handle_add_to_bom_keys(Key::Char('z'));
    assert_eq!(view.atb_form_data.designators, "");
    view.handle_add_to_bom_keys(Key::Down);
    view.handle_add_to_bom_keys(Key::Down);
    assert_eq!(view.atb_form_data.pnip_selected, Some(1));
    view.handle_add_to_bom_keys(Key::Tab);
    assert_eq!(view.atb_form_data.currently_editing, ATBFormField::Designators);
    view.handle_add_to_bom_keys(Key::Char('R'));
    view.handle_add_to_bom_keys(Key::Char('1'));
    view.handle_add_to_bom_keys(Key::Down);
    assert_eq!(view.atb_form_data.currently_editing, ATBFormField::Qty);
    view.handle_add_to_bom_keys(Key::Char('3'));
    view.handle_add_to_bom_keys(Key::Char('4'));
    view.handle_add_to_bom_keys(Key::Backspace);
    view.handle_add_to_bom_keys(Key::Up);
    assert_eq!(view.atb_form_data.currently_editing, ATBFormField::Designators);
    assert_eq!(view.atb_form_data.designators, "R1");
    assert_eq!(view.atb_form_data.qty, "3");
    view.handle_add_to_bom_keys(Key::Esc);
    assert_eq!(view.sub_state, ProjectSubState::BOMMode);
}

#[test]
fn global_keys_switch_screens_in_main_mode() {
    let mut app = App::new();
    assert_eq!(app.current_screen, CurrentScreen::PartScreen);
    match app.handle_key_event(Key::Char('S')) {
        AppRequest::Stock(StockRequest::RefreshStock) => {},
        _ => panic!("expected a stock reload"),
    }
    assert_eq!(app.current_screen, CurrentScreen::StockScreen);
    app.handle_key_event(Key::Char('P'));
    assert_eq!(app.current_screen, CurrentScreen::ProjectScreen);
    app.handle_key_event(Key::Char('A'));
    assert_eq!(app.current_screen, CurrentScreen::PartScreen);
    assert!(app.handle_global_keys(Key::Char('x')).is_none());
    app.handle_key_event(Key::Char('q'));
    assert!(app.exit);
}

#[test]
fn form_keys_are_not_global() {
    let mut app = App::new();
    app.handle_key_event(Key::Char('n'));
    assert_eq!(app.parts_view.parts_sub_state, PartsSubState::NewPart);
    app.handle_key_event(Key::Char('q'));
    app.handle_key_event(Key::Char('S'));
    assert!(!app.exit);
    assert_eq!(app.current_screen, CurrentScreen::PartScreen);
    assert_eq!(app.parts_view.part_text.part_number, "qS");
    app.handle_key_event(Key::Esc);
    app.handle_key_event(Key::Char('P'));
    app.handle_key_event(Key::Tab);
    assert_eq!(app.projects_view.sub_state, ProjectSubState::ListMode);
    app.handle_key_event(Key::Char('q'));
    assert!(!app.exit);
}

#[test]
fn details_scroll_holds_at_largest_position() {
    let mut view = PartsView::new();
    view.show_details = true;
    view.part_scroll_info.scroll_position = usize::MAX;
    view.handle_main_keys(Key::Down);
    assert_eq!(view.part_scroll_info.scroll_position, usize::MAX);
}

#[test]
fn other_keys_change_nothing() {
    let mut app = App::new();
    assert!(matches!(app.handle_key_event(Key::Other), AppRequest::Parts(PartsRequest::Nothing)));
    assert_eq!(app.current_screen, CurrentScreen::PartScreen);
    assert_eq!(app.parts_view.parts_sub_state, PartsSubState::Main);
    assert!(!app.exit);
}

#[test]
fn opening_details_resets_scroll() {
    let mut view = PartsView::new();
    view.refresh_part_data(listed_parts(&["A"]));
    view.handle_main_keys(Key::Down);
    view.part_scroll_info.scroll_position = 5;
    view.part_scroll_info.scroll_length = 9;
    view.part_text.description = "old".to_string();
    view.handle_main_keys(Key::Char('d'));
    assert_eq!(view.part_scroll_info.scroll_position, 0);
    assert_eq!(view.part_scroll_info.scroll_length, 0);
    assert_eq!(view.part_text.description, "");
}
