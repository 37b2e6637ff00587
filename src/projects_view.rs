use vstd::prelude::*;
use crate::keys::{backspaced, Key};
use crate::projects::{create_new_project_name, Project};
use crate::sql::{params_view, SqlValue, SqlValueModel};
use crate::text::{pop_char, push_char};
use crate::utils::{
    exec_list_mvmt, exec_table_mvmt, list_step, scroll_down, scroll_up, scrolled_down, scrolled_up,
    table_step, ListMvmtDir, ScrollBarInfo,
};

verus! {

/// Mode of the projects screen.
#[derive(Clone, Copy, Debug, PartialEq, Eq, Structural)]
pub enum ProjectSubState {
    Main,
    ListMode,
    CreateNewProject,
    BOMMode,
    AddToBOM,
}

/// Field of the add-to-BOM form that receives keys.
#[derive(Clone, Copy, Debug, PartialEq, Eq, Structural)]
pub enum ATBFormField {
    PN,
    Designators,
    Qty,
}

/// The field after `f` in the add-to-BOM form, wrapping around.
pub open spec fn next_atb_field(f: ATBFormField) -> ATBFormField {
    match f {
        ATBFormField::PN => ATBFormField::Designators,
        ATBFormField::Designators => ATBFormField::Qty,
        ATBFormField::Qty => ATBFormField::PN,
    }
}

/// The form that adds a part to a project's bill of materials.
pub struct AddToBOMFormData {
    pub selected_pn: String,
    pub qty: String,
    pub designators: String,
    pub pns_not_in_project: Vec<String>,
    /// Selected entry of `pns_not_in_project`.
    pub pnip_selected: Option<usize>,
    pub currently_editing: ATBFormField,
}

pub struct AddToBOMFormModel {
    pub selected_pn: Seq<char>,
    pub qty: Seq<char>,
    pub designators: Seq<char>,
    pub pns_not_in_project: Seq<String>,
    pub pnip_selected: Option<usize>,
    pub currently_editing: ATBFormField,
}

impl View for AddToBOMFormData {
    type V = AddToBOMFormModel;

    open spec fn view(&self) -> AddToBOMFormModel {
        AddToBOMFormModel {
            selected_pn: self.selected_pn@,
            qty: self.qty@,
            designators: self.designators@,
            pns_not_in_project: self.pns_not_in_project@,
            pnip_selected: self.pnip_selected,
            currently_editing: self.currently_editing,
        }
    }
}

pub open spec fn empty_atb_form() -> AddToBOMFormModel {
    AddToBOMFormModel {
        selected_pn: Seq::empty(),
        qty: Seq::empty(),
        designators: Seq::empty(),
        pns_not_in_project: Seq::empty(),
        pnip_selected: None,
        currently_editing: ATBFormField::PN,
    }
}

impl AddToBOMFormData {
    /// An empty form, on the part-number list.
    pub fn new() -> (r: AddToBOMFormData)
        ensures
            r@ == empty_atb_form(),
    {
        let r = AddToBOMFormData {
            selected_pn: String::new(),
            qty: String::new(),
            designators: String::new(),
            pns_not_in_project: Vec::new(),
            pnip_selected: None,
            currently_editing: ATBFormField::PN,
        };
        assert(r.pns_not_in_project@ =~= Seq::empty());
        r
    }
}

/// Data-access work that the projects screen asks for after a key.
pub enum ProjectsRequest {
    Nothing,
    /// Reload `project_data`.
    RefreshList,
    /// Load the parts of the project at this index of `project_data`.
    LoadProjectDetails(usize),
    /// Insert a project with these parameters, reload `project_data`, then
    /// select the last project (`select_last_idx`) and do what that asks.
    InsertProject(Vec<SqlValue>),
    /// Load the part numbers that are not in the named project into the
    /// add-to-BOM form.
    LoadPnsNotInProject(String),
}

pub enum ProjectsRequestModel {
    Nothing,
    RefreshList,
    LoadProjectDetails(usize),
    InsertProject(Seq<SqlValueModel>),
    LoadPnsNotInProject(Seq<char>),
}

impl View for ProjectsRequest {
    type V = ProjectsRequestModel;

    open spec fn view(&self) -> ProjectsRequestModel {
        match self {
            ProjectsRequest::Nothing => ProjectsRequestModel::Nothing,
            ProjectsRequest::RefreshList => ProjectsRequestModel::RefreshList,
            ProjectsRequest::LoadProjectDetails(i) => ProjectsRequestModel::LoadProjectDetails(*i),
            ProjectsRequest::InsertProject(v) => ProjectsRequestModel::InsertProject(params_view(v@)),
            ProjectsRequest::LoadPnsNotInProject(n) => ProjectsRequestModel::LoadPnsNotInProject(n@),
        }
    }
}

/// State of the projects screen.
pub struct ProjectsView {
    pub sub_state: ProjectSubState,
    pub project_data: Vec<Project>,
    /// Selected entry of the project list.
    pub project_list_selected: Option<usize>,
    /// Index of the project whose bill of materials is shown.
    pub selected_project_idx: usize,
    pub new_project_name_text: String,
    pub prj_lst_sbar_state: ScrollBarInfo,
    /// Selected row of the bill-of-materials table.
    pub bom_table_selected: Option<usize>,
    pub atb_form_data: AddToBOMFormData,
}

pub struct ProjectsViewModel {
    pub sub_state: ProjectSubState,
    pub project_data: Seq<Project>,
    pub list_selected: Option<usize>,
    pub selected_project_idx: usize,
    pub new_name: Seq<char>,
    pub scroll_position: usize,
    pub scroll_length: u16,
    pub bom_selected: Option<usize>,
    pub atb: AddToBOMFormModel,
}

impl View for ProjectsView {
    type V = ProjectsViewModel;

    open spec fn view(&self) -> ProjectsViewModel {
        ProjectsViewModel {
            sub_state: self.sub_state,
            project_data: self.project_data@,
            list_selected: self.project_list_selected,
            selected_project_idx: self.selected_project_idx,
            new_name: self.new_project_name_text@,
            scroll_position: self.prj_lst_sbar_state.scroll_position,
            scroll_length: self.prj_lst_sbar_state.scroll_length,
            bom_selected: self.bom_table_selected,
            atb: self.atb_form_data@,
        }
    }
}

/// The projects screen after a key in its main mode: Tab enters the list.
pub open spec fn projects_main_step(m: ProjectsViewModel, key: Key) -> ProjectsViewModel {
    if key == Key::Tab {
        ProjectsViewModel { sub_state: ProjectSubState::ListMode, ..m }
    } else {
        m
    }
}

/// The projects screen after a key in the project list, and what it asks for.
pub open spec fn list_mode_step(m: ProjectsViewModel, key: Key) -> (ProjectsViewModel, ProjectsRequestModel) {
    match key {
        Key::Esc => (ProjectsViewModel { sub_state: ProjectSubState::Main, ..m }, ProjectsRequestModel::Nothing),
        Key::Tab => {
            let sel = if m.selected_project_idx != m.list_selected.unwrap_or(0) {
                Some(m.selected_project_idx)
            } else {
                m.list_selected
            };
            (
                ProjectsViewModel { list_selected: sel, sub_state: ProjectSubState::BOMMode, ..m },
                ProjectsRequestModel::Nothing,
            )
        },
        Key::Enter => match m.list_selected {
            Some(i) => {
                if i < m.project_data.len() {
                    (
                        ProjectsViewModel { selected_project_idx: i, sub_state: ProjectSubState::BOMMode, ..m },
                        ProjectsRequestModel::LoadProjectDetails(i),
                    )
                } else {
                    (m, ProjectsRequestModel::Nothing)
                }
            },
            None => (m, ProjectsRequestModel::Nothing),
        },
        Key::Down => (
            ProjectsViewModel {
                list_selected: table_step(ListMvmtDir::Greater, m.list_selected, m.project_data.len()),
                scroll_position: scrolled_down(m.scroll_position),
                ..m
            },
            ProjectsRequestModel::Nothing,
        ),
        Key::Up => (
            ProjectsViewModel {
                list_selected: table_step(ListMvmtDir::Less, m.list_selected, m.project_data.len()),
                scroll_position: scrolled_up(m.scroll_position),
                ..m
            },
            ProjectsRequestModel::Nothing,
        ),
        Key::Char(c) => {
            if c == 'r' {
                (m, ProjectsRequestModel::RefreshList)
            } else if c == 'c' {
                (ProjectsViewModel { sub_state: ProjectSubState::CreateNewProject, ..m }, ProjectsRequestModel::Nothing)
            } else {
                (m, ProjectsRequestModel::Nothing)
            }
        },
        _ => (m, ProjectsRequestModel::Nothing),
    }
}

/// The projects screen after a key in the bill of materials, and what it
/// asks for. Keys that need the shown project do nothing when its index is
/// outside the project list.
pub open spec fn bom_mode_step(m: ProjectsViewModel, key: Key) -> (ProjectsViewModel, ProjectsRequestModel) {
    let idx = m.selected_project_idx;
    let shown = idx < m.project_data.len();
    match key {
        Key::Esc => (ProjectsViewModel { sub_state: ProjectSubState::Main, ..m }, ProjectsRequestModel::Nothing),
        Key::Tab => (ProjectsViewModel { sub_state: ProjectSubState::ListMode, ..m }, ProjectsRequestModel::Nothing),
        Key::Char(c) => {
            if c == 'c' && shown {
                (
                    ProjectsViewModel { sub_state: ProjectSubState::AddToBOM, ..m },
                    ProjectsRequestModel::LoadPnsNotInProject(m.project_data[idx as int].name@),
                )
            } else {
                (m, ProjectsRequestModel::Nothing)
            }
        },
        Key::Up | Key::Down => {
            if shown {
                let dir = if key == Key::Down { ListMvmtDir::Greater } else { ListMvmtDir::Less };
                (
                    ProjectsViewModel {
                        bom_selected: list_step(dir, m.bom_selected, m.project_data[idx as int].parts@.len()),
                        ..m
                    },
                    ProjectsRequestModel::Nothing,
                )
            } else {
                (m, ProjectsRequestModel::Nothing)
            }
        },
        _ => (m, ProjectsRequestModel::Nothing),
    }
}

/// The projects screen after a key while a new project is named, and what it
/// asks for.
pub open spec fn create_project_step(m: ProjectsViewModel, key: Key) -> (ProjectsViewModel, ProjectsRequestModel) {
    match key {
        Key::Esc => (ProjectsViewModel { sub_state: ProjectSubState::ListMode, ..m }, ProjectsRequestModel::Nothing),
        Key::Char(c) => (ProjectsViewModel { new_name: m.new_name.push(c), ..m }, ProjectsRequestModel::Nothing),
        Key::Backspace => (ProjectsViewModel { new_name: backspaced(m.new_name), ..m }, ProjectsRequestModel::Nothing),
        Key::Enter => (
            ProjectsViewModel { new_name: Seq::empty(), sub_state: ProjectSubState::BOMMode, ..m },
            ProjectsRequestModel::InsertProject(seq![SqlValueModel::Text(m.new_name)]),
        ),
        _ => (m, ProjectsRequestModel::Nothing),
    }
}

/// The projects screen after a key in the add-to-BOM form.
pub open spec fn add_to_bom_step(m: ProjectsViewModel, key: Key) -> ProjectsViewModel {
    let a = m.atb;
    let f = a.currently_editing;
    match key {
        Key::Esc => ProjectsViewModel { sub_state: ProjectSubState::BOMMode, ..m },
        Key::Tab => ProjectsViewModel {
            atb: AddToBOMFormModel { currently_editing: next_atb_field(f), ..a },
            ..m
        },
        Key::Char(c) => match f {
            ATBFormField::PN => m,
            ATBFormField::Designators => ProjectsViewModel {
                atb: AddToBOMFormModel { designators: a.designators.push(c), ..a },
                ..m
            },
            ATBFormField::Qty => ProjectsViewModel { atb: AddToBOMFormModel { qty: a.qty.push(c), ..a }, ..m },
        },
        Key::Backspace => match f {
            ATBFormField::PN => m,
            ATBFormField::Designators => ProjectsViewModel {
                atb: AddToBOMFormModel { designators: backspaced(a.designators), ..a },
                ..m
            },
            ATBFormField::Qty => ProjectsViewModel { atb: AddToBOMFormModel { qty: backspaced(a.qty), ..a }, ..m },
        },
        Key::Up => match f {
            ATBFormField::PN => ProjectsViewModel {
                atb: AddToBOMFormModel {
                    pnip_selected: list_step(ListMvmtDir::Less, a.pnip_selected, a.pns_not_in_project.len()),
                    ..a
                },
                ..m
            },
            ATBFormField::Qty => ProjectsViewModel {
                atb: AddToBOMFormModel { currently_editing: ATBFormField::Designators, ..a },
                ..m
            },
            ATBFormField::Designators => m,
        },
        Key::Down => match f {
            ATBFormField::PN => ProjectsViewModel {
                atb: AddToBOMFormModel {
                    pnip_selected: list_step(ListMvmtDir::Greater, a.pnip_selected, a.pns_not_in_project.len()),
                    ..a
                },
                ..m
            },
            ATBFormField::Qty => m,
            ATBFormField::Designators => ProjectsViewModel {
                atb: AddToBOMFormModel { currently_editing: ATBFormField::Qty, ..a },
                ..m
            },
        },
        _ => m,
    }
}

/// The projects screen with its last project selected and shown, and what it
/// asks for; nothing changes when there is no project.
pub open spec fn select_last_step(m: ProjectsViewModel) -> (ProjectsViewModel, ProjectsRequestModel) {
    if m.project_data.len() == 0 {
        (m, ProjectsRequestModel::Nothing)
    } else {
        let idx = (m.project_data.len() - 1) as usize;
        (
            ProjectsViewModel { list_selected: Some(idx), selected_project_idx: idx, ..m },
            ProjectsRequestModel::LoadProjectDetails(idx),
        )
    }
}

/// The projects screen in its main mode, with no project loaded or selected.
pub open spec fn initial_projects_view() -> ProjectsViewModel {
    ProjectsViewModel {
        sub_state: ProjectSubState::Main,
        project_data: Seq::empty(),
        list_selected: None,
        selected_project_idx: 0,
        new_name: Seq::empty(),
        scroll_position: 0,
        scroll_length: 0,
        bom_selected: None,
        atb: empty_atb_form(),
    }
}

impl ProjectsView {
    /// The screen in its main mode, with no project loaded or selected.
    pub fn new() -> (r: Self)
        ensures
            r@ == initial_projects_view(),
    {
        let r = Self {
            sub_state: ProjectSubState::Main,
            project_data: Vec::new(),
            project_list_selected: None,
            selected_project_idx: 0,
            new_project_name_text: String::new(),
            prj_lst_sbar_state: ScrollBarInfo::new(),
            bom_table_selected: None,
            atb_form_data: AddToBOMFormData::new(),
        };
        assert(r.project_data@ =~= Seq::empty());
        r
    }

    /// Replaces the project list.
    pub fn refresh_list(&mut self, project_data: Vec<Project>)
        ensures
            final(self)@ == (ProjectsViewModel { project_data: project_data@, ..old(self)@ }),
    {
        self.project_data = project_data;
    }

    pub fn handle_main_keys(&mut self, key: Key)
        ensures
            final(self)@ == projects_main_step(old(self)@, key),
    {
        if key == Key::Tab {
            self.sub_state = ProjectSubState::ListMode;
        }
    }

    pub fn handle_list_mode_keys(&mut self, key: Key) -> (r: ProjectsRequest)
        ensures
            (final(self)@, r@) == list_mode_step(old(self)@, key),
    {
        match key {
            Key::Esc => {
                self.sub_state = ProjectSubState::Main;
            },
            Key::Tab => {
                if self.selected_project_idx != self.project_list_selected.unwrap_or(0) {
                    self.project_list_selected = Some(self.selected_project_idx);
                }
                self.sub_state = ProjectSubState::BOMMode;
            },
            Key::Enter => {
                match self.project_list_selected {
                    Some(selected) => {
                        if selected < self.project_data.len() {
                            self.selected_project_idx = selected;
                            self.sub_state = ProjectSubState::BOMMode;
                            return ProjectsRequest::LoadProjectDetails(selected);
                        }
                    },
                    None => {},
                }
            },
            Key::Down => {
                exec_table_mvmt(ListMvmtDir::Greater, &mut self.project_list_selected, self.project_data.len());
                scroll_down(&mut self.prj_lst_sbar_state.scroll_position);
            },
            Key::Up => {
                exec_table_mvmt(ListMvmtDir::Less, &mut self.project_list_selected, self.project_data.len());
                scroll_up(&mut self.prj_lst_sbar_state.scroll_position);
            },
            Key::Char(c) => {
                if c == 'r' {
                    return ProjectsRequest::RefreshList;
                } else if c == 'c' {
                    self.sub_state = ProjectSubState::CreateNewProject;
                }
            },
            _ => {},
        }
        ProjectsRequest::Nothing
    }

    pub fn handle_bom_mode_keys(&mut self, key: Key) -> (r: ProjectsRequest)
        ensures
            (final(self)@, r@) == bom_mode_step(old(self)@, key),
    {
        let idx = self.selected_project_idx;
        match key {
            Key::Esc => {
                self.sub_state = ProjectSubState::Main;
            },
            Key::Tab => {
                self.sub_state = ProjectSubState::ListMode;
            },
            Key::Char(c) => {
                if c == 'c' && idx < self.project_data.len() {
                    self.sub_state = ProjectSubState::AddToBOM;
                    return ProjectsRequest::LoadPnsNotInProject(self.project_data[idx].name.clone());
                }
            },
            Key::Up => {
                if idx < self.project_data.len() {
                    let len = self.project_data[idx].parts.len();
                    exec_list_mvmt(ListMvmtDir::Less, &mut self.bom_table_selected, len);
                }
            },
            Key::Down => {
                if idx < self.project_data.len() {
                    let len = self.project_data[idx].parts.len();
                    exec_list_mvmt(ListMvmtDir::Greater, &mut self.bom_table_selected, len);
                }
            },
            _ => {},
        }
        ProjectsRequest::Nothing
    }

    pub fn handle_create_project_keys(&mut self, key: Key) -> (r: ProjectsRequest)
        ensures
            (final(self)@, r@) == create_project_step(old(self)@, key),
    {
        match key {
            Key::Esc => {
                self.sub_state = ProjectSubState::ListMode;
            },
            Key::Char(character) => {
                push_char(&mut self.new_project_name_text, character);
            },
            Key::Backspace => {
                pop_char(&mut self.new_project_name_text);
            },
            Key::Enter => {
                let params = create_new_project_name(self.new_project_name_text.clone());
                self.new_project_name_text = String::new();
                self.sub_state = ProjectSubState::BOMMode;
                return ProjectsRequest::InsertProject(params);
            },
            _ => {},
        }
        ProjectsRequest::Nothing
    }

    pub fn handle_add_to_bom_keys(&mut self, key: Key)
        ensures
            final(self)@ == add_to_bom_step(old(self)@, key),
    {
        match key {
            Key::Esc => {
                self.sub_state = ProjectSubState::BOMMode;
            },
            Key::Tab => {
                self.atb_form_data.currently_editing = match self.atb_form_data.currently_editing {
                    ATBFormField::PN => ATBFormField::Designators,
                    ATBFormField::Designators => ATBFormField::Qty,
                    ATBFormField::Qty => ATBFormField::PN,
                };
            },
            Key::Char(character) => {
                match self.atb_form_data.currently_editing {
                    ATBFormField::PN => {},
                    ATBFormField::Designators => {
                        push_char(&mut self.atb_form_data.designators, character);
                    },
                    ATBFormField::Qty => {
                        push_char(&mut self.atb_form_data.qty, character);
                    },
                }
            },
            Key::Backspace => {
                match self.atb_form_data.currently_editing {
                    ATBFormField::PN => {},
                    ATBFormField::Designators => {
                        pop_char(&mut self.atb_form_data.designators);
                    },
                    ATBFormField::Qty => {
                        pop_char(&mut self.atb_form_data.qty);
                    },
                }
            },
            Key::Up => {
                match self.atb_form_data.currently_editing {
                    ATBFormField::PN => {
                        let list_len = self.atb_form_data.pns_not_in_project.len();
                        exec_list_mvmt(ListMvmtDir::Less, &mut self.atb_form_data.pnip_selected, list_len);
                    },
                    // the arrow also moves up to the field above
                    ATBFormField::Qty => {
                        self.atb_form_data.currently_editing = ATBFormField::Designators;
                    },
                    ATBFormField::Designators => {},
                }
            },
            Key::Down => {
                match self.atb_form_data.currently_editing {
                    ATBFormField::PN => {
                        let list_len = self.atb_form_data.pns_not_in_project.len();
                        exec_list_mvmt(ListMvmtDir::Greater, &mut self.atb_form_data.pnip_selected, list_len);
                    },
                    ATBFormField::Qty => {},
                    ATBFormField::Designators => {
                        self.atb_form_data.currently_editing = ATBFormField::Qty;
                    },
                }
            },
            _ => {},
        }
    }

    /// Selects and shows the last project of the list.
    pub fn select_last_idx(&mut self) -> (r: ProjectsRequest)
        ensures
            (final(self)@, r@) == select_last_step(old(self)@),
    {
        if self.project_data.len() == 0 {
            return ProjectsRequest::Nothing;
        }
        let idx = self.project_data.len() - 1;
        self.project_list_selected = Some(idx);
        self.selected_project_idx = idx;
        ProjectsRequest::LoadProjectDetails(idx)
    }
}

} // verus!
