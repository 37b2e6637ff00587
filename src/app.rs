use vstd::prelude::*;
use crate::keys::Key;
use crate::parts_view::{
    initial_parts_view,     part_form_step, parts_main_step, PartsRequest, PartsRequestModel, PartsSubState, PartsView, PartsViewModel,
};
use crate::projects_view::{
    initial_projects_view,     add_to_bom_step, bom_mode_step, create_project_step, list_mode_step, projects_main_step, ProjectSubState,
    ProjectsRequest, ProjectsRequestModel, ProjectsView, ProjectsViewModel,
};
use crate::stock_view::{
    initial_stock_view,     create_stock_step, stock_back_step, stock_main_step, StockRequest, StockRequestModel, StockSubState, StockView,
    StockViewModel,
};

verus! {

/// The screen on show.
#[derive(Clone, Copy, Debug, PartialEq, Eq, Structural)]
pub enum CurrentScreen {
    PartScreen,
    ProjectScreen,
    StockScreen,
}

/// Data-access work that a key asks for, by the screen that asks.
pub enum AppRequest {
    Nothing,
    Parts(PartsRequest),
    Stock(StockRequest),
    Projects(ProjectsRequest),
}

pub enum AppRequestModel {
    Nothing,
    Parts(PartsRequestModel),
    Stock(StockRequestModel),
    Projects(ProjectsRequestModel),
}

impl View for AppRequest {
    type V = AppRequestModel;

    open spec fn view(&self) -> AppRequestModel {
        match self {
            AppRequest::Nothing => AppRequestModel::Nothing,
            AppRequest::Parts(r) => AppRequestModel::Parts(r@),
            AppRequest::Stock(r) => AppRequestModel::Stock(r@),
            AppRequest::Projects(r) => AppRequestModel::Projects(r@),
        }
    }
}

/// State of the whole program: the screen on show, each screen's state, and
/// whether the user asked to quit.
pub struct App {
    pub current_screen: CurrentScreen,
    pub parts_view: PartsView,
    pub stock_view: StockView,
    pub projects_view: ProjectsView,
    pub exit: bool,
}

pub struct AppModel {
    pub screen: CurrentScreen,
    pub parts: PartsViewModel,
    pub stock: StockViewModel,
    pub projects: ProjectsViewModel,
    pub exit: bool,
}

impl View for App {
    type V = AppModel;

    open spec fn view(&self) -> AppModel {
        AppModel {
            screen: self.current_screen,
            parts: self.parts_view@,
            stock: self.stock_view@,
            projects: self.projects_view@,
            exit: self.exit,
        }
    }
}

/// The keys that every screen takes in its main mode: `q` quits, `S`, `A`
/// and `P` switch to the stock, parts and projects screens (the stock table
/// is reloaded on the way). `None` for any other key.
pub open spec fn global_step(m: AppModel, key: Key) -> Option<(AppModel, AppRequestModel)> {
    match key {
        Key::Char(c) => {
            if c == 'q' {
                Some((AppModel { exit: true, ..m }, AppRequestModel::Nothing))
            } else if c == 'S' {
                Some((
                    AppModel { screen: CurrentScreen::StockScreen, ..m },
                    AppRequestModel::Stock(StockRequestModel::RefreshStock),
                ))
            } else if c == 'A' {
                Some((AppModel { screen: CurrentScreen::PartScreen, ..m }, AppRequestModel::Nothing))
            } else if c == 'P' {
                Some((AppModel { screen: CurrentScreen::ProjectScreen, ..m }, AppRequestModel::Nothing))
            } else {
                None
            }
        },
        _ => None,
    }
}

/// The program after a key, and what it asks for: in a screen's main mode
/// the global keys come first, and every other key goes to the screen on
/// show, by its mode.
pub open spec fn app_step(m: AppModel, key: Key) -> (AppModel, AppRequestModel) {
    match m.screen {
        CurrentScreen::PartScreen => {
            let (p, r) = match m.parts.sub_state {
                PartsSubState::Main => parts_main_step(m.parts, key),
                PartsSubState::NewPart => part_form_step(m.parts, key, false),
                PartsSubState::EditPart => part_form_step(m.parts, key, true),
            };
            if m.parts.sub_state == PartsSubState::Main && global_step(m, key) is Some {
                global_step(m, key).unwrap()
            } else {
                (AppModel { parts: p, ..m }, AppRequestModel::Parts(r))
            }
        },
        CurrentScreen::StockScreen => {
            let (s, r) = match m.stock.sub_state {
                StockSubState::StockMain => stock_main_step(m.stock, key),
                StockSubState::CreateStock => create_stock_step(m.stock, key),
                _ => (stock_back_step(m.stock, key), StockRequestModel::Nothing),
            };
            if m.stock.sub_state == StockSubState::StockMain && global_step(m, key) is Some {
                global_step(m, key).unwrap()
            } else {
                (AppModel { stock: s, ..m }, AppRequestModel::Stock(r))
            }
        },
        CurrentScreen::ProjectScreen => {
            let (p, r) = match m.projects.sub_state {
                ProjectSubState::Main => (projects_main_step(m.projects, key), ProjectsRequestModel::Nothing),
                ProjectSubState::ListMode => list_mode_step(m.projects, key),
                ProjectSubState::BOMMode => bom_mode_step(m.projects, key),
                ProjectSubState::CreateNewProject => create_project_step(m.projects, key),
                ProjectSubState::AddToBOM => (add_to_bom_step(m.projects, key), ProjectsRequestModel::Nothing),
            };
            if m.projects.sub_state == ProjectSubState::Main && global_step(m, key) is Some {
                global_step(m, key).unwrap()
            } else {
                (AppModel { projects: p, ..m }, AppRequestModel::Projects(r))
            }
        },
    }
}

impl App {
    /// The parts screen, with every screen in its main mode and nothing loaded.
    pub fn new() -> (r: App)
        ensures
            r@.screen == CurrentScreen::PartScreen,
            r@.parts == initial_parts_view(),
            r@.stock == initial_stock_view(),
            r@.projects == initial_projects_view(),
            !r@.exit,
    {
        App {
            current_screen: CurrentScreen::PartScreen,
            parts_view: PartsView::new(),
            stock_view: StockView::new(),
            projects_view: ProjectsView::new(),
            exit: false,
        }
    }

    /// Acts on a global key; `None`, with nothing changed, for any other key.
    pub fn handle_global_keys(&mut self, key: Key) -> (r: Option<AppRequest>)
        ensures
            match global_step(old(self)@, key) {
                Some((m, req)) => final(self)@ == m && (r matches Some(q) && q@ == req),
                None => final(self)@ == old(self)@ && r is None,
            },
    {
        match key {
            Key::Char(c) => {
                if c == 'q' {
                    self.exit();
                    Some(AppRequest::Nothing)
                } else if c == 'S' {
                    self.current_screen = CurrentScreen::StockScreen;
                    Some(AppRequest::Stock(StockRequest::RefreshStock))
                } else if c == 'A' {
                    self.current_screen = CurrentScreen::PartScreen;
                    Some(AppRequest::Nothing)
                } else if c == 'P' {
                    self.current_screen = CurrentScreen::ProjectScreen;
                    Some(AppRequest::Nothing)
                } else {
                    None
                }
            },
            _ => None,
        }
    }

    fn exit(&mut self)
        ensures
            final(self)@ == (AppModel { exit: true, ..old(self)@ }),
    {
        self.exit = true;
    }

    /// Routes a key to the screen on show and says what data-access work it asks for.
    pub fn handle_key_event(&mut self, key: Key) -> (r: AppRequest)
        ensures
            (final(self)@, r@) == app_step(old(self)@, key),
    {
        match self.current_screen {
            CurrentScreen::PartScreen => self.handle_parts_keys(key),
            CurrentScreen::StockScreen => self.handle_storage_keys(key),
            CurrentScreen::ProjectScreen => self.handle_project_keys(key),
        }
    }

    fn handle_parts_keys(&mut self, key: Key) -> (r: AppRequest)
        requires
            old(self)@.screen == CurrentScreen::PartScreen,
        ensures
            (final(self)@, r@) == app_step(old(self)@, key),
    {
        match self.parts_view.parts_sub_state {
            PartsSubState::Main => {
                match self.handle_global_keys(key) {
                    Some(r) => r,
                    None => AppRequest::Parts(self.parts_view.handle_main_keys(key)),
                }
            },
            PartsSubState::NewPart => AppRequest::Parts(self.parts_view.handle_new_part_keys(key)),
            PartsSubState::EditPart => AppRequest::Parts(self.parts_view.handle_edit_part_keys(key)),
        }
    }

    fn handle_storage_keys(&mut self, key: Key) -> (r: AppRequest)
        requires
            old(self)@.screen == CurrentScreen::StockScreen,
        ensures
            (final(self)@, r@) == app_step(old(self)@, key),
    {
        match self.stock_view.stock_sub_state {
            StockSubState::StockMain => {
                match self.handle_global_keys(key) {
                    Some(r) => r,
                    None => AppRequest::Stock(self.stock_view.handle_main_keys(key)),
                }
            },
            StockSubState::CreateStock => AppRequest::Stock(self.stock_view.handle_create_stock_keys(key)),
            StockSubState::AddStock => {
                self.stock_view.handle_add_stock_keys(key);
                AppRequest::Stock(StockRequest::Nothing)
            },
            StockSubState::SpendStock => {
                self.stock_view.handle_spend_stock_keys(key);
                AppRequest::Stock(StockRequest::Nothing)
            },
            StockSubState::EditStock => {
                self.stock_view.handle_edit_stock_keys(key);
                AppRequest::Stock(StockRequest::Nothing)
            },
        }
    }

    fn handle_project_keys(&mut self, key: Key) -> (r: AppRequest)
        requires
            old(self)@.screen == CurrentScreen::ProjectScreen,
        ensures
            (final(self)@, r@) == app_step(old(self)@, key),
    {
        match self.projects_view.sub_state {
            ProjectSubState::Main => {
                match self.handle_global_keys(key) {
                    Some(r) => r,
                    None => {
                        self.projects_view.handle_main_keys(key);
                        AppRequest::Projects(ProjectsRequest::Nothing)
                    },
                }
            },
            ProjectSubState::ListMode => AppRequest::Projects(self.projects_view.handle_list_mode_keys(key)),
            ProjectSubState::BOMMode => AppRequest::Projects(self.projects_view.handle_bom_mode_keys(key)),
            ProjectSubState::CreateNewProject => AppRequest::Projects(
                self.projects_view.handle_create_project_keys(key),
            ),
            ProjectSubState::AddToBOM => {
                self.projects_view.handle_add_to_bom_keys(key);
                AppRequest::Projects(ProjectsRequest::Nothing)
            },
        }
    }
}

} // verus!
