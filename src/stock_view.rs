use vstd::prelude::*;
use crate::keys::{backspaced, Key};
use crate::sql::{params_view, SqlValue, SqlValueModel};
use crate::stock::{create_new_stock, StockInfo};
use crate::text::{is_digit, parse_i32, parsed_int, pop_char, push_char};
use crate::utils::{exec_table_mvmt, table_step, ListMvmtDir};

verus! {

/// Mode of the stock screen.
#[derive(Clone, Copy, Debug, PartialEq, Eq, Structural)]
pub enum StockSubState {
    StockMain,
    CreateStock,
    AddStock,
    SpendStock,
    EditStock,
}

/// Field of the new-stock form that receives typed keys.
#[derive(Clone, Copy, Debug, PartialEq, Eq, Structural)]
pub enum CreateStockPartField {
    PartNumber,
    LowStockThreshold,
    OnHand,
}

/// The field after `f` in the new-stock form, wrapping around.
pub open spec fn next_stock_field(f: CreateStockPartField) -> CreateStockPartField {
    match f {
        CreateStockPartField::PartNumber => CreateStockPartField::LowStockThreshold,
        CreateStockPartField::LowStockThreshold => CreateStockPartField::OnHand,
        CreateStockPartField::OnHand => CreateStockPartField::PartNumber,
    }
}

/// The value of a counter typed as text: its number where the text spells an
/// `i32`, else zero.
pub open spec fn i32_or_zero(s: Seq<char>) -> i32 {
    match parsed_int(s) {
        Some(v) => if i32::MIN <= v <= i32::MAX { v as i32 } else { 0 },
        None => 0,
    }
}

/// The new-stock form being filled in.
pub struct CurrentlyEditingStock {
    pub partnumber: String,
    pub low_stock_threshold: String,
    pub on_hand: String,
    pub active_field: CreateStockPartField,
}

pub struct CurrentlyEditingStockModel {
    pub partnumber: Seq<char>,
    pub low_stock_threshold: Seq<char>,
    pub on_hand: Seq<char>,
    pub active_field: CreateStockPartField,
}

impl View for CurrentlyEditingStock {
    type V = CurrentlyEditingStockModel;

    open spec fn view(&self) -> CurrentlyEditingStockModel {
        CurrentlyEditingStockModel {
            partnumber: self.partnumber@,
            low_stock_threshold: self.low_stock_threshold@,
            on_hand: self.on_hand@,
            active_field: self.active_field,
        }
    }
}

/// The stock entry that a filled-in form describes: the typed counters, and
/// zero for every counter that the form does not hold.
pub open spec fn stock_of_form(e: CurrentlyEditingStockModel, s: StockInfo) -> bool {
    &&& s.partnumber@ == e.partnumber
    &&& s.low_stock_threshold == i32_or_zero(e.low_stock_threshold)
    &&& s.on_hand == i32_or_zero(e.on_hand)
    &&& s.on_order == 0
    &&& s.in_prod == 0
    &&& s.total_stock == 0
    &&& s.balance == 0
    &&& s.available == 0
}

/// Parameters of the insert of the stock entry that a form describes.
pub open spec fn form_stock_params(e: CurrentlyEditingStockModel) -> Seq<SqlValueModel> {
    seq![
        SqlValueModel::Text(e.partnumber),
        SqlValueModel::Int(i32_or_zero(e.low_stock_threshold)),
        SqlValueModel::Int(i32_or_zero(e.on_hand)),
        SqlValueModel::Int(0),
    ]
}

fn i32_or_zero_of(s: &String) -> (r: i32)
    ensures
        r == i32_or_zero(s@),
{
    match parse_i32(s.as_str()) {
        Some(v) => v,
        None => 0,
    }
}

impl CurrentlyEditingStock {
    /// An empty form, on the part-number field.
    pub fn new() -> (r: CurrentlyEditingStock)
        ensures
            r@.partnumber.len() == 0,
            r@.low_stock_threshold.len() == 0,
            r@.on_hand.len() == 0,
            r@.active_field == CreateStockPartField::PartNumber,
    {
        CurrentlyEditingStock {
            partnumber: String::new(),
            low_stock_threshold: String::new(),
            on_hand: String::new(),
            active_field: CreateStockPartField::PartNumber,
        }
    }

    /// The stock entry that the form describes.
    pub fn copy_to_stock_info(&self) -> (r: StockInfo)
        ensures
            stock_of_form(self@, r),
    {
        StockInfo {
            partnumber: self.partnumber.clone(),
            low_stock_threshold: i32_or_zero_of(&self.low_stock_threshold),
            on_hand: i32_or_zero_of(&self.on_hand),
            on_order: 0,
            in_prod: 0,
            total_stock: 0,
            balance: 0,
            available: 0,
        }
    }
}

/// Data-access work that the stock screen asks for after a key.
pub enum StockRequest {
    Nothing,
    /// Reload `stock_data`.
    RefreshStock,
    /// Load the part numbers that have no stock entry into `nonstocked_pns`.
    LoadNonstockedPns,
    /// Insert a stock entry with these parameters, then reload `stock_data`.
    InsertStock(Vec<SqlValue>),
}

pub enum StockRequestModel {
    Nothing,
    RefreshStock,
    LoadNonstockedPns,
    InsertStock(Seq<SqlValueModel>),
}

impl View for StockRequest {
    type V = StockRequestModel;

    open spec fn view(&self) -> StockRequestModel {
        match self {
            StockRequest::Nothing => StockRequestModel::Nothing,
            StockRequest::RefreshStock => StockRequestModel::RefreshStock,
            StockRequest::LoadNonstockedPns => StockRequestModel::LoadNonstockedPns,
            StockRequest::InsertStock(v) => StockRequestModel::InsertStock(params_view(v@)),
        }
    }
}

/// State of the stock screen.
pub struct StockView {
    pub stock_sub_state: StockSubState,
    pub stock_data: Vec<StockInfo>,
    pub show_details: bool,
    /// Selected row of the stock table.
    pub stock_table_selected: Option<usize>,
    pub nonstocked_pns: Vec<String>,
    /// Selected entry of the list of part numbers without stock.
    pub nonstocked_pn_selected: Option<usize>,
    pub currently_editing_stock: CurrentlyEditingStock,
}

pub struct StockViewModel {
    pub sub_state: StockSubState,
    pub stock_data: Seq<StockInfo>,
    pub show_details: bool,
    pub stock_table_selected: Option<usize>,
    pub nonstocked_pns: Seq<String>,
    pub nonstocked_pn_selected: Option<usize>,
    pub editing: CurrentlyEditingStockModel,
}

impl View for StockView {
    type V = StockViewModel;

    open spec fn view(&self) -> StockViewModel {
        StockViewModel {
            sub_state: self.stock_sub_state,
            stock_data: self.stock_data@,
            show_details: self.show_details,
            stock_table_selected: self.stock_table_selected,
            nonstocked_pns: self.nonstocked_pns@,
            nonstocked_pn_selected: self.nonstocked_pn_selected,
            editing: self.currently_editing_stock@,
        }
    }
}

/// The stock screen after a key in its main mode, and what it asks for.
pub open spec fn stock_main_step(m: StockViewModel, key: Key) -> (StockViewModel, StockRequestModel) {
    match key {
        Key::Char(c) => {
            if c == 'd' {
                (StockViewModel { show_details: !m.show_details, ..m }, StockRequestModel::Nothing)
            } else if c == 'c' {
                (StockViewModel { sub_state: StockSubState::CreateStock, ..m }, StockRequestModel::LoadNonstockedPns)
            } else if c == 'a' {
                (StockViewModel { sub_state: StockSubState::AddStock, ..m }, StockRequestModel::Nothing)
            } else if c == 's' {
                (StockViewModel { sub_state: StockSubState::SpendStock, ..m }, StockRequestModel::Nothing)
            } else if c == 'e' {
                (StockViewModel { sub_state: StockSubState::EditStock, ..m }, StockRequestModel::Nothing)
            } else {
                (m, StockRequestModel::Nothing)
            }
        },
        Key::Down => (
            StockViewModel {
                stock_table_selected: table_step(ListMvmtDir::Greater, m.stock_table_selected, m.stock_data.len()),
                ..m
            },
            StockRequestModel::Nothing,
        ),
        Key::Up => (
            StockViewModel {
                stock_table_selected: table_step(ListMvmtDir::Less, m.stock_table_selected, m.stock_data.len()),
                ..m
            },
            StockRequestModel::Nothing,
        ),
        _ => (m, StockRequestModel::Nothing),
    }
}

/// The stock screen after a key in the new-stock form, and what it asks for.
/// Only the part-number list moves with the arrows, only digits are typed
/// into the counters, and the form is stored only once a part number is selected.
pub open spec fn create_stock_step(m: StockViewModel, key: Key) -> (StockViewModel, StockRequestModel) {
    let e = m.editing;
    match key {
        Key::Esc => (StockViewModel { sub_state: StockSubState::StockMain, ..m }, StockRequestModel::Nothing),
        Key::Down | Key::Up => {
            if e.active_field == CreateStockPartField::PartNumber {
                let dir = if key == Key::Down { ListMvmtDir::Greater } else { ListMvmtDir::Less };
                (
                    StockViewModel {
                        nonstocked_pn_selected: table_step(dir, m.nonstocked_pn_selected, m.nonstocked_pns.len()),
                        ..m
                    },
                    StockRequestModel::Nothing,
                )
            } else {
                (m, StockRequestModel::Nothing)
            }
        },
        Key::Tab => (
            StockViewModel {
                editing: CurrentlyEditingStockModel { active_field: next_stock_field(e.active_field), ..e },
                ..m
            },
            StockRequestModel::Nothing,
        ),
        Key::Char(c) => {
            if !is_digit(c) {
                (m, StockRequestModel::Nothing)
            } else {
                match e.active_field {
                    CreateStockPartField::LowStockThreshold => (
                        StockViewModel {
                            editing: CurrentlyEditingStockModel {
                                low_stock_threshold: e.low_stock_threshold.push(c),
                                ..e
                            },
                            ..m
                        },
                        StockRequestModel::Nothing,
                    ),
                    CreateStockPartField::OnHand => (
                        StockViewModel {
                            editing: CurrentlyEditingStockModel { on_hand: e.on_hand.push(c), ..e },
                            ..m
                        },
                        StockRequestModel::Nothing,
                    ),
                    CreateStockPartField::PartNumber => (m, StockRequestModel::Nothing),
                }
            }
        },
        Key::Backspace => match e.active_field {
            CreateStockPartField::LowStockThreshold => (
                StockViewModel {
                    editing: CurrentlyEditingStockModel {
                        low_stock_threshold: backspaced(e.low_stock_threshold),
                        ..e
                    },
                    ..m
                },
                StockRequestModel::Nothing,
            ),
            CreateStockPartField::OnHand => (
                StockViewModel {
                    editing: CurrentlyEditingStockModel { on_hand: backspaced(e.on_hand), ..e },
                    ..m
                },
                StockRequestModel::Nothing,
            ),
            CreateStockPartField::PartNumber => (m, StockRequestModel::Nothing),
        },
        Key::Enter => match m.nonstocked_pn_selected {
            Some(i) => {
                if i < m.nonstocked_pns.len() {
                    let filled = CurrentlyEditingStockModel { partnumber: m.nonstocked_pns[i as int]@, ..e };
                    (
                        StockViewModel { sub_state: StockSubState::StockMain, editing: filled, ..m },
                        StockRequestModel::InsertStock(form_stock_params(filled)),
                    )
                } else {
                    (m, StockRequestModel::Nothing)
                }
            },
            None => (m, StockRequestModel::Nothing),
        },
        _ => (m, StockRequestModel::Nothing),
    }
}

/// The stock screen after a key in one of the modes that only Esc leaves.
pub open spec fn stock_back_step(m: StockViewModel, key: Key) -> StockViewModel {
    if key == Key::Esc {
        StockViewModel { sub_state: StockSubState::StockMain, ..m }
    } else {
        m
    }
}

/// The stock screen in its main mode, with nothing loaded or selected.
pub open spec fn initial_stock_view() -> StockViewModel {
    StockViewModel {
        sub_state: StockSubState::StockMain,
        stock_data: Seq::empty(),
        show_details: false,
        stock_table_selected: None,
        nonstocked_pns: Seq::empty(),
        nonstocked_pn_selected: None,
        editing: CurrentlyEditingStockModel {
            partnumber: Seq::empty(),
            low_stock_threshold: Seq::empty(),
            on_hand: Seq::empty(),
            active_field: CreateStockPartField::PartNumber,
        },
    }
}

impl StockView {
    /// The screen in its main mode, with nothing loaded or selected.
    pub fn new() -> (r: StockView)
        ensures
            r@ == initial_stock_view(),
    {
        let r = StockView {
            stock_sub_state: StockSubState::StockMain,
            stock_data: Vec::new(),
            show_details: false,
            stock_table_selected: None,
            nonstocked_pns: Vec::new(),
            nonstocked_pn_selected: None,
            currently_editing_stock: CurrentlyEditingStock::new(),
        };
        assert(r.stock_data@ =~= Seq::empty());
        assert(r.nonstocked_pns@ =~= Seq::empty());
        assert(r.currently_editing_stock@.partnumber =~= Seq::empty());
        assert(r.currently_editing_stock@.low_stock_threshold =~= Seq::empty());
        assert(r.currently_editing_stock@.on_hand =~= Seq::empty());
        r
    }

    /// Replaces the stock table's rows.
    pub fn fetch_stock_data(&mut self, stock_data: Vec<StockInfo>)
        ensures
            final(self)@ == (StockViewModel { stock_data: stock_data@, ..old(self)@ }),
    {
        self.stock_data = stock_data;
    }

    pub fn handle_main_keys(&mut self, key: Key) -> (r: StockRequest)
        ensures
            (final(self)@, r@) == stock_main_step(old(self)@, key),
    {
        match key {
            Key::Char(c) => {
                if c == 'd' {
                    self.show_details = !self.show_details;
                } else if c == 'c' {
                    self.stock_sub_state = StockSubState::CreateStock;
                    return StockRequest::LoadNonstockedPns;
                } else if c == 'a' {
                    self.stock_sub_state = StockSubState::AddStock;
                } else if c == 's' {
                    self.stock_sub_state = StockSubState::SpendStock;
                } else if c == 'e' {
                    self.stock_sub_state = StockSubState::EditStock;
                }
            },
            Key::Down => {
                exec_table_mvmt(ListMvmtDir::Greater, &mut self.stock_table_selected, self.stock_data.len());
            },
            Key::Up => {
                exec_table_mvmt(ListMvmtDir::Less, &mut self.stock_table_selected, self.stock_data.len());
            },
            _ => {},
        }
        StockRequest::Nothing
    }

    pub fn handle_create_stock_keys(&mut self, key: Key) -> (r: StockRequest)
        ensures
            (final(self)@, r@) == create_stock_step(old(self)@, key),
    {
        match key {
            Key::Esc => {
                self.stock_sub_state = StockSubState::StockMain;
            },
            Key::Down => {
                if self.currently_editing_stock.active_field == CreateStockPartField::PartNumber {
                    exec_table_mvmt(ListMvmtDir::Greater, &mut self.nonstocked_pn_selected, self.nonstocked_pns.len());
                }
            },
            Key::Up => {
                if self.currently_editing_stock.active_field == CreateStockPartField::PartNumber {
                    exec_table_mvmt(ListMvmtDir::Less, &mut self.nonstocked_pn_selected, self.nonstocked_pns.len());
                }
            },
            Key::Tab => {
                self.currently_editing_stock.active_field = match self.currently_editing_stock.active_field {
                    CreateStockPartField::PartNumber => CreateStockPartField::LowStockThreshold,
                    CreateStockPartField::LowStockThreshold => CreateStockPartField::OnHand,
                    CreateStockPartField::OnHand => CreateStockPartField::PartNumber,
                };
            },
            Key::Char(value) => {
                // only digits go into the counters
                if !('0' <= value && value <= '9') {
                    return StockRequest::Nothing;
                }
                match self.currently_editing_stock.active_field {
                    CreateStockPartField::LowStockThreshold => {
                        push_char(&mut self.currently_editing_stock.low_stock_threshold, value);
                    },
                    CreateStockPartField::OnHand => {
                        push_char(&mut self.currently_editing_stock.on_hand, value);
                    },
                    CreateStockPartField::PartNumber => {},
                }
            },
            Key::Backspace => {
                match self.currently_editing_stock.active_field {
                    CreateStockPartField::LowStockThreshold => {
                        pop_char(&mut self.currently_editing_stock.low_stock_threshold);
                    },
                    CreateStockPartField::OnHand => {
                        pop_char(&mut self.currently_editing_stock.on_hand);
                    },
                    CreateStockPartField::PartNumber => {},
                }
            },
            Key::Enter => {
                match self.nonstocked_pn_selected {
                    Some(selected) => {
                        if selected >= self.nonstocked_pns.len() {
                            return StockRequest::Nothing;
                        }
                        self.currently_editing_stock.partnumber = self.nonstocked_pns[selected].clone();
                    },
                    // nothing is stored until a part number is selected
                    None => {
                        return StockRequest::Nothing;
                    },
                }
                let new_stock = self.currently_editing_stock.copy_to_stock_info();
                let params = create_new_stock(new_stock);
                assert(params_view(params@) =~= form_stock_params(self.currently_editing_stock@));
                self.stock_sub_state = StockSubState::StockMain;
                return StockRequest::InsertStock(params);
            },
            _ => {},
        }
        StockRequest::Nothing
    }

    pub fn handle_add_stock_keys(&mut self, key: Key)
        ensures
            final(self)@ == stock_back_step(old(self)@, key),
    {
        if key == Key::Esc {
            self.stock_sub_state = StockSubState::StockMain;
        }
    }

    pub fn handle_spend_stock_keys(&mut self, key: Key)
        ensures
            final(self)@ == stock_back_step(old(self)@, key),
    {
        if key == Key::Esc {
            self.stock_sub_state = StockSubState::StockMain;
        }
    }

    pub fn handle_edit_stock_keys(&mut self, key: Key)
        ensures
            final(self)@ == stock_back_step(old(self)@, key),
    {
        if key == Key::Esc {
            self.stock_sub_state = StockSubState::StockMain;
        }
    }
}

} // verus!
