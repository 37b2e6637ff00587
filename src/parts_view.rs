use vstd::prelude::*;
use crate::keys::{backspaced, Key};
use crate::parts::{add_new_part, modify_part, modify_part_params, new_part_params, Part, PartModel, PartStorage};
use crate::sql::{params_view, SqlValue, SqlValueModel};
use crate::text::{decimal, lemma_parse_decimal, i64_to_string, parse_i64, parsed_int, pop_char, push_char, string_or_empty};
use crate::utils::{exec_table_mvmt, scroll_down, scroll_up, scrolled_down, scrolled_up, table_step, ListMvmtDir};

verus! {

/// Mode of the parts screen.
#[derive(Clone, Copy, Debug, PartialEq, Eq, Structural)]
pub enum PartsSubState {
    Main,
    NewPart,
    EditPart,
}

/// Scroll state of the part details panel.
pub struct PartScrollInfo {
    pub scroll_position: usize,
    pub scroll_length: u16,
}

impl PartScrollInfo {
    pub fn reset(&mut self)
        ensures
            final(self).scroll_position == 0,
            final(self).scroll_length == 0,
    {
        self.scroll_position = 0;
        self.scroll_length = 0;
    }
}

/// Field of the part form that receives typed keys.
#[derive(Clone, Copy, Debug, PartialEq, Eq, Structural)]
pub enum CurrentlyEditingPart {
    PartNumber,
    Manufacturer,
    Package,
    Label,
    Value,
    Tolerance,
}

/// The field after `f` in the part form; after the last one the form goes
/// back to the manufacturer, as the part number is set only once.
pub open spec fn next_part_field(f: CurrentlyEditingPart) -> CurrentlyEditingPart {
    match f {
        CurrentlyEditingPart::PartNumber => CurrentlyEditingPart::Manufacturer,
        CurrentlyEditingPart::Manufacturer => CurrentlyEditingPart::Package,
        CurrentlyEditingPart::Package => CurrentlyEditingPart::Label,
        CurrentlyEditingPart::Label => CurrentlyEditingPart::Value,
        CurrentlyEditingPart::Value => CurrentlyEditingPart::Tolerance,
        CurrentlyEditingPart::Tolerance => CurrentlyEditingPart::Manufacturer,
    }
}

/// A part's attributes as editable text.
pub struct PartText {
    pub part_number: String,
    pub total_qty: String,
    pub manufacturer: String,
    pub package: String,
    pub label: String,
    pub value: String,
    pub tolerance: String,
    pub description: String,
}

pub struct PartTextModel {
    pub part_number: Seq<char>,
    pub total_qty: Seq<char>,
    pub manufacturer: Seq<char>,
    pub package: Seq<char>,
    pub label: Seq<char>,
    pub value: Seq<char>,
    pub tolerance: Seq<char>,
    pub description: Seq<char>,
}

impl View for PartText {
    type V = PartTextModel;

    open spec fn view(&self) -> PartTextModel {
        PartTextModel {
            part_number: self.part_number@,
            total_qty: self.total_qty@,
            manufacturer: self.manufacturer@,
            package: self.package@,
            label: self.label@,
            value: self.value@,
            tolerance: self.tolerance@,
            description: self.description@,
        }
    }
}

pub open spec fn empty_part_text() -> PartTextModel {
    PartTextModel {
        part_number: Seq::empty(),
        total_qty: Seq::empty(),
        manufacturer: Seq::empty(),
        package: Seq::empty(),
        label: Seq::empty(),
        value: Seq::empty(),
        tolerance: Seq::empty(),
        description: Seq::empty(),
    }
}

/// The text of a part: its quantity in decimal (zero when unknown) and each
/// missing attribute as empty text.
pub open spec fn text_of_part(p: PartModel) -> PartTextModel {
    PartTextModel {
        part_number: p.part_number,
        total_qty: decimal(p.total_qty.unwrap_or(0) as int),
        manufacturer: p.manufacturer.unwrap_or(Seq::empty()),
        package: p.package.unwrap_or(Seq::empty()),
        label: p.label.unwrap_or(Seq::empty()),
        value: p.value.unwrap_or(Seq::empty()),
        tolerance: p.tolerance.unwrap_or(Seq::empty()),
        description: p.description.unwrap_or(Seq::empty()),
    }
}

/// The quantity typed as text: its number where the text spells an `i64`, else zero.
pub open spec fn i64_or_zero(s: Seq<char>) -> i64 {
    match parsed_int(s) {
        Some(v) => if i64::MIN <= v <= i64::MAX { v as i64 } else { 0 },
        None => 0,
    }
}

/// The part that a text describes, with every attribute present.
pub open spec fn part_of_text(t: PartTextModel) -> PartModel {
    PartModel {
        part_number: t.part_number,
        total_qty: Some(i64_or_zero(t.total_qty)),
        manufacturer: Some(t.manufacturer),
        description: Some(t.description),
        label: Some(t.label),
        package: Some(t.package),
        value: Some(t.value),
        tolerance: Some(t.tolerance),
    }
}

/// The text of the field `f`.
pub open spec fn field_text(t: PartTextModel, f: CurrentlyEditingPart) -> Seq<char> {
    match f {
        CurrentlyEditingPart::PartNumber => t.part_number,
        CurrentlyEditingPart::Manufacturer => t.manufacturer,
        CurrentlyEditingPart::Package => t.package,
        CurrentlyEditingPart::Label => t.label,
        CurrentlyEditingPart::Value => t.value,
        CurrentlyEditingPart::Tolerance => t.tolerance,
    }
}

/// The text with the field `f` set to `s`.
pub open spec fn with_field(t: PartTextModel, f: CurrentlyEditingPart, s: Seq<char>) -> PartTextModel {
    match f {
        CurrentlyEditingPart::PartNumber => PartTextModel { part_number: s, ..t },
        CurrentlyEditingPart::Manufacturer => PartTextModel { manufacturer: s, ..t },
        CurrentlyEditingPart::Package => PartTextModel { package: s, ..t },
        CurrentlyEditingPart::Label => PartTextModel { label: s, ..t },
        CurrentlyEditingPart::Value => PartTextModel { value: s, ..t },
        CurrentlyEditingPart::Tolerance => PartTextModel { tolerance: s, ..t },
    }
}

/// Copying a part into the edit form and back gives the same part, for a
/// part whose quantity and attributes are all present.
pub proof fn lemma_part_text_round_trip(p: PartModel)
    requires
        p.total_qty is Some,
        p.manufacturer is Some,
        p.description is Some,
        p.label is Some,
        p.package is Some,
        p.value is Some,
        p.tolerance is Some,
    ensures
        part_of_text(text_of_part(p)) == p,
{
    lemma_parse_decimal(p.total_qty.unwrap() as int);
}

fn i64_or_zero_of(s: &String) -> (r: i64)
    ensures
        r == i64_or_zero(s@),
{
    match parse_i64(s.as_str()) {
        Some(v) => v,
        None => 0,
    }
}

impl PartText {
    /// Empty text in every field.
    pub fn new() -> (r: PartText)
        ensures
            r@ == empty_part_text(),
    {
        PartText {
            part_number: String::new(),
            total_qty: String::new(),
            manufacturer: String::new(),
            package: String::new(),
            label: String::new(),
            value: String::new(),
            tolerance: String::new(),
            description: String::new(),
        }
    }

    pub fn clear(&mut self)
        ensures
            final(self)@ == empty_part_text(),
    {
        *self = PartText::new();
    }

    /// Sets the text to that of `part`.
    pub fn copy_from_db_part(&mut self, part: &Part)
        ensures
            final(self)@ == text_of_part(part@),
    {
        self.part_number = part.part_number.clone();
        self.total_qty = i64_to_string(part.total_qty.unwrap_or(0));
        self.manufacturer = string_or_empty(&part.manufacturer);
        self.package = string_or_empty(&part.package);
        self.label = string_or_empty(&part.label);
        self.value = string_or_empty(&part.value);
        self.tolerance = string_or_empty(&part.tolerance);
        self.description = string_or_empty(&part.description);
    }

    /// Sets every attribute of `part` to what the text describes.
    pub fn copy_to_db_part(&self, part: &mut Part)
        ensures
            final(part)@ == part_of_text(self@),
    {
        part.part_number = self.part_number.clone();
        part.total_qty = Some(i64_or_zero_of(&self.total_qty));
        part.manufacturer = Some(self.manufacturer.clone());
        part.package = Some(self.package.clone());
        part.label = Some(self.label.clone());
        part.value = Some(self.value.clone());
        part.tolerance = Some(self.tolerance.clone());
        part.description = Some(self.description.clone());
    }

    fn push_to(&mut self, f: CurrentlyEditingPart, c: char)
        ensures
            final(self)@ == with_field(old(self)@, f, field_text(old(self)@, f).push(c)),
    {
        match f {
            CurrentlyEditingPart::PartNumber => push_char(&mut self.part_number, c),
            CurrentlyEditingPart::Manufacturer => push_char(&mut self.manufacturer, c),
            CurrentlyEditingPart::Package => push_char(&mut self.package, c),
            CurrentlyEditingPart::Label => push_char(&mut self.label, c),
            CurrentlyEditingPart::Value => push_char(&mut self.value, c),
            CurrentlyEditingPart::Tolerance => push_char(&mut self.tolerance, c),
        }
    }

    fn pop_from(&mut self, f: CurrentlyEditingPart)
        ensures
            final(self)@ == with_field(old(self)@, f, backspaced(field_text(old(self)@, f))),
    {
        match f {
            CurrentlyEditingPart::PartNumber => pop_char(&mut self.part_number),
            CurrentlyEditingPart::Manufacturer => pop_char(&mut self.manufacturer),
            CurrentlyEditingPart::Package => pop_char(&mut self.package),
            CurrentlyEditingPart::Label => pop_char(&mut self.label),
            CurrentlyEditingPart::Value => pop_char(&mut self.value),
            CurrentlyEditingPart::Tolerance => pop_char(&mut self.tolerance),
        };
    }
}

/// Data-access work that the parts screen asks for after a key.
pub enum PartsRequest {
    Nothing,
    /// Reload `part_data`.
    RefreshParts,
    /// Load the part with this part number into `part_text`.
    LoadPart(String),
    /// Load the part with this part number into `part_text`, and its storage
    /// entries into `part_storage_data`.
    LoadPartDetails(String),
    /// Insert a part with these parameters, then reload `part_data`.
    InsertPart(Vec<SqlValue>),
    /// Update a part with these parameters, then reload `part_data`.
    UpdatePart(Vec<SqlValue>),
}

pub enum PartsRequestModel {
    Nothing,
    RefreshParts,
    LoadPart(Seq<char>),
    LoadPartDetails(Seq<char>),
    InsertPart(Seq<SqlValueModel>),
    UpdatePart(Seq<SqlValueModel>),
}

impl View for PartsRequest {
    type V = PartsRequestModel;

    open spec fn view(&self) -> PartsRequestModel {
        match self {
            PartsRequest::Nothing => PartsRequestModel::Nothing,
            PartsRequest::RefreshParts => PartsRequestModel::RefreshParts,
            PartsRequest::LoadPart(pn) => PartsRequestModel::LoadPart(pn@),
            PartsRequest::LoadPartDetails(pn) => PartsRequestModel::LoadPartDetails(pn@),
            PartsRequest::InsertPart(v) => PartsRequestModel::InsertPart(params_view(v@)),
            PartsRequest::UpdatePart(v) => PartsRequestModel::UpdatePart(params_view(v@)),
        }
    }
}

/// State of the parts screen.
pub struct PartsView {
    pub parts_sub_state: PartsSubState,
    pub currently_editing_part: CurrentlyEditingPart,
    pub part_text: PartText,
    pub part_data: Vec<Part>,
    pub part_storage_data: Vec<PartStorage>,
    pub show_details: bool,
    pub part_scroll_info: PartScrollInfo,
    /// Selected row of the parts table.
    pub part_table_selected: Option<usize>,
}

pub struct PartsViewModel {
    pub sub_state: PartsSubState,
    pub editing: CurrentlyEditingPart,
    pub text: PartTextModel,
    pub part_data: Seq<Part>,
    pub part_storage_data: Seq<PartStorage>,
    pub show_details: bool,
    pub scroll_position: usize,
    pub scroll_length: u16,
    pub selected: Option<usize>,
}

impl View for PartsView {
    type V = PartsViewModel;

    open spec fn view(&self) -> PartsViewModel {
        PartsViewModel {
            sub_state: self.parts_sub_state,
            editing: self.currently_editing_part,
            text: self.part_text@,
            part_data: self.part_data@,
            part_storage_data: self.part_storage_data@,
            show_details: self.show_details,
            scroll_position: self.part_scroll_info.scroll_position,
            scroll_length: self.part_scroll_info.scroll_length,
            selected: self.part_table_selected,
        }
    }
}

/// The part number of the selected row, where a row inside the table is selected.
pub open spec fn selected_pn(m: PartsViewModel) -> Option<Seq<char>> {
    match m.selected {
        Some(i) => if i < m.part_data.len() { Some(m.part_data[i as int].part_number@) } else { None },
        None => None,
    }
}

/// What the parts screen asks for to show the selected part.
pub open spec fn load_selected(m: PartsViewModel) -> PartsRequestModel {
    match selected_pn(m) {
        Some(pn) => PartsRequestModel::LoadPart(pn),
        None => PartsRequestModel::Nothing,
    }
}

/// The parts screen after a key in its main mode, and what it asks for.
/// With the details panel open the arrows scroll the panel, else they move
/// through the table and load the part that becomes selected.
pub open spec fn parts_main_step(m: PartsViewModel, key: Key) -> (PartsViewModel, PartsRequestModel) {
    match key {
        Key::Char(c) => {
            if c == 'n' {
                (
                    PartsViewModel {
                        sub_state: PartsSubState::NewPart,
                        text: empty_part_text(),
                        editing: CurrentlyEditingPart::PartNumber,
                        ..m
                    },
                    PartsRequestModel::Nothing,
                )
            } else if c == 'r' {
                (m, PartsRequestModel::RefreshParts)
            } else if c == 'e' {
                match selected_pn(m) {
                    Some(pn) => (
                        PartsViewModel {
                            sub_state: PartsSubState::EditPart,
                            text: empty_part_text(),
                            editing: CurrentlyEditingPart::Manufacturer,
                            ..m
                        },
                        PartsRequestModel::LoadPart(pn),
                    ),
                    None => (m, PartsRequestModel::Nothing),
                }
            } else if c == 'd' {
                match selected_pn(m) {
                    Some(pn) => (
                        PartsViewModel {
                            text: empty_part_text(),
                            scroll_position: 0,
                            scroll_length: 0,
                            show_details: !m.show_details,
                            ..m
                        },
                        PartsRequestModel::LoadPartDetails(pn),
                    ),
                    None => (m, PartsRequestModel::Nothing),
                }
            } else {
                (m, PartsRequestModel::Nothing)
            }
        },
        Key::Down => {
            if !m.show_details {
                let moved = PartsViewModel {
                    selected: table_step(ListMvmtDir::Greater, m.selected, m.part_data.len()),
                    ..m
                };
                (moved, load_selected(moved))
            } else {
                (PartsViewModel { scroll_position: scrolled_down(m.scroll_position), ..m }, PartsRequestModel::Nothing)
            }
        },
        Key::Up => {
            if !m.show_details {
                let moved = PartsViewModel {
                    selected: table_step(ListMvmtDir::Less, m.selected, m.part_data.len()),
                    ..m
                };
                (moved, load_selected(moved))
            } else {
                (PartsViewModel { scroll_position: scrolled_up(m.scroll_position), ..m }, PartsRequestModel::Nothing)
            }
        },
        _ => (m, PartsRequestModel::Nothing),
    }
}

/// The parts screen after a key in the part form, and what it asks for.
/// `editing_existing` is set when an existing part is edited: its part
/// number then takes no keys, and Enter updates the part instead of inserting it.
pub open spec fn part_form_step(m: PartsViewModel, key: Key, editing_existing: bool) -> (PartsViewModel, PartsRequestModel) {
    let f = m.editing;
    let locked = editing_existing && f == CurrentlyEditingPart::PartNumber;
    match key {
        Key::Esc => (PartsViewModel { sub_state: PartsSubState::Main, ..m }, PartsRequestModel::RefreshParts),
        Key::Char(c) => {
            if locked {
                (m, PartsRequestModel::Nothing)
            } else {
                (
                    PartsViewModel { text: with_field(m.text, f, field_text(m.text, f).push(c)), ..m },
                    PartsRequestModel::Nothing,
                )
            }
        },
        Key::Tab => (PartsViewModel { editing: next_part_field(f), ..m }, PartsRequestModel::Nothing),
        Key::Backspace => {
            if locked {
                (m, PartsRequestModel::Nothing)
            } else {
                (
                    PartsViewModel { text: with_field(m.text, f, backspaced(field_text(m.text, f))), ..m },
                    PartsRequestModel::Nothing,
                )
            }
        },
        Key::Enter => {
            let part = part_of_text(m.text);
            let done = PartsViewModel { sub_state: PartsSubState::Main, ..m };
            if part.part_number.len() == 0 {
                (done, PartsRequestModel::RefreshParts)
            } else if editing_existing {
                (done, PartsRequestModel::UpdatePart(modify_part_params(part)))
            } else {
                (done, PartsRequestModel::InsertPart(new_part_params(part)))
            }
        },
        _ => (m, PartsRequestModel::Nothing),
    }
}

/// The parts screen in its main mode, with nothing loaded or selected.
pub open spec fn initial_parts_view() -> PartsViewModel {
    PartsViewModel {
        sub_state: PartsSubState::Main,
        editing: CurrentlyEditingPart::PartNumber,
        text: empty_part_text(),
        part_data: Seq::empty(),
        part_storage_data: Seq::empty(),
        show_details: false,
        scroll_position: 0,
        scroll_length: 0,
        selected: None,
    }
}

impl PartsView {
    /// The screen in its main mode, with nothing loaded or selected.
    pub fn new() -> (r: PartsView)
        ensures
            r@ == initial_parts_view(),
    {
        let r = PartsView {
            parts_sub_state: PartsSubState::Main,
            currently_editing_part: CurrentlyEditingPart::PartNumber,
            part_text: PartText::new(),
            part_data: Vec::new(),
            part_storage_data: Vec::new(),
            show_details: false,
            part_scroll_info: PartScrollInfo { scroll_position: 0, scroll_length: 0 },
            part_table_selected: None,
        };
        assert(r.part_data@ =~= Seq::empty());
        assert(r.part_storage_data@ =~= Seq::empty());
        r
    }

    /// Replaces the parts table's rows.
    pub fn refresh_part_data(&mut self, part_data: Vec<Part>)
        ensures
            final(self)@ == (PartsViewModel { part_data: part_data@, ..old(self)@ }),
    {
        self.part_data = part_data;
    }

    /// Opens or closes the details panel.
    pub fn show_details(&mut self)
        ensures
            final(self)@ == (PartsViewModel { show_details: !old(self)@.show_details, ..old(self)@ }),
    {
        self.show_details = !self.show_details;
    }

    /// What to load to show the selected part.
    pub fn update_selected_part(&self) -> (r: PartsRequest)
        ensures
            r@ == load_selected(self@),
    {
        match self.part_table_selected {
            Some(selected) => {
                if selected < self.part_data.len() {
                    PartsRequest::LoadPart(self.part_data[selected].part_number.clone())
                } else {
                    PartsRequest::Nothing
                }
            },
            None => PartsRequest::Nothing,
        }
    }

    fn selected_part_number(&self) -> (r: Option<String>)
        ensures
            r matches Some(pn) ==> selected_pn(self@) == Some(pn@),
            r is None ==> selected_pn(self@) is None,
    {
        match self.part_table_selected {
            Some(selected) => {
                if selected < self.part_data.len() {
                    Some(self.part_data[selected].part_number.clone())
                } else {
                    None
                }
            },
            None => None,
        }
    }

    pub fn handle_main_keys(&mut self, key: Key) -> (r: PartsRequest)
        ensures
            (final(self)@, r@) == parts_main_step(old(self)@, key),
    {
        match key {
            Key::Char(c) => {
                if c == 'n' {
                    self.parts_sub_state = PartsSubState::NewPart;
                    self.part_text.clear();
                    self.currently_editing_part = CurrentlyEditingPart::PartNumber;
                } else if c == 'r' {
                    return PartsRequest::RefreshParts;
                } else if c == 'e' {
                    match self.selected_part_number() {
                        Some(pn) => {
                            self.part_text.clear();
                            self.parts_sub_state = PartsSubState::EditPart;
                            // the part number of an existing part is not edited
                            self.currently_editing_part = CurrentlyEditingPart::Manufacturer;
                            return PartsRequest::LoadPart(pn);
                        },
                        None => {},
                    }
                } else if c == 'd' {
                    match self.selected_part_number() {
                        Some(pn) => {
                            self.part_text.clear();
                            self.part_scroll_info.reset();
                            self.show_details();
                            return PartsRequest::LoadPartDetails(pn);
                        },
                        None => {},
                    }
                }
                PartsRequest::Nothing
            },
            Key::Down => {
                if !self.show_details {
                    exec_table_mvmt(ListMvmtDir::Greater, &mut self.part_table_selected, self.part_data.len());
                    self.update_selected_part()
                } else {
                    scroll_down(&mut self.part_scroll_info.scroll_position);
                    PartsRequest::Nothing
                }
            },
            Key::Up => {
                if !self.show_details {
                    exec_table_mvmt(ListMvmtDir::Less, &mut self.part_table_selected, self.part_data.len());
                    self.update_selected_part()
                } else {
                    scroll_up(&mut self.part_scroll_info.scroll_position);
                    PartsRequest::Nothing
                }
            },
            _ => PartsRequest::Nothing,
        }
    }

    fn next_field(&mut self)
        ensures
            final(self)@ == (PartsViewModel { editing: next_part_field(old(self)@.editing), ..old(self)@ }),
    {
        self.currently_editing_part = match self.currently_editing_part {
            CurrentlyEditingPart::PartNumber => CurrentlyEditingPart::Manufacturer,
            CurrentlyEditingPart::Manufacturer => CurrentlyEditingPart::Package,
            CurrentlyEditingPart::Package => CurrentlyEditingPart::Label,
            CurrentlyEditingPart::Label => CurrentlyEditingPart::Value,
            CurrentlyEditingPart::Value => CurrentlyEditingPart::Tolerance,
            CurrentlyEditingPart::Tolerance => CurrentlyEditingPart::Manufacturer,
        };
    }

    pub fn handle_new_part_keys(&mut self, key: Key) -> (r: PartsRequest)
        ensures
            (final(self)@, r@) == part_form_step(old(self)@, key, false),
    {
        match key {
            Key::Esc => {
                self.parts_sub_state = PartsSubState::Main;
                PartsRequest::RefreshParts
            },
            Key::Char(value) => {
                self.part_text.push_to(self.currently_editing_part, value);
                PartsRequest::Nothing
            },
            Key::Tab => {
                self.next_field();
                PartsRequest::Nothing
            },
            Key::Backspace => {
                self.part_text.pop_from(self.currently_editing_part);
                PartsRequest::Nothing
            },
            Key::Enter => {
                let mut new_part = Part::new();
                self.part_text.copy_to_db_part(&mut new_part);
                self.parts_sub_state = PartsSubState::Main;
                match add_new_part(&new_part) {
                    Some(params) => PartsRequest::InsertPart(params),
                    None => PartsRequest::RefreshParts,
                }
            },
            _ => PartsRequest::Nothing,
        }
    }

    pub fn handle_edit_part_keys(&mut self, key: Key) -> (r: PartsRequest)
        ensures
            (final(self)@, r@) == part_form_step(old(self)@, key, true),
    {
        match key {
            Key::Esc => {
                self.parts_sub_state = PartsSubState::Main;
                PartsRequest::RefreshParts
            },
            Key::Char(value) => {
                if self.currently_editing_part != CurrentlyEditingPart::PartNumber {
                    self.part_text.push_to(self.currently_editing_part, value);
                }
                PartsRequest::Nothing
            },
            Key::Tab => {
                self.next_field();
                PartsRequest::Nothing
            },
            Key::Backspace => {
                if self.currently_editing_part != CurrentlyEditingPart::PartNumber {
                    self.part_text.pop_from(self.currently_editing_part);
                }
                PartsRequest::Nothing
            },
            Key::Enter => {
                let mut part = Part::new();
                self.part_text.copy_to_db_part(&mut part);
                self.parts_sub_state = PartsSubState::Main;
                match modify_part(&part) {
                    Some(params) => PartsRequest::UpdatePart(params),
                    None => PartsRequest::RefreshParts,
                }
            },
            _ => PartsRequest::Nothing,
        }
    }
}

} // verus!
