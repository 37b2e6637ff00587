use vstd::prelude::*;

verus! {

/// Scroll state of a scrollable list or panel.
pub struct ScrollBarInfo {
    pub scroll_position: usize,
    pub scroll_length: u16,
}

impl ScrollBarInfo {
    pub fn new() -> (r: Self)
        ensures
            r.scroll_position == 0,
            r.scroll_length == 0,
    {
        Self { scroll_position: 0, scroll_length: 0 }
    }

    pub fn clear(&mut self)
        ensures
            final(self).scroll_position == 0,
            final(self).scroll_length == 0,
    {
        self.scroll_position = 0;
        self.scroll_length = 0;
    }
}

/// Direction of a one-step move through a list.
#[derive(Clone, Copy, Debug, PartialEq, Eq, Structural)]
pub enum ListMvmtDir {
    Greater,
    Less,
}

/// Selection after one guarded step through a list of `list_len` items:
/// a selected item moves by one while it stays inside the list, and an empty
/// selection lands on the first item of a non-empty list.
pub open spec fn list_step(direction: ListMvmtDir, selected: Option<usize>, list_len: nat) -> Option<usize> {
    match selected {
        Some(s) => match direction {
            ListMvmtDir::Greater => if s + 1 < list_len { Some((s + 1) as usize) } else { selected },
            ListMvmtDir::Less => if s > 0 && list_len > 0 { Some((s - 1) as usize) } else { selected },
        },
        None => if list_len > 0 { Some(0) } else { None },
    }
}

/// Selection after one step through a table of `len` rows: as `list_step`,
/// except that an empty selection always lands on the first row.
pub open spec fn table_step(direction: ListMvmtDir, selected: Option<usize>, len: nat) -> Option<usize> {
    match selected {
        Some(s) => match direction {
            ListMvmtDir::Greater => if s + 1 < len { Some((s + 1) as usize) } else { selected },
            ListMvmtDir::Less => if s > 0 { Some((s - 1) as usize) } else { selected },
        },
        None => Some(0),
    }
}

/// Moves the selection of a list one step, staying inside the list.
pub fn exec_list_mvmt(direction: ListMvmtDir, state: &mut Option<usize>, list_len: usize)
    ensures
        *final(state) == list_step(direction, *old(state), list_len as nat),
{
    match direction {
        ListMvmtDir::Greater => {
            match *state {
                Some(selected) => {
                    if selected < list_len && selected < list_len - 1 {
                        *state = Some(selected + 1);
                    }
                },
                None => {
                    if list_len > 0 {
                        *state = Some(0);
                    }
                },
            }
        },
        ListMvmtDir::Less => {
            match *state {
                Some(selected) => {
                    if selected > 0 && list_len > 0 {
                        *state = Some(selected - 1);
                    }
                },
                None => {
                    if list_len > 0 {
                        *state = Some(0);
                    }
                },
            }
        },
    }
}

/// Moves the selected row of a table one step; with no row selected the
/// first row is selected.
pub(crate) fn exec_table_mvmt(direction: ListMvmtDir, state: &mut Option<usize>, len: usize)
    ensures
        *final(state) == table_step(direction, *old(state), len as nat),
{
    match *state {
        Some(selected) => {
            match direction {
                ListMvmtDir::Greater => {
                    if selected < len && selected < len - 1 {
                        *state = Some(selected + 1);
                    }
                },
                ListMvmtDir::Less => {
                    if selected > 0 {
                        *state = Some(selected - 1);
                    }
                },
            }
        },
        None => {
            *state = Some(0);
        },
    }
}

/// Scroll position one line further down, held at the largest value.
pub open spec fn scrolled_down(p: usize) -> usize {
    if p < usize::MAX { (p + 1) as usize } else { p }
}

/// Scroll position one line further up, held at zero.
pub open spec fn scrolled_up(p: usize) -> usize {
    if p > 0 { (p - 1) as usize } else { p }
}

pub(crate) fn scroll_down(p: &mut usize)
    ensures
        *final(p) == scrolled_down(*old(p)),
{
    if *p < usize::MAX {
        *p = *p + 1;
    }
}

pub(crate) fn scroll_up(p: &mut usize)
    ensures
        *final(p) == scrolled_up(*old(p)),
{
    if *p > 0 {
        *p = *p - 1;
    }
}

} // verus!
