//! The table describing one table's column structure, shown when the
//! user asks for a table's structure.

use vstd::prelude::*;

use crate::action::{Action, ActionV, Mode};
use crate::app_event::{AppEvent, AppEventV, QueryTag, QueryTagV};
use crate::text::{clone_rows, clone_string_vec};

verus! {

/// The structure view's state.
#[derive(Debug, PartialEq, Eq)]
pub struct StructureTable {
    pub columns: Vec<String>,
    pub rows: Vec<Vec<String>>,
    pub sel_row: usize,
    pub sel_col: usize,
    pub table_name: Option<String>,
    pub focused: bool,
}

/// The mathematical shape of [`StructureTable`].
pub struct StructureTableV {
    pub columns: Seq<Seq<char>>,
    pub rows: Seq<Seq<Seq<char>>>,
    pub sel_row: usize,
    pub sel_col: usize,
    pub table_name: Option<Seq<char>>,
    pub focused: bool,
}

impl View for StructureTable {
    type V = StructureTableV;

    open spec fn view(&self) -> StructureTableV {
        StructureTableV {
            columns: self.columns.deep_view(),
            rows: self.rows.deep_view(),
            sel_row: self.sel_row,
            sel_col: self.sel_col,
            table_name: self.table_name.deep_view(),
            focused: self.focused,
        }
    }
}

/// The cell the view would copy on a yank: the selected cell, when
/// one is under the selection.
pub open spec fn spec_yank_text(v: StructureTableV) -> Option<Seq<char>> {
    if v.sel_row < v.rows.len() && v.sel_col < v.rows[v.sel_row as int].len() {
        Some(v.rows[v.sel_row as int][v.sel_col as int])
    } else {
        None
    }
}

impl StructureTable {
    /// An empty structure view.
    pub fn new() -> (r: StructureTable)
        ensures
            r@.columns =~= Seq::<Seq<char>>::empty(),
            r@.rows =~= Seq::<Seq<Seq<char>>>::empty(),
            r@.sel_row == 0 && r@.sel_col == 0 && !r@.focused,
            r@.table_name is None,
    {
        StructureTable {
            columns: Vec::new(),
            rows: Vec::new(),
            sel_row: 0,
            sel_col: 0,
            table_name: None,
            focused: false,
        }
    }

    /// How an action moves the view: navigation is clamped to the
    /// data and needs focus; focus follows the mode.
    pub open spec fn step(v: StructureTableV, a: ActionV) -> StructureTableV {
        match a {
            ActionV::NavDown => if v.focused && v.sel_row + 1 < v.rows.len() {
                StructureTableV { sel_row: (v.sel_row + 1) as usize, ..v }
            } else {
                v
            },
            ActionV::NavUp => if v.focused && v.sel_row > 0 {
                StructureTableV { sel_row: (v.sel_row - 1) as usize, ..v }
            } else {
                v
            },
            ActionV::NavRight => if v.focused && v.sel_col + 1 < v.columns.len() {
                StructureTableV { sel_col: (v.sel_col + 1) as usize, ..v }
            } else {
                v
            },
            ActionV::NavLeft => if v.focused && v.sel_col > 0 {
                StructureTableV { sel_col: (v.sel_col - 1) as usize, ..v }
            } else {
                v
            },
            ActionV::ChangeMode(m) => StructureTableV {
                focused: m == Mode::ExploreStructure,
                ..v
            },
            _ => v,
        }
    }

    /// Applies an action; emits nothing.
    pub fn update(&mut self, a: &Action) -> (r: Option<Action>)
        ensures
            final(self)@ == StructureTable::step(old(self)@, a@),
            r is None,
    {
        match a {
            Action::NavDown => {
                if self.focused && self.rows.len() > 0 && self.sel_row < self.rows.len() - 1 {
                    self.sel_row = self.sel_row + 1;
                }
            },
            Action::NavUp => {
                if self.focused && self.sel_row > 0 {
                    self.sel_row = self.sel_row - 1;
                }
            },
            Action::NavRight => {
                if self.focused && self.columns.len() > 0 && self.sel_col < self.columns.len()
                    - 1 {
                    self.sel_col = self.sel_col + 1;
                }
            },
            Action::NavLeft => {
                if self.focused && self.sel_col > 0 {
                    self.sel_col = self.sel_col - 1;
                }
            },
            Action::ChangeMode(m) => {
                self.focused = matches!(m, Mode::ExploreStructure);
            },
            _ => {},
        }
        None
    }

    /// The text a yank would copy: the selected cell, if any.
    pub fn yank_text(&self) -> (r: Option<String>)
        ensures
            r.deep_view() == spec_yank_text(self@),
    {
        if self.sel_row < self.rows.len() {
            let row = &self.rows[self.sel_row];
            if self.sel_col < row.len() {
                return Some(row[self.sel_col].clone());
            }
        }
        None
    }

    /// How an event changes the view: a structure-tagged result
    /// replaces the data, remembers the table name, and resets the
    /// selection.
    pub open spec fn event_step(v: StructureTableV, e: AppEventV) -> StructureTableV {
        match e {
            AppEventV::QueryResult(res, QueryTagV::TableStructure(name)) => StructureTableV {
                columns: res.columns,
                rows: res.rows,
                sel_row: 0,
                sel_col: 0,
                table_name: Some(name),
                focused: v.focused,
            },
            _ => v,
        }
    }

    /// What an event makes the view say: fresh structure data pulls
    /// the mode over to the structure view.
    pub open spec fn event_emit(v: StructureTableV, e: AppEventV) -> Option<ActionV> {
        match e {
            AppEventV::QueryResult(res, QueryTagV::TableStructure(name)) => Some(
                ActionV::ChangeMode(Mode::ExploreStructure),
            ),
            _ => None,
        }
    }

    /// Applies an event and returns the follow-up action, if any.
    pub fn handle_app_event(&mut self, e: &AppEvent) -> (r: Option<Action>)
        ensures
            final(self)@ == StructureTable::event_step(old(self)@, e@),
            r.deep_view() == StructureTable::event_emit(old(self)@, e@),
    {
        if let AppEvent::QueryResult(res, QueryTag::TableStructure(name)) = e {
            self.columns = clone_string_vec(&res.columns);
            self.rows = clone_rows(&res.rows);
            self.sel_row = 0;
            self.sel_col = 0;
            self.table_name = Some(name.clone());
            Some(Action::ChangeMode(Mode::ExploreStructure))
        } else {
            None
        }
    }
}

} // verus!
