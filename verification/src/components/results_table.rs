//! The table of user-query results: column headers, formatted rows,
//! and a selected cell the user can navigate.

use vstd::prelude::*;

use crate::action::{Action, ActionV, Mode};
use crate::app_event::{AppEvent, AppEventV, QueryTag, QueryTagV};
use crate::text::{clone_rows, clone_string_vec};

verus! {

/// The results view's state.
#[derive(Debug, PartialEq, Eq)]
pub struct ResultsTable {
    pub columns: Vec<String>,
    pub rows: Vec<Vec<String>>,
    pub sel_row: usize,
    pub sel_col: usize,
    pub focused: bool,
}

/// The mathematical shape of [`ResultsTable`].
pub struct ResultsTableV {
    pub columns: Seq<Seq<char>>,
    pub rows: Seq<Seq<Seq<char>>>,
    pub sel_row: usize,
    pub sel_col: usize,
    pub focused: bool,
}

impl View for ResultsTable {
    type V = ResultsTableV;

    open spec fn view(&self) -> ResultsTableV {
        ResultsTableV {
            columns: self.columns.deep_view(),
            rows: self.rows.deep_view(),
            sel_row: self.sel_row,
            sel_col: self.sel_col,
            focused: self.focused,
        }
    }
}

impl ResultsTable {
    /// An empty results view.
    pub fn new() -> (r: ResultsTable)
        ensures
            r@.columns =~= Seq::<Seq<char>>::empty(),
            r@.rows =~= Seq::<Seq<Seq<char>>>::empty(),
            r@.sel_row == 0 && r@.sel_col == 0 && !r@.focused,
    {
        ResultsTable {
            columns: Vec::new(),
            rows: Vec::new(),
            sel_row: 0,
            sel_col: 0,
            focused: false,
        }
    }

    /// How an action moves the view: navigation is clamped to the
    /// data and needs focus; focus follows the mode.
    pub open spec fn step(v: ResultsTableV, a: ActionV) -> ResultsTableV {
        match a {
            ActionV::NavDown => if v.focused && v.sel_row + 1 < v.rows.len() {
                ResultsTableV { sel_row: (v.sel_row + 1) as usize, ..v }
            } else {
                v
            },
            ActionV::NavUp => if v.focused && v.sel_row > 0 {
                ResultsTableV { sel_row: (v.sel_row - 1) as usize, ..v }
            } else {
                v
            },
            ActionV::NavRight => if v.focused && v.sel_col + 1 < v.columns.len() {
                ResultsTableV { sel_col: (v.sel_col + 1) as usize, ..v }
            } else {
                v
            },
            ActionV::NavLeft => if v.focused && v.sel_col > 0 {
                ResultsTableV { sel_col: (v.sel_col - 1) as usize, ..v }
            } else {
                v
            },
            ActionV::ChangeMode(m) => ResultsTableV { focused: m == Mode::ExploreResults, ..v },
            _ => v,
        }
    }

    /// What an action makes the view say: selecting opens the current
    /// cell in the popup.
    pub open spec fn emit(v: ResultsTableV, a: ActionV) -> Option<ActionV> {
        match a {
            ActionV::MakeSelection => if v.focused && v.sel_row < v.rows.len() && v.sel_col
                < v.rows[v.sel_row as int].len() {
                Some(ActionV::SelectCell(v.rows[v.sel_row as int][v.sel_col as int]))
            } else {
                None
            },
            _ => None,
        }
    }

    /// Applies an action and returns the follow-up action, if any.
    pub fn update(&mut self, a: &Action) -> (r: Option<Action>)
        ensures
            final(self)@ == ResultsTable::step(old(self)@, a@),
            r.deep_view() == ResultsTable::emit(old(self)@, a@),
    {
        match a {
            Action::NavDown => {
                if self.focused && self.rows.len() > 0 && self.sel_row < self.rows.len() - 1 {
                    self.sel_row = self.sel_row + 1;
                }
                None
            },
            Action::NavUp => {
                if self.focused && self.sel_row > 0 {
                    self.sel_row = self.sel_row - 1;
                }
                None
            },
            Action::NavRight => {
                if self.focused && self.columns.len() > 0 && self.sel_col < self.columns.len()
                    - 1 {
                    self.sel_col = self.sel_col + 1;
                }
                None
            },
            Action::NavLeft => {
                if self.focused && self.sel_col > 0 {
                    self.sel_col = self.sel_col - 1;
                }
                None
            },
            Action::ChangeMode(m) => {
                self.focused = matches!(m, Mode::ExploreResults);
                None
            },
            Action::MakeSelection => {
                if self.focused && self.sel_row < self.rows.len() {
                    let row = &self.rows[self.sel_row];
                    if self.sel_col < row.len() {
                        Some(Action::SelectCell(row[self.sel_col].clone()))
                    } else {
                        None
                    }
                } else {
                    None
                }
            },
            _ => None,
        }
    }

    /// How an event changes the view: a user-tagged result replaces
    /// the data and resets the selection.
    pub open spec fn event_step(v: ResultsTableV, e: AppEventV) -> ResultsTableV {
        match e {
            AppEventV::QueryResult(res, QueryTagV::User) => ResultsTableV {
                columns: res.columns,
                rows: res.rows,
                sel_row: 0,
                sel_col: 0,
                focused: v.focused,
            },
            _ => v,
        }
    }

    /// Applies an event; emits nothing.
    pub fn handle_app_event(&mut self, e: &AppEvent) -> (r: Option<Action>)
        ensures
            final(self)@ == ResultsTable::event_step(old(self)@, e@),
            r is None,
    {
        if let AppEvent::QueryResult(res, QueryTag::User) = e {
            self.columns = clone_string_vec(&res.columns);
            self.rows = clone_rows(&res.rows);
            self.sel_row = 0;
            self.sel_col = 0;
        }
        None
    }
}

} // verus!
