//! The sidebar list of tables. It is filled from the system's
//! table-listing query, can be scoped to one schema, and turns a
//! selection into the system queries that preview a table or
//! describe its structure.

use vstd::prelude::*;

use crate::action::{Action, ActionV, Mode};
use crate::app_event::{AppEvent, AppEventV, QueryTag, QueryTagV};
use crate::database::system_query::{
    query_error_text,
    query_for_spec,
    SystemQuery,
};

verus! {

/// The table list's state: (schema, table) pairs from the last
/// listing, the highlighted entry, an optional schema scope, and
/// whether the list holds focus.
#[derive(Debug, PartialEq, Eq)]
pub struct TableList {
    pub entries: Vec<(String, String)>,
    pub selected: usize,
    pub schema_filter: Option<String>,
    pub focused: bool,
}

/// The mathematical shape of [`TableList`].
pub struct TableListV {
    pub entries: Seq<(Seq<char>, Seq<char>)>,
    pub selected: usize,
    pub schema_filter: Option<Seq<char>>,
    pub focused: bool,
}

impl View for TableList {
    type V = TableListV;

    open spec fn view(&self) -> TableListV {
        TableListV {
            entries: self.entries.deep_view(),
            selected: self.selected,
            schema_filter: self.schema_filter.deep_view(),
            focused: self.focused,
        }
    }
}

/// The table names shown: every entry's table, or only those of the
/// scoped schema.
pub open spec fn visible_tables(
    entries: Seq<(Seq<char>, Seq<char>)>,
    filter: Option<Seq<char>>,
) -> Seq<Seq<char>>
    decreases entries.len(),
{
    if entries.len() == 0 {
        Seq::empty()
    } else {
        let rest = visible_tables(entries.drop_last(), filter);
        let last = entries.last();
        if match filter {
            Some(s) => last.0 == s,
            None => true,
        } {
            rest.push(last.1)
        } else {
            rest
        }
    }
}

/// The (schema, table) pair a listing row stands for: its first two
/// cells, with a placeholder where a cell is missing.
pub open spec fn entry_of_row(row: Seq<Seq<char>>) -> (Seq<char>, Seq<char>) {
    (
        if row.len() > 0 {
            row[0]
        } else {
            "unknown"@
        },
        if row.len() > 1 {
            row[1]
        } else {
            "unknown"@
        },
    )
}

/// The entries a listing result fills the list with, row by row.
pub open spec fn entries_of_rows(rows: Seq<Seq<Seq<char>>>) -> Seq<(Seq<char>, Seq<char>)> {
    Seq::new(rows.len(), |i: int| entry_of_row(rows[i]))
}

impl TableList {
    /// An empty, unscoped table list.
    pub fn new() -> (r: TableList)
        ensures
            r@.entries =~= Seq::<(Seq<char>, Seq<char>)>::empty(),
            r@.selected == 0,
            r@.schema_filter is None,
            !r@.focused,
    {
        TableList { entries: Vec::new(), selected: 0, schema_filter: None, focused: false }
    }

    /// The table names currently shown.
    pub fn items(&self) -> (r: Vec<String>)
        ensures
            r.deep_view() == visible_tables(self@.entries, self@.schema_filter),
    {
        let ghost entries = self@.entries;
        let ghost filter = self@.schema_filter;
        let mut r: Vec<String> = Vec::new();
        let mut i: usize = 0;
        while i < self.entries.len()
            invariant
                i <= self.entries.len(),
                entries == self@.entries,
                filter == self@.schema_filter,
                entries.len() == self.entries.len(),
                r.deep_view() == visible_tables(entries.take(i as int), filter),
            decreases self.entries.len() - i,
        {
            let keep = match &self.schema_filter {
                Some(s) => {
                    let eq = *s == self.entries[i].0;
                    proof {
                        assert(entries[i as int].0 == self.entries@[i as int].0@);
                    }
                    eq
                },
                None => true,
            };
            proof {
                let taken = entries.take(i + 1);
                assert(taken.drop_last() =~= entries.take(i as int));
                assert(taken.last() == entries[i as int]);
            }
            if keep {
                let ghost d_prev = r.deep_view();
                r.push(self.entries[i].1.clone());
                proof {
                    assert(r.deep_view() =~= d_prev.push(entries[i as int].1));
                }
            }
            i = i + 1;
        }
        proof {
            assert(entries.take(entries.len() as int) =~= entries);
        }
        r
    }

    /// How an action moves the list: navigation is clamped to the
    /// visible names and needs focus; a schema change scopes the list
    /// and resets the highlight; focus follows the mode.
    pub open spec fn step(v: TableListV, a: ActionV) -> TableListV {
        match a {
            ActionV::NavDown => if v.focused && v.selected + 1 < visible_tables(
                v.entries,
                v.schema_filter,
            ).len() {
                TableListV { selected: (v.selected + 1) as usize, ..v }
            } else {
                v
            },
            ActionV::NavUp => if v.focused && v.selected > 0 {
                TableListV { selected: (v.selected - 1) as usize, ..v }
            } else {
                v
            },
            ActionV::ChangeSchema(s) => TableListV { schema_filter: Some(s), selected: 0, ..v },
            ActionV::ChangeMode(m) => TableListV { focused: m == Mode::ExploreTables, ..v },
            _ => v,
        }
    }

    /// What an action makes the list say: selecting a table asks for
    /// its bounded preview, viewing asks for its structure; a name
    /// that fails validation surfaces the error instead.
    pub open spec fn emit(v: TableListV, a: ActionV) -> Option<ActionV> {
        let names = visible_tables(v.entries, v.schema_filter);
        match a {
            ActionV::MakeSelection => if v.focused && v.selected < names.len() {
                match query_for_spec(QueryTagV::InitialTable(names[v.selected as int])) {
                    Ok(q) => Some(ActionV::ExecuteQuery(q)),
                    Err(e) => Some(ActionV::Error(query_error_text(e))),
                }
            } else {
                None
            },
            ActionV::ViewStructure => if v.focused && v.selected < names.len() {
                match query_for_spec(QueryTagV::TableStructure(names[v.selected as int])) {
                    Ok(q) => Some(ActionV::ExecuteQuery(q)),
                    Err(e) => Some(ActionV::Error(query_error_text(e))),
                }
            } else {
                None
            },
            _ => None,
        }
    }

    /// Applies an action and returns the follow-up action, if any.
    pub fn update(&mut self, a: &Action) -> (r: Option<Action>)
        ensures
            final(self)@ == TableList::step(old(self)@, a@),
            r.deep_view() == TableList::emit(old(self)@, a@),
    {
        match a {
            Action::NavDown => {
                let names = self.items();
                if self.focused && names.len() > 0 && self.selected < names.len() - 1 {
                    self.selected = self.selected + 1;
                }
                None
            },
            Action::NavUp => {
                if self.focused && self.selected > 0 {
                    self.selected = self.selected - 1;
                }
                None
            },
            Action::ChangeSchema(s) => {
                self.schema_filter = Some(s.clone());
                self.selected = 0;
                None
            },
            Action::ChangeMode(m) => {
                self.focused = matches!(m, Mode::ExploreTables);
                None
            },
            Action::MakeSelection => {
                if !self.focused {
                    return None;
                }
                let names = self.items();
                if self.selected < names.len() {
                    let name = names[self.selected].clone();
                    match SystemQuery::query_for(QueryTag::InitialTable(name)) {
                        Ok(q) => Some(Action::ExecuteQuery(q)),
                        Err(e) => Some(Action::Error(e.message())),
                    }
                } else {
                    None
                }
            },
            Action::ViewStructure => {
                if !self.focused {
                    return None;
                }
                let names = self.items();
                if self.selected < names.len() {
                    let name = names[self.selected].clone();
                    match SystemQuery::query_for(QueryTag::TableStructure(name)) {
                        Ok(q) => Some(Action::ExecuteQuery(q)),
                        Err(e) => Some(Action::Error(e.message())),
                    }
                } else {
                    None
                }
            },
            _ => None,
        }
    }

    /// How an event changes the list: a listing result replaces the
    /// entries and resets the highlight.
    pub open spec fn event_step(v: TableListV, e: AppEventV) -> TableListV {
        match e {
            AppEventV::QueryResult(res, QueryTagV::ListTables) => TableListV {
                entries: entries_of_rows(res.rows),
                selected: 0,
                ..v
            },
            _ => v,
        }
    }

    /// What an event makes the list say: an established connection
    /// always triggers the system's table listing, focused or not.
    pub open spec fn event_emit(v: TableListV, e: AppEventV) -> Option<ActionV> {
        match e {
            AppEventV::ConnectionEstablished(_) => match query_for_spec(QueryTagV::ListTables) {
                Ok(q) => Some(ActionV::ExecuteQuery(q)),
                Err(_) => None,
            },
            _ => None,
        }
    }

    /// Applies an event and returns the follow-up action, if any.
    pub fn handle_app_event(&mut self, e: &AppEvent) -> (r: Option<Action>)
        ensures
            final(self)@ == TableList::event_step(old(self)@, e@),
            r.deep_view() == TableList::event_emit(old(self)@, e@),
    {
        match e {
            AppEvent::ConnectionEstablished(_) => {
                match SystemQuery::query_for(QueryTag::ListTables) {
                    Ok(q) => Some(Action::ExecuteQuery(q)),
                    Err(_) => None,
                }
            },
            AppEvent::QueryResult(res, QueryTag::ListTables) => {
                let ghost rows = res@.rows;
                let mut entries: Vec<(String, String)> = Vec::new();
                let mut i: usize = 0;
                while i < res.rows.len()
                    invariant
                        i <= res.rows.len(),
                        rows == res@.rows,
                        rows.len() == res.rows.len(),
                        entries.deep_view() =~= entries_of_rows(rows.take(i as int)),
                    decreases res.rows.len() - i,
                {
                    let row = &res.rows[i];
                    let schema = if row.len() > 0 {
                        row[0].clone()
                    } else {
                        "unknown".to_owned()
                    };
                    let table = if row.len() > 1 {
                        row[1].clone()
                    } else {
                        "unknown".to_owned()
                    };
                    proof {
                        assert(rows[i as int] == res.rows@[i as int].deep_view());
                        assert((schema@, table@) == entry_of_row(rows[i as int]));
                    }
                    let ghost d_prev = entries.deep_view();
                    entries.push((schema, table));
                    proof {
                        assert(entries.deep_view() =~= d_prev.push((schema@, table@)));
                        assert(entries.deep_view() =~= entries_of_rows(rows.take(i + 1)));
                    }
                    i = i + 1;
                }
                proof {
                    assert(rows.take(rows.len() as int) =~= rows);
                    assert(entries.deep_view() =~= entries_of_rows(rows));
                }
                self.entries = entries;
                self.selected = 0;
                None
            },
            _ => None,
        }
    }
}

} // verus!
