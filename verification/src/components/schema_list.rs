//! The sidebar list of schemas, with an incremental search box. It
//! is filled from the system's table listing (one entry per distinct
//! schema) and turns a selection into a schema change.

use vstd::prelude::*;

use crate::action::{Action, ActionV, Mode};
use crate::app_event::{AppEvent, AppEventV, QueryTag, QueryTagV};
use crate::keys::{KeyCode, KeyPress};
use crate::text::{contains_sub, is_substring, pop_char, push_char};

verus! {

/// Where input goes while the schema list is active.
#[derive(Clone, Copy, Debug, PartialEq, Eq, Structural)]
pub enum SchemaFocus {
    /// The schema list is not the active component.
    Inactive,
    /// Keys navigate the list.
    List,
    /// Keys type into the search box.
    Search,
}

/// The schema list's state: the distinct schema names, the
/// highlighted entry, the focus target, and the search text.
#[derive(Debug, PartialEq, Eq)]
pub struct SchemaList {
    pub items: Vec<String>,
    pub selected: usize,
    pub focus: SchemaFocus,
    pub search: String,
}

/// The mathematical shape of [`SchemaList`].
pub struct SchemaListV {
    pub items: Seq<Seq<char>>,
    pub selected: usize,
    pub focus: SchemaFocus,
    pub search: Seq<char>,
}

impl View for SchemaList {
    type V = SchemaListV;

    open spec fn view(&self) -> SchemaListV {
        SchemaListV {
            items: self.items.deep_view(),
            selected: self.selected,
            focus: self.focus,
            search: self.search@,
        }
    }
}

/// The schema names shown: all of them, or, with a search, those the
/// search text occurs in.
pub open spec fn visible_schemas(items: Seq<Seq<char>>, search: Seq<char>) -> Seq<Seq<char>>
    decreases items.len(),
{
    if items.len() == 0 {
        Seq::empty()
    } else {
        let rest = visible_schemas(items.drop_last(), search);
        if search.len() == 0 || is_substring(search, items.last()) {
            rest.push(items.last())
        } else {
            rest
        }
    }
}

/// The distinct schema names of a listing result, one per first cell,
/// in order of first appearance.
pub open spec fn schemas_of_rows(rows: Seq<Seq<Seq<char>>>) -> Seq<Seq<char>>
    decreases rows.len(),
{
    if rows.len() == 0 {
        Seq::empty()
    } else {
        let rest = schemas_of_rows(rows.drop_last());
        let name = if rows.last().len() > 0 {
            rows.last()[0]
        } else {
            "unknown"@
        };
        if rest.contains(name) {
            rest
        } else {
            rest.push(name)
        }
    }
}

impl SchemaList {
    /// An empty schema list with no search.
    pub fn new() -> (r: SchemaList)
        ensures
            r@.items =~= Seq::<Seq<char>>::empty(),
            r@.selected == 0,
            r@.focus == SchemaFocus::Inactive,
            r@.search =~= Seq::<char>::empty(),
    {
        SchemaList {
            items: Vec::new(),
            selected: 0,
            focus: SchemaFocus::Inactive,
            search: String::new(),
        }
    }

    /// The schema names currently shown.
    pub fn display_items(&self) -> (r: Vec<String>)
        ensures
            r.deep_view() == visible_schemas(self@.items, self@.search),
    {
        let ghost items = self@.items;
        let ghost search = self@.search;
        let no_search = self.search.as_str().unicode_len() == 0;
        let mut r: Vec<String> = Vec::new();
        let mut i: usize = 0;
        while i < self.items.len()
            invariant
                i <= self.items.len(),
                items == self@.items,
                search == self@.search,
                items.len() == self.items.len(),
                no_search == (search.len() == 0),
                r.deep_view() == visible_schemas(items.take(i as int), search),
            decreases self.items.len() - i,
        {
            let keep = no_search || contains_sub(&self.items[i], &self.search);
            proof {
                assert(items[i as int] == self.items@[i as int]@);
                let taken = items.take(i + 1);
                assert(taken.drop_last() =~= items.take(i as int));
                assert(taken.last() == items[i as int]);
            }
            if keep {
                let ghost d_prev = r.deep_view();
                r.push(self.items[i].clone());
                proof {
                    assert(r.deep_view() =~= d_prev.push(items[i as int]));
                }
            }
            i = i + 1;
        }
        proof {
            assert(items.take(items.len() as int) =~= items);
        }
        r
    }

    /// How an action moves the list: focus follows the mode; enter
    /// leaves the search box; navigation is clamped to the visible
    /// names; search opens the search box; clear empties it.
    pub open spec fn step(v: SchemaListV, a: ActionV) -> SchemaListV {
        match a {
            ActionV::ChangeMode(m) => SchemaListV {
                focus: if m == Mode::ExploreSchemas {
                    SchemaFocus::List
                } else {
                    SchemaFocus::Inactive
                },
                ..v
            },
            ActionV::MakeSelection => if v.focus == SchemaFocus::Search {
                SchemaListV { focus: SchemaFocus::List, ..v }
            } else {
                v
            },
            ActionV::NavDown => if v.focus == SchemaFocus::List && v.selected + 1
                < visible_schemas(v.items, v.search).len() {
                SchemaListV { selected: (v.selected + 1) as usize, ..v }
            } else {
                v
            },
            ActionV::NavUp => if v.focus == SchemaFocus::List && v.selected > 0 {
                SchemaListV { selected: (v.selected - 1) as usize, ..v }
            } else {
                v
            },
            ActionV::Search => if v.focus == SchemaFocus::List {
                SchemaListV { focus: SchemaFocus::Search, ..v }
            } else {
                v
            },
            ActionV::Clear => if v.focus != SchemaFocus::Inactive {
                SchemaListV { search: Seq::empty(), focus: SchemaFocus::List, ..v }
            } else {
                v
            },
            _ => v,
        }
    }

    /// What an action makes the list say: selecting a visible schema
    /// changes the schema scope.
    pub open spec fn emit(v: SchemaListV, a: ActionV) -> Option<ActionV> {
        let names = visible_schemas(v.items, v.search);
        match a {
            ActionV::MakeSelection => if v.focus == SchemaFocus::List && v.selected
                < names.len() {
                Some(ActionV::ChangeSchema(names[v.selected as int]))
            } else {
                None
            },
            _ => None,
        }
    }

    /// The text a yank would copy: the highlighted schema, if any.
    pub fn yank_text(&self) -> (r: Option<String>)
        ensures
            r.deep_view() == spec_schema_yank_text(self@),
    {
        let names = self.display_items();
        if self.selected < names.len() {
            let ghost visible = visible_schemas(self@.items, self@.search);
            let name = names[self.selected].clone();
            proof {
                assert(name@ == visible[self.selected as int]);
            }
            Some(name)
        } else {
            None
        }
    }

    /// Applies an action and returns the follow-up action, if any.
    pub fn update(&mut self, a: &Action) -> (r: Option<Action>)
        ensures
            final(self)@ == SchemaList::step(old(self)@, a@),
            r.deep_view() == SchemaList::emit(old(self)@, a@),
    {
        match a {
            Action::ChangeMode(m) => {
                self.focus = if matches!(m, Mode::ExploreSchemas) {
                    SchemaFocus::List
                } else {
                    SchemaFocus::Inactive
                };
                None
            },
            Action::MakeSelection => {
                match self.focus {
                    SchemaFocus::Search => {
                        self.focus = SchemaFocus::List;
                        None
                    },
                    SchemaFocus::List => {
                        let names = self.display_items();
                        if self.selected < names.len() {
                            let name = names[self.selected].clone();
                            Some(Action::ChangeSchema(name))
                        } else {
                            None
                        }
                    },
                    SchemaFocus::Inactive => None,
                }
            },
            Action::NavDown => {
                let names = self.display_items();
                if matches!(self.focus, SchemaFocus::List) && names.len() > 0 && self.selected
                    < names.len() - 1 {
                    self.selected = self.selected + 1;
                }
                None
            },
            Action::NavUp => {
                if matches!(self.focus, SchemaFocus::List) && self.selected > 0 {
                    self.selected = self.selected - 1;
                }
                None
            },
            Action::Search => {
                if matches!(self.focus, SchemaFocus::List) {
                    self.focus = SchemaFocus::Search;
                }
                None
            },
            Action::Clear => {
                if !matches!(self.focus, SchemaFocus::Inactive) {
                    self.search = String::new();
                    self.focus = SchemaFocus::List;
                }
                None
            },
            _ => None,
        }
    }

    /// How a key press types into the search box: characters append,
    /// backspace deletes, enter is left to the action path; typing
    /// rewinds the highlight to the top.
    pub open spec fn key_step(v: SchemaListV, k: KeyPress) -> SchemaListV {
        if v.focus != SchemaFocus::Search {
            v
        } else {
            match k.code {
                KeyCode::Char(c) => if !k.ctrl && !k.alt {
                    SchemaListV { search: v.search.push(c), selected: 0, ..v }
                } else {
                    v
                },
                KeyCode::Backspace => if v.search.len() > 0 {
                    SchemaListV { search: v.search.drop_last(), selected: 0, ..v }
                } else {
                    SchemaListV { selected: 0, ..v }
                },
                _ => v,
            }
        }
    }

    /// Applies a key press; emits nothing.
    pub fn handle_key_event(&mut self, k: &KeyPress) -> (r: Option<Action>)
        ensures
            final(self)@ == SchemaList::key_step(old(self)@, *k),
            r is None,
    {
        if !matches!(self.focus, SchemaFocus::Search) {
            return None;
        }
        match k.code {
            KeyCode::Char(c) => {
                if !k.ctrl && !k.alt {
                    push_char(&mut self.search, c);
                    self.selected = 0;
                }
            },
            KeyCode::Backspace => {
                pop_char(&mut self.search);
                self.selected = 0;
            },
            _ => {},
        }
        None
    }

    /// How an event changes the list: a listing result replaces the
    /// schema names with the distinct first cells and resets the
    /// highlight.
    pub open spec fn event_step(v: SchemaListV, e: AppEventV) -> SchemaListV {
        match e {
            AppEventV::QueryResult(res, QueryTagV::ListTables) => SchemaListV {
                items: schemas_of_rows(res.rows),
                selected: 0,
                ..v
            },
            _ => v,
        }
    }

    /// Applies an event; emits nothing.
    pub fn handle_app_event(&mut self, e: &AppEvent) -> (r: Option<Action>)
        ensures
            final(self)@ == SchemaList::event_step(old(self)@, e@),
            r is None,
    {
        if let AppEvent::QueryResult(res, QueryTag::ListTables) = e {
            let ghost rows = res@.rows;
            let mut items: Vec<String> = Vec::new();
            let mut i: usize = 0;
            while i < res.rows.len()
                invariant
                    i <= res.rows.len(),
                    rows == res@.rows,
                    rows.len() == res.rows.len(),
                    items.deep_view() =~= schemas_of_rows(rows.take(i as int)),
                decreases res.rows.len() - i,
            {
                let row = &res.rows[i];
                let name = if row.len() > 0 {
                    row[0].clone()
                } else {
                    "unknown".to_owned()
                };
                proof {
                    assert(rows[i as int] == res.rows@[i as int].deep_view());
                    let taken = rows.take(i + 1);
                    assert(taken.drop_last() =~= rows.take(i as int));
                    assert(taken.last() == rows[i as int]);
                }
                let dup = Self::contains_name(&items, &name);
                proof {
                    assert(name@ == (if rows[i as int].len() > 0 {
                        rows[i as int][0]
                    } else {
                        "unknown"@
                    }));
                }
                if !dup {
                    let ghost d_prev = items.deep_view();
                    items.push(name);
                    proof {
                        assert(items.deep_view() =~= d_prev.push(name@));
                        assert(items.deep_view() =~= schemas_of_rows(rows.take(i + 1)));
                    }
                } else {
                    proof {
                        assert(items.deep_view() =~= schemas_of_rows(rows.take(i + 1)));
                    }
                }
                i = i + 1;
            }
            proof {
                assert(rows.take(rows.len() as int) =~= rows);
                assert(items.deep_view() =~= schemas_of_rows(rows));
            }
            self.items = items;
            self.selected = 0;
        }
        None
    }

    /// Whether a name already stands in the list.
    fn contains_name(items: &Vec<String>, name: &String) -> (r: bool)
        ensures
            r == items.deep_view().contains(name@),
    {
        let mut i: usize = 0;
        while i < items.len()
            invariant
                i <= items.len(),
                forall|j: int| 0 <= j < i ==> items.deep_view()[j] != name@,
            decreases items.len() - i,
        {
            if items[i] == *name {
                assert(items.deep_view()[i as int] == name@);
                return true;
            }
            i = i + 1;
        }
        assert(forall|j: int| 0 <= j < items.deep_view().len() ==> items.deep_view()[j] != name@);
        false
    }
}

/// The schema a yank would copy: the highlighted visible name.
pub open spec fn spec_schema_yank_text(v: SchemaListV) -> Option<Seq<char>> {
    let names = visible_schemas(v.items, v.search);
    if v.selected < names.len() {
        Some(names[v.selected as int])
    } else {
        None
    }
}

} // verus!
