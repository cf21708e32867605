//! The menu of configured connections shown at startup. Selecting an
//! entry asks the dispatcher to open that connection.

use vstd::prelude::*;

use crate::action::{Action, ActionV, Mode};
use crate::render_plan::{spec_focused_component, ComponentId};
use crate::text::clone_string_vec;

verus! {

/// The connection menu's state: the configured connection names, the
/// highlighted entry, and whether the menu holds focus.
#[derive(Debug, PartialEq, Eq)]
pub struct ConnectionMenu {
    pub items: Vec<String>,
    pub selected: usize,
    pub focused: bool,
}

/// The mathematical shape of [`ConnectionMenu`].
pub struct ConnectionMenuV {
    pub items: Seq<Seq<char>>,
    pub selected: usize,
    pub focused: bool,
}

impl View for ConnectionMenu {
    type V = ConnectionMenuV;

    open spec fn view(&self) -> ConnectionMenuV {
        ConnectionMenuV {
            items: self.items.deep_view(),
            selected: self.selected,
            focused: self.focused,
        }
    }
}

impl ConnectionMenu {
    /// A menu over the given connection names. It starts focused: the
    /// application opens in the connection-menu mode.
    pub fn new(items: Vec<String>) -> (r: ConnectionMenu)
        ensures
            r@.items == items.deep_view(),
            r@.selected == 0,
            r@.focused,
    {
        ConnectionMenu { items, selected: 0, focused: true }
    }

    /// The connection names the menu offers.
    pub fn items(&self) -> (r: Vec<String>)
        ensures
            r.deep_view() == self@.items,
    {
        clone_string_vec(&self.items)
    }

    /// How an action moves the menu: navigation is clamped to the
    /// list and needs focus; focus itself follows the mode.
    pub open spec fn step(v: ConnectionMenuV, a: ActionV) -> ConnectionMenuV {
        match a {
            ActionV::NavDown => if v.focused && v.selected + 1 < v.items.len() {
                ConnectionMenuV { selected: (v.selected + 1) as usize, ..v }
            } else {
                v
            },
            ActionV::NavUp => if v.focused && v.selected > 0 {
                ConnectionMenuV { selected: (v.selected - 1) as usize, ..v }
            } else {
                v
            },
            ActionV::ChangeMode(m) => ConnectionMenuV {
                focused: spec_focused_component(m) == ComponentId::ConnectionMenu,
                ..v
            },
            _ => v,
        }
    }

    /// What an action makes the menu say: selecting a highlighted
    /// entry asks for that connection to be opened.
    pub open spec fn emit(v: ConnectionMenuV, a: ActionV) -> Option<ActionV> {
        match a {
            ActionV::MakeSelection => if v.focused && v.selected < v.items.len() {
                Some(ActionV::OpenConnection(v.items[v.selected as int]))
            } else {
                None
            },
            _ => None,
        }
    }

    /// Applies an action and returns the follow-up action, if any.
    pub fn update(&mut self, a: &Action) -> (r: Option<Action>)
        ensures
            final(self)@ == ConnectionMenu::step(old(self)@, a@),
            r.deep_view() == ConnectionMenu::emit(old(self)@, a@),
    {
        match a {
            Action::NavDown => {
                if self.focused && self.items.len() > 0 && self.selected < self.items.len() - 1 {
                    self.selected = self.selected + 1;
                }
                None
            },
            Action::NavUp => {
                if self.focused && self.selected > 0 {
                    self.selected = self.selected - 1;
                }
                None
            },
            Action::ChangeMode(m) => {
                self.focused = matches!(m, Mode::ConnectionMenu);
                None
            },
            Action::MakeSelection => {
                if self.focused && self.selected < self.items.len() {
                    Some(Action::OpenConnection(self.items[self.selected].clone()))
                } else {
                    None
                }
            },
            _ => None,
        }
    }
}

} // verus!
