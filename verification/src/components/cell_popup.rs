//! A floating popup showing the full text of one selected cell.

use vstd::prelude::*;

use crate::action::{Action, ActionV};

verus! {

/// The popup's state: the cell text it shows, if any.
#[derive(Debug, PartialEq, Eq)]
pub struct CellPopup {
    pub content: Option<String>,
}

/// The mathematical shape of [`CellPopup`].
pub struct CellPopupV {
    pub content: Option<Seq<char>>,
}

impl View for CellPopup {
    type V = CellPopupV;

    open spec fn view(&self) -> CellPopupV {
        CellPopupV { content: self.content.deep_view() }
    }
}

impl CellPopup {
    /// A hidden popup.
    pub fn new() -> (r: CellPopup)
        ensures
            r@.content is None,
    {
        CellPopup { content: None }
    }

    /// How an action changes the popup: selecting a cell shows its
    /// text, clearing hides the popup.
    pub open spec fn step(v: CellPopupV, a: ActionV) -> CellPopupV {
        match a {
            ActionV::SelectCell(c) => CellPopupV { content: Some(c) },
            ActionV::Clear => CellPopupV { content: None },
            _ => v,
        }
    }

    /// Applies an action; emits nothing.
    pub fn update(&mut self, a: &Action) -> (r: Option<Action>)
        ensures
            final(self)@ == CellPopup::step(old(self)@, a@),
            r is None,
    {
        match a {
            Action::SelectCell(c) => {
                self.content = Some(c.clone());
            },
            Action::Clear => {
                self.content = None;
            },
            _ => {},
        }
        None
    }
}

} // verus!
