//! A floating popup showing one value in detail, centred over the
//! active view.

use vstd::prelude::*;

use crate::action::{Action, ActionV};

verus! {

/// The popup's state: the value it shows, if any.
#[derive(Debug, PartialEq, Eq)]
pub struct DetailPopup {
    pub content: Option<String>,
}

/// The mathematical shape of [`DetailPopup`].
pub struct DetailPopupV {
    pub content: Option<Seq<char>>,
}

impl View for DetailPopup {
    type V = DetailPopupV;

    open spec fn view(&self) -> DetailPopupV {
        DetailPopupV { content: self.content.deep_view() }
    }
}

impl DetailPopup {
    /// A hidden popup.
    pub fn new() -> (r: DetailPopup)
        ensures
            r@.content is None,
    {
        DetailPopup { content: None }
    }

    /// How an action changes the popup: selecting a cell shows its
    /// value, clearing hides the popup.
    pub open spec fn step(v: DetailPopupV, a: ActionV) -> DetailPopupV {
        match a {
            ActionV::SelectCell(c) => DetailPopupV { content: Some(c) },
            ActionV::Clear => DetailPopupV { content: None },
            _ => v,
        }
    }

    /// Applies an action; emits nothing.
    pub fn update(&mut self, a: &Action) -> (r: Option<Action>)
        ensures
            final(self)@ == DetailPopup::step(old(self)@, a@),
            r is None,
    {
        match a {
            Action::SelectCell(c) => {
                self.content = Some(c.clone());
            },
            Action::Clear => {
                self.content = None;
            },
            _ => {},
        }
        None
    }
}

} // verus!
