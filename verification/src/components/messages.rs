//! The persistent message surface. It shows the latest user message
//! and clears precisely when a new query is executed or a new
//! connection is opened.

use vstd::prelude::*;

use crate::action::{Action, ActionV};
use crate::app_event::{AppEvent, AppEventV, MessageType};

verus! {

/// The message surface's state: at most one message at a time.
#[derive(Debug, PartialEq, Eq)]
pub struct Messages {
    pub message: Option<(MessageType, String)>,
}

/// The mathematical shape of [`Messages`].
pub struct MessagesV {
    pub message: Option<(MessageType, Seq<char>)>,
}

impl View for Messages {
    type V = MessagesV;

    open spec fn view(&self) -> MessagesV {
        MessagesV {
            message: match &self.message {
                Some((t, m)) => Some((*t, m@)),
                None => None,
            },
        }
    }
}

impl Messages {
    /// An empty message surface.
    pub fn new() -> (r: Messages)
        ensures
            r@.message is None,
    {
        Messages { message: None }
    }

    /// How an action changes the surface: executing a query or
    /// opening a connection clears it, nothing else touches it.
    pub open spec fn step(v: MessagesV, a: ActionV) -> MessagesV {
        match a {
            ActionV::ExecuteQuery(_) => MessagesV { message: None },
            ActionV::OpenConnection(_) => MessagesV { message: None },
            _ => v,
        }
    }

    /// Applies an action; emits nothing.
    pub fn update(&mut self, a: &Action) -> (r: Option<Action>)
        ensures
            final(self)@ == Messages::step(old(self)@, a@),
            r is None,
    {
        match a {
            Action::ExecuteQuery(_) => {
                self.message = None;
            },
            Action::OpenConnection(_) => {
                self.message = None;
            },
            _ => {},
        }
        None
    }

    /// How an event changes the surface: a user message replaces
    /// whatever was shown.
    pub open spec fn event_step(v: MessagesV, e: AppEventV) -> MessagesV {
        match e {
            AppEventV::UserMessage(t, m) => MessagesV { message: Some((t, m)) },
            _ => v,
        }
    }

    /// Applies an event; emits nothing.
    pub fn handle_app_event(&mut self, e: &AppEvent) -> (r: Option<Action>)
        ensures
            final(self)@ == Messages::event_step(old(self)@, e@),
            r is None,
    {
        if let AppEvent::UserMessage(t, m) = e {
            self.message = Some((*t, m.clone()));
        }
        None
    }
}

} // verus!
