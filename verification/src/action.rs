//! User- and system-issued intents, and the exclusive UI modes they
//! steer between.

use vstd::prelude::*;

use crate::database::system_query::{QueryRequest, QueryRequestV};

verus! {

/// Exclusive UI state: exactly one mode is active at a time. It gates
/// which component holds input focus and which layout is drawn. The
/// initial mode is `ConnectionMenu`; there is no terminal mode — the
/// loop stops only through a `Quit` action.
#[derive(Clone, Copy, Debug, Hash, PartialEq, Eq, Structural)]
pub enum Mode {
    /// Choose a database connection.
    ConnectionMenu,
    /// Edit the text of an SQL query.
    EditQuery,
    /// Navigate the table of query results.
    ExploreResults,
    /// Navigate the list of tables.
    ExploreTables,
    /// Inspect the structure of one table.
    ExploreStructure,
    /// Navigate the list of schemas.
    ExploreSchemas,
}

impl Default for Mode {
    /// The mode the application starts in.
    fn default() -> (m: Mode)
        ensures
            m == Mode::ConnectionMenu,
    {
        Mode::ConnectionMenu
    }
}

/// An intent consumed by the orchestrator and broadcast to every
/// component. Actions come from key bindings, from components, or
/// from the loop itself; they are immutable once constructed.
#[derive(Clone, Debug, PartialEq, Eq)]
pub enum Action {
    Tick,
    Render,
    Resize(u16, u16),
    Suspend,
    Resume,
    Quit,
    ClearScreen,
    Error(String),
    Help,
    ChangeMode(Mode),
    MakeSelection,
    OpenConnection(String),
    ViewStructure,
    ChangeSchema(String),
    ExecuteQuery(QueryRequest),
    NavUp,
    NavDown,
    NavLeft,
    NavRight,
    Yank,
    Search,
    Clear,
    SelectCell(String),
}

/// The mathematical shape of an [`Action`]: the same tags, with every
/// string abstracted to its character sequence. Contracts and the
/// orchestrator model are stated over this type.
pub enum ActionV {
    Tick,
    Render,
    Resize(u16, u16),
    Suspend,
    Resume,
    Quit,
    ClearScreen,
    Error(Seq<char>),
    Help,
    ChangeMode(Mode),
    MakeSelection,
    OpenConnection(Seq<char>),
    ViewStructure,
    ChangeSchema(Seq<char>),
    ExecuteQuery(QueryRequestV),
    NavUp,
    NavDown,
    NavLeft,
    NavRight,
    Yank,
    Search,
    Clear,
    SelectCell(Seq<char>),
}

impl View for Action {
    type V = ActionV;

    open spec fn view(&self) -> ActionV {
        match self {
            Action::Tick => ActionV::Tick,
            Action::Render => ActionV::Render,
            Action::Resize(w, h) => ActionV::Resize(*w, *h),
            Action::Suspend => ActionV::Suspend,
            Action::Resume => ActionV::Resume,
            Action::Quit => ActionV::Quit,
            Action::ClearScreen => ActionV::ClearScreen,
            Action::Error(s) => ActionV::Error(s@),
            Action::Help => ActionV::Help,
            Action::ChangeMode(m) => ActionV::ChangeMode(*m),
            Action::MakeSelection => ActionV::MakeSelection,
            Action::OpenConnection(s) => ActionV::OpenConnection(s@),
            Action::ViewStructure => ActionV::ViewStructure,
            Action::ChangeSchema(s) => ActionV::ChangeSchema(s@),
            Action::ExecuteQuery(q) => ActionV::ExecuteQuery(q@),
            Action::NavUp => ActionV::NavUp,
            Action::NavDown => ActionV::NavDown,
            Action::NavLeft => ActionV::NavLeft,
            Action::NavRight => ActionV::NavRight,
            Action::Yank => ActionV::Yank,
            Action::Search => ActionV::Search,
            Action::Clear => ActionV::Clear,
            Action::SelectCell(s) => ActionV::SelectCell(s@),
        }
    }
}

impl DeepView for Action {
    type V = ActionV;

    open spec fn deep_view(&self) -> ActionV {
        self.view()
    }
}

impl Action {
    /// Copies the action field by field.
    pub fn duplicate(&self) -> (r: Action)
        ensures
            r@ == self@,
    {
        match self {
            Action::Tick => Action::Tick,
            Action::Render => Action::Render,
            Action::Resize(w, h) => Action::Resize(*w, *h),
            Action::Suspend => Action::Suspend,
            Action::Resume => Action::Resume,
            Action::Quit => Action::Quit,
            Action::ClearScreen => Action::ClearScreen,
            Action::Error(s) => Action::Error(s.clone()),
            Action::Help => Action::Help,
            Action::ChangeMode(m) => Action::ChangeMode(*m),
            Action::MakeSelection => Action::MakeSelection,
            Action::OpenConnection(s) => Action::OpenConnection(s.clone()),
            Action::ViewStructure => Action::ViewStructure,
            Action::ChangeSchema(s) => Action::ChangeSchema(s.clone()),
            Action::ExecuteQuery(q) => Action::ExecuteQuery(q.duplicate()),
            Action::NavUp => Action::NavUp,
            Action::NavDown => Action::NavDown,
            Action::NavLeft => Action::NavLeft,
            Action::NavRight => Action::NavRight,
            Action::Yank => Action::Yank,
            Action::Search => Action::Search,
            Action::Clear => Action::Clear,
            Action::SelectCell(s) => Action::SelectCell(s.clone()),
        }
    }
}

} // verus!
