//! System-originated notifications: events that no key press produces
//! directly. Only the command dispatcher's background work and
//! components reacting to other events enqueue them.

use vstd::prelude::*;

use crate::database::connection::{ConnectionHandle, QueryResult, QueryResultV};

verus! {

/// How a user-facing message is to be presented.
#[derive(Clone, Copy, Debug, PartialEq, Eq, Structural)]
pub enum MessageType {
    Error,
    Info,
}

/// Classifies a query's origin so a component can pick out the
/// results meant for it; the tag travels with the request and comes
/// back with the result.
#[derive(Clone, Debug, PartialEq, Eq)]
pub enum QueryTag {
    /// Typed by the user; the result goes to the results view and is
    /// summarised on the message surface.
    User,
    /// The system's table listing.
    ListTables,
    /// A bounded preview of one table.
    InitialTable(String),
    /// The column structure of one table.
    TableStructure(String),
}

/// The mathematical shape of a [`QueryTag`].
pub enum QueryTagV {
    User,
    ListTables,
    InitialTable(Seq<char>),
    TableStructure(Seq<char>),
}

impl View for QueryTag {
    type V = QueryTagV;

    open spec fn view(&self) -> QueryTagV {
        match self {
            QueryTag::User => QueryTagV::User,
            QueryTag::ListTables => QueryTagV::ListTables,
            QueryTag::InitialTable(s) => QueryTagV::InitialTable(s@),
            QueryTag::TableStructure(s) => QueryTagV::TableStructure(s@),
        }
    }
}

impl QueryTag {
    /// Copies the tag field by field.
    pub fn duplicate(&self) -> (r: QueryTag)
        ensures
            r == *self,
    {
        match self {
            QueryTag::User => QueryTag::User,
            QueryTag::ListTables => QueryTag::ListTables,
            QueryTag::InitialTable(s) => QueryTag::InitialTable(s.clone()),
            QueryTag::TableStructure(s) => QueryTag::TableStructure(s.clone()),
        }
    }
}

/// A notification from the system: an established connection, a
/// finished query, or a message for the user.
#[derive(Clone, Debug, PartialEq, Eq)]
pub enum AppEvent {
    ConnectionEstablished(ConnectionHandle),
    QueryResult(QueryResult, QueryTag),
    UserMessage(MessageType, String),
}

/// The mathematical shape of an [`AppEvent`].
pub enum AppEventV {
    ConnectionEstablished(ConnectionHandle),
    QueryResult(QueryResultV, QueryTagV),
    UserMessage(MessageType, Seq<char>),
}

impl View for AppEvent {
    type V = AppEventV;

    open spec fn view(&self) -> AppEventV {
        match self {
            AppEvent::ConnectionEstablished(h) => AppEventV::ConnectionEstablished(*h),
            AppEvent::QueryResult(r, t) => AppEventV::QueryResult(r@, t@),
            AppEvent::UserMessage(t, m) => AppEventV::UserMessage(*t, m@),
        }
    }
}

impl DeepView for AppEvent {
    type V = AppEventV;

    open spec fn deep_view(&self) -> AppEventV {
        self.view()
    }
}

} // verus!
