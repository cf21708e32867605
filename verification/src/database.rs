//! The values the database layer exchanges with the core: result
//! sets, connection parameters, and the system-query builder. The
//! wire protocol itself is an outside collaborator.

pub mod connection;
pub mod system_query;

pub use connection::QueryResult;
pub use connection::QueryResultV;
