//! Connection parameters, the capability token for an established
//! connection, and the shape of a query result.

use vstd::prelude::*;

use crate::text::{dec_str, usize_to_string};

verus! {

/// Parameters for one database connection, as resolved by the
/// connection directory. Every field is optional; absent fields are
/// left out of the connection string.
#[derive(Clone, Debug, PartialEq, Eq)]
pub struct ConnectionConfig {
    pub host: Option<String>,
    pub port: Option<u16>,
    pub user: Option<String>,
    pub password: Option<String>,
    pub database_name: Option<String>,
}

/// The mathematical shape of a [`ConnectionConfig`].
pub struct ConnectionConfigV {
    pub host: Option<Seq<char>>,
    pub port: Option<u16>,
    pub user: Option<Seq<char>>,
    pub password: Option<Seq<char>>,
    pub database_name: Option<Seq<char>>,
}

impl View for ConnectionConfig {
    type V = ConnectionConfigV;

    open spec fn view(&self) -> ConnectionConfigV {
        ConnectionConfigV {
            host: self.host.deep_view(),
            port: self.port,
            user: self.user.deep_view(),
            password: self.password.deep_view(),
            database_name: self.database_name.deep_view(),
        }
    }
}

impl DeepView for ConnectionConfig {
    type V = ConnectionConfigV;

    open spec fn deep_view(&self) -> ConnectionConfigV {
        self.view()
    }
}

/// Joins connection-string parts with single spaces, skipping nothing:
/// the first part stands alone, later parts are preceded by a space.
pub open spec fn conn_part(acc: Seq<char>, part: Seq<char>) -> Seq<char> {
    if acc.len() == 0 {
        part
    } else {
        acc + " "@ + part
    }
}

/// Folds one optional field into the connection string.
pub open spec fn conn_opt(acc: Seq<char>, prefix: Seq<char>, value: Option<Seq<char>>) -> Seq<
    char,
> {
    match value {
        Some(v) => conn_part(acc, prefix + v),
        None => acc,
    }
}

/// The libpq-style key/value connection string for a configuration:
/// the present fields among host, port, user, password and dbname, in
/// that order, separated by single spaces.
pub open spec fn conn_str(c: ConnectionConfigV) -> Seq<char> {
    let s1 = conn_opt(Seq::empty(), "host="@, c.host);
    let s2 = conn_opt(
        s1,
        "port="@,
        match c.port {
            Some(p) => Some(dec_str(p as nat)),
            None => None,
        },
    );
    let s3 = conn_opt(s2, "user="@, c.user);
    let s4 = conn_opt(s3, "password="@, c.password);
    conn_opt(s4, "dbname="@, c.database_name)
}

/// Appends one `prefix=value` part to the string being built,
/// inserting a separating space when parts already stand there.
fn push_part(acc: &mut String, prefix: &str, value: &str)
    ensures
        final(acc)@ == conn_part(old(acc)@, prefix@ + value@),
{
    if acc.as_str().unicode_len() > 0 {
        acc.append(" ");
    }
    acc.append(prefix);
    acc.append(value);
}

impl ConnectionConfig {
    /// Builds the key/value connection string that the database driver
    /// is handed when this configuration is opened.
    pub fn connection_string(&self) -> (r: String)
        ensures
            r@ == conn_str(self@),
    {
        let mut r = String::new();
        if let Some(host) = &self.host {
            push_part(&mut r, "host=", host.as_str());
        }
        if let Some(port) = &self.port {
            let p = usize_to_string(*port as usize);
            push_part(&mut r, "port=", p.as_str());
        }
        if let Some(user) = &self.user {
            push_part(&mut r, "user=", user.as_str());
        }
        if let Some(password) = &self.password {
            push_part(&mut r, "password=", password.as_str());
        }
        if let Some(db_name) = &self.database_name {
            push_part(&mut r, "dbname=", db_name.as_str());
        }
        r
    }

    /// Copies the configuration field by field.
    pub fn duplicate(&self) -> (r: ConnectionConfig)
        ensures
            r == *self,
    {
        ConnectionConfig {
            host: match &self.host {
                Some(h) => Some(h.clone()),
                None => None,
            },
            port: self.port,
            user: match &self.user {
                Some(u) => Some(u.clone()),
                None => None,
            },
            password: match &self.password {
                Some(p) => Some(p.clone()),
                None => None,
            },
            database_name: match &self.database_name {
                Some(d) => Some(d.clone()),
                None => None,
            },
        }
    }
}

/// A cloneable capability standing for one established connection.
/// The orchestrator holds the current one; in-flight query tasks hold
/// copies. The generation orders connection attempts so a stale
/// success cannot displace a newer connection.
#[derive(Clone, Copy, Debug, Hash, PartialEq, Eq, Structural)]
pub struct ConnectionHandle {
    pub generation: u64,
}

/// An executed query's result: column names and display-formatted
/// cell strings, row by row. Rows are assumed to have one cell per
/// column; enforcing that is the value-formatting collaborator's job.
#[derive(Clone, Debug, PartialEq, Eq)]
pub struct QueryResult {
    pub columns: Vec<String>,
    pub rows: Vec<Vec<String>>,
}

/// The mathematical shape of a [`QueryResult`].
pub struct QueryResultV {
    pub columns: Seq<Seq<char>>,
    pub rows: Seq<Seq<Seq<char>>>,
}

impl View for QueryResult {
    type V = QueryResultV;

    open spec fn view(&self) -> QueryResultV {
        QueryResultV { columns: self.columns.deep_view(), rows: self.rows.deep_view() }
    }
}

} // verus!
