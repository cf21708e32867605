//! Construction of the queries the system issues for its own
//! bookkeeping, with identifier-safety validation: a table name is
//! structural, so it is checked against a safe grammar and quoted
//! before interpolation, never passed as a bind value.

use vstd::prelude::*;

use crate::app_event::{QueryTag, QueryTagV};

verus! {

/// Whether a character may start a safe identifier: an ASCII letter
/// or an underscore.
pub open spec fn is_ident_start(c: char) -> bool {
    ('A' as u32) <= (c as u32) <= ('Z' as u32) || ('a' as u32) <= (c as u32) <= ('z' as u32) || c
        == '_'
}

/// Whether a character may continue a safe identifier: an ASCII
/// letter, a digit, or an underscore.
pub open spec fn is_ident_char(c: char) -> bool {
    is_ident_start(c) || ('0' as u32) <= (c as u32) <= ('9' as u32)
}

/// The safe-identifier grammar: nonempty, at most 128 characters, a
/// letter or underscore first, then letters, digits and underscores.
pub open spec fn valid_identifier(s: Seq<char>) -> bool {
    &&& 1 <= s.len() <= 128
    &&& is_ident_start(s[0])
    &&& forall|i: int| 0 < i < s.len() ==> is_ident_char(#[trigger] s[i])
}

/// Decides membership in the safe-identifier grammar.
pub fn check_identifier(name: &str) -> (r: bool)
    ensures
        r == valid_identifier(name@),
{
    let len = name.unicode_len();
    if len == 0 || len > 128 {
        return false;
    }
    let c0 = name.get_char(0);
    let u0 = c0 as u32;
    let start_ok = (65 <= u0 && u0 <= 90) || (97 <= u0 && u0 <= 122) || c0 == '_';
    if !start_ok {
        return false;
    }
    let mut i: usize = 1;
    while i < len
        invariant
            1 <= i <= len,
            len == name@.len(),
            forall|j: int| 0 < j < i ==> is_ident_char(#[trigger] name@[j]),
        decreases len - i,
    {
        let c = name.get_char(i);
        let u = c as u32;
        let ok = (65 <= u && u <= 90) || (97 <= u && u <= 122) || (48 <= u && u <= 57) || c == '_';
        if !ok {
            return false;
        }
        i = i + 1;
    }
    true
}

/// The statement that lists the user-visible tables, schema first.
pub open spec fn list_tables_sql() -> Seq<char> {
    "SELECT table_schema, table_name FROM information_schema.tables WHERE table_schema NOT IN ('pg_catalog', 'information_schema') ORDER BY table_schema, table_name ASC;"@
}

/// The statement that previews one table: the identifier stands
/// quoted, and the row count is bounded.
pub open spec fn initial_table_sql(name: Seq<char>) -> Seq<char> {
    "SELECT * FROM \""@ + name + "\" LIMIT 1000;"@
}

/// The statement that describes one table's columns; the table name
/// is a literal value here, so it is bound, not interpolated.
pub open spec fn table_structure_sql() -> Seq<char> {
    "SELECT column_name, data_type, is_nullable FROM information_schema.columns WHERE table_name = $1 ORDER BY ordinal_position;"@
}

/// Why a system query could not be built.
#[derive(Clone, Copy, Debug, PartialEq, Eq, Structural)]
pub enum QueryError {
    /// The embedded table identifier fails the safe-identifier
    /// grammar; no query is ever sent for it.
    InvalidIdentifier,
    /// The tag marks a user query, whose text comes from the editor,
    /// not from the system-query builder.
    NotSystemQuery,
}

/// The short description of a query-construction error.
pub open spec fn query_error_text(e: QueryError) -> Seq<char> {
    match e {
        QueryError::InvalidIdentifier => "invalid table identifier"@,
        QueryError::NotSystemQuery => "not a system query"@,
    }
}

impl QueryError {
    /// A short description for the message surface.
    pub fn message(&self) -> (r: String)
        ensures
            r@ == query_error_text(*self),
    {
        match self {
            QueryError::InvalidIdentifier => "invalid table identifier".to_owned(),
            QueryError::NotSystemQuery => "not a system query".to_owned(),
        }
    }
}

/// A query ready for execution: its tag travels with it so that the
/// matching result can be routed back to the component that asked.
#[derive(Clone, Debug, PartialEq, Eq)]
pub struct QueryRequest {
    pub tag: QueryTag,
    pub statement: String,
    pub parameters: Option<Vec<String>>,
}

/// The mathematical shape of a [`QueryRequest`].
pub struct QueryRequestV {
    pub tag: QueryTagV,
    pub statement: Seq<char>,
    pub parameters: Option<Seq<Seq<char>>>,
}

impl View for QueryRequest {
    type V = QueryRequestV;

    open spec fn view(&self) -> QueryRequestV {
        QueryRequestV {
            tag: self.tag@,
            statement: self.statement@,
            parameters: match &self.parameters {
                Some(p) => Some(p.deep_view()),
                None => None,
            },
        }
    }
}

impl DeepView for QueryRequest {
    type V = QueryRequestV;

    open spec fn deep_view(&self) -> QueryRequestV {
        self.view()
    }
}

impl QueryRequest {
    /// Copies the request field by field.
    pub fn duplicate(&self) -> (r: QueryRequest)
        ensures
            r@ == self@,
    {
        QueryRequest {
            tag: self.tag.duplicate(),
            statement: self.statement.clone(),
            parameters: match &self.parameters {
                Some(p) => Some(crate::text::clone_string_vec(p)),
                None => None,
            },
        }
    }
}

/// What [`SystemQuery::query_for`] builds for each tag, or the error
/// it refuses with.
pub open spec fn query_for_spec(tag: QueryTagV) -> Result<QueryRequestV, QueryError> {
    match tag {
        QueryTagV::User => Err(QueryError::NotSystemQuery),
        QueryTagV::ListTables => Ok(
            QueryRequestV { tag, statement: list_tables_sql(), parameters: None },
        ),
        QueryTagV::InitialTable(name) => if valid_identifier(name) {
            Ok(QueryRequestV { tag, statement: initial_table_sql(name), parameters: None })
        } else {
            Err(QueryError::InvalidIdentifier)
        },
        QueryTagV::TableStructure(name) => Ok(
            QueryRequestV {
                tag,
                statement: table_structure_sql(),
                parameters: Some(seq![name]),
            },
        ),
    }
}

/// Maps a built request, or the error, to its mathematical shape.
pub open spec fn query_result_view(r: Result<QueryRequest, QueryError>) -> Result<
    QueryRequestV,
    QueryError,
> {
    match r {
        Ok(q) => Ok(q@),
        Err(e) => Err(e),
    }
}

/// Builds the system queries.
pub struct SystemQuery {}

impl SystemQuery {
    /// Builds the query for a tag. A tag carrying a table identifier
    /// is validated against the safe grammar first; an identifier
    /// outside it fails the construction, so no unsafe statement is
    /// ever produced.
    pub fn query_for(tag: QueryTag) -> (r: Result<QueryRequest, QueryError>)
        ensures
            query_result_view(r) == query_for_spec(tag@),
    {
        match tag {
            QueryTag::User => Err(QueryError::NotSystemQuery),
            QueryTag::ListTables => Ok(
                QueryRequest {
                    tag: QueryTag::ListTables,
                    statement: String::from_str(
                        "SELECT table_schema, table_name FROM information_schema.tables WHERE table_schema NOT IN ('pg_catalog', 'information_schema') ORDER BY table_schema, table_name ASC;",
                    ),
                    parameters: None,
                },
            ),
            QueryTag::InitialTable(name) => {
                if check_identifier(name.as_str()) {
                    let statement = String::from_str("SELECT * FROM \"").concat(
                        name.as_str(),
                    ).concat("\" LIMIT 1000;");
                    Ok(
                        QueryRequest {
                            tag: QueryTag::InitialTable(name),
                            statement,
                            parameters: None,
                        },
                    )
                } else {
                    Err(QueryError::InvalidIdentifier)
                }
            },
            QueryTag::TableStructure(name) => {
                let statement = String::from_str(
                    "SELECT column_name, data_type, is_nullable FROM information_schema.columns WHERE table_name = $1 ORDER BY ordinal_position;",
                );
                let mut parameters: Vec<String> = Vec::new();
                parameters.push(name.clone());
                assert(parameters.deep_view() =~= seq![name@]);
                Ok(
                    QueryRequest {
                        tag: QueryTag::TableStructure(name),
                        statement,
                        parameters: Some(parameters),
                    },
                )
            },
        }
    }
}

} // verus!
