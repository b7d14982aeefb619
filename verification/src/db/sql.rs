//! Statements and the values bound to them.

use vstd::prelude::*;

verus! {

broadcast use vstd::string::group_string_axioms;

/// A value bound to a placeholder of a statement.
#[derive(Debug)]
pub enum SqlValue {
    Null,
    Integer(i64),
    Text(String),
}

/// What a bound value is.
pub ghost enum SqlView {
    Null,
    Integer(int),
    Text(Seq<char>),
}

impl View for SqlValue {
    type V = SqlView;

    open spec fn view(&self) -> SqlView {
        match *self {
            SqlValue::Null => SqlView::Null,
            SqlValue::Integer(n) => SqlView::Integer(n as int),
            SqlValue::Text(s) => SqlView::Text(s@),
        }
    }
}

/// The values of a list.
pub open spec fn sql_views(list: Seq<SqlValue>) -> Seq<SqlView> {
    list.map_values(|v: SqlValue| v@)
}

/// A text, or `NULL` where there is none.
pub open spec fn text_or_null(s: Option<Seq<char>>) -> SqlView {
    match s {
        Some(text) => SqlView::Text(text),
        None => SqlView::Null,
    }
}

/// A statement with its values.
#[derive(Debug)]
pub struct Statement {
    pub sql: String,
    pub params: Vec<SqlValue>,
}

/// What a statement holds.
pub ghost struct StatementView {
    pub sql: Seq<char>,
    pub params: Seq<SqlView>,
}

impl View for Statement {
    type V = StatementView;

    open spec fn view(&self) -> StatementView {
        StatementView { sql: self.sql@, params: sql_views(self.params@) }
    }
}

/// The statements of a list.
pub open spec fn statement_views(list: Seq<Statement>) -> Seq<StatementView> {
    list.map_values(|s: Statement| s@)
}

/// Why the store failed.
#[derive(Debug)]
pub enum DatabaseError {
    Query(String),
}

/// What a store error says.
pub open spec fn error_text(e: DatabaseError) -> Seq<char> {
    match e {
        DatabaseError::Query(text) => text@,
    }
}

/// The error of a statement that failed while doing `what`.
pub fn query_error(what: &str, cause: &str) -> (r: DatabaseError)
    ensures
        error_text(r) == what@ + ": "@ + cause@,
{
    let mut text = what.to_string();
    text.append(": ");
    text.append(cause);
    DatabaseError::Query(text)
}

// ── Laws ────────────────────────────────────────────────────

/// The error of a failed statement says what was done, and then the cause.
pub proof fn law_errors_tell_what_failed(what: &str, cause: &str, r: DatabaseError)
    requires
        call_ensures(query_error, (what, cause), r),
    ensures
        r matches DatabaseError::Query(text) && text@ == what@ + ": "@ + cause@,
{
}

} // verus!
