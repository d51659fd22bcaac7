//! Database spans: the fields of a client span around one query, following the
//! OpenTelemetry database conventions.
use vstd::prelude::*;

use crate::text::owned;

verus! {

/// The name of every database span.
pub const DB_SPAN_NAME: &'static str = "db.query";

/// The span kind of every database span.
pub const DB_SPAN_KIND: &'static str = "client";

/// The fields of a database span.
#[derive(Clone, Debug)]
pub struct DbSpanFields {
    /// `db.system`
    pub system: String,
    /// `db.operation`
    pub operation: String,
    /// `db.statement`
    pub statement: String,
    /// `db.sql.table`, when recorded
    pub table: Option<String>,
    /// `db.name`: declared on every database span, with a value or empty
    pub db_name: DbName,
}

/// The `db.name` field of a database span.
#[derive(Clone, Debug)]
pub enum DbName {
    /// The field holds this value.
    Value(String),
    /// The field is declared without a value, to be recorded later with
    /// `span.record("db.name", ...)`.
    Empty,
}

/// Creates the fields of a span for a SQLite query.
///
/// Sets: `db.system = "sqlite"`, `db.operation`, `db.statement`, `db.sql.table`, `db.name = ":memory:"`.
pub fn sqlite_span(operation: &'static str, statement: &'static str, table: &'static str) -> (r:
    DbSpanFields)
    ensures
        r.system@ == "sqlite"@,
        r.operation@ == operation@,
        r.statement@ == statement@,
        r.table matches Some(t) && t@ == table@,
        r.db_name matches DbName::Value(n) && n@ == ":memory:"@,
{
    DbSpanFields {
        system: owned("sqlite"),
        operation: owned(operation),
        statement: owned(statement),
        table: Some(owned(table)),
        db_name: DbName::Value(owned(":memory:")),
    }
}

/// Creates the fields of a span for any database query.
///
/// Sets: `db.system`, `db.operation`, `db.statement`, and declares `db.name`
/// empty so that it can be recorded after creation.
pub fn db_span(system: &'static str, operation: &'static str, statement: &'static str) -> (r:
    DbSpanFields)
    ensures
        r.system@ == system@,
        r.operation@ == operation@,
        r.statement@ == statement@,
        r.table is None,
        r.db_name is Empty,
{
    DbSpanFields {
        system: owned(system),
        operation: owned(operation),
        statement: owned(statement),
        table: None,
        db_name: DbName::Empty,
    }
}

} // verus!
