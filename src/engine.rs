//! The engine's types and the calls made into it. Each item here is taken on
//! trust; its doc comment names the engine function relied on.

use vstd::prelude::*;
use crate::codec::NativeValue;

verus! {

#[verifier::external_type_specification]
#[verifier::external_body]
pub struct ExConnection(rusqlite::Connection);

#[verifier::external_type_specification]
#[verifier::external_body]
pub struct ExEngineError(rusqlite::Error);

#[verifier::external_type_specification]
#[verifier::external_body]
pub struct ExCachedStatement<'conn>(rusqlite::CachedStatement<'conn>);

#[verifier::external_type_specification]
#[verifier::external_body]
pub struct ExRows<'stmt>(rusqlite::Rows<'stmt>);

#[verifier::external_type_specification]
#[verifier::external_body]
pub struct ExRow<'stmt>(rusqlite::Row<'stmt>);

#[verifier::external_type_specification]
#[verifier::external_body]
pub struct ExToSqlOutput<'a>(rusqlite::types::ToSqlOutput<'a>);

/// Relies on `rusqlite::Connection::open_in_memory`: opens a fresh private
/// in-memory database.
#[verifier::external_body]
pub(crate) fn open_in_memory() -> (r: Result<rusqlite::Connection, rusqlite::Error>) {
    rusqlite::Connection::open_in_memory()
}

/// Relies on `rusqlite::Connection::open`: opens or creates the database
/// file at `path`.
#[verifier::external_body]
pub(crate) fn open_path(path: &std::path::PathBuf) -> (r: Result<
    rusqlite::Connection,
    rusqlite::Error,
>) {
    rusqlite::Connection::open(path)
}

/// Relies on `rusqlite::Connection::execute_batch`: runs every statement of
/// `sql` in order, stopping at the first failure.
#[verifier::external_body]
pub(crate) fn run_batch(conn: &rusqlite::Connection, sql: &str) -> (r: Result<
    (),
    rusqlite::Error,
>) {
    conn.execute_batch(sql)
}

/// Relies on `rusqlite::Connection::prepare_cached`: compiles `sql`, reusing
/// a cached compilation of the same text where one exists.
#[verifier::external_body]
pub(crate) fn prepare_cached<'conn>(conn: &'conn rusqlite::Connection, sql: &str) -> (r: Result<
    rusqlite::CachedStatement<'conn>,
    rusqlite::Error,
>) {
    conn.prepare_cached(sql)
}

/// Relies on `rusqlite::Statement::query`: binds `params` positionally and
/// starts the statement. A count that differs from the statement's
/// placeholders is an engine error.
#[verifier::external_body]
pub(crate) fn query_rows<'s>(
    stmt: &'s mut rusqlite::CachedStatement<'_>,
    params: &Vec<rusqlite::types::ToSqlOutput<'static>>,
) -> (r: Result<rusqlite::Rows<'s>, rusqlite::Error>) {
    stmt.query(rusqlite::params_from_iter(params.iter()))
}

/// Relies on `rusqlite::Rows::next`: steps to the next result row, or gives
/// `None` once the rows are exhausted.
#[verifier::external_body]
pub(crate) fn next_row<'r, 's>(rows: &'r mut rusqlite::Rows<'s>) -> (r: Result<
    Option<&'r rusqlite::Row<'s>>,
    rusqlite::Error,
>) {
    rows.next()
}

/// Relies on `rusqlite::Row::get_ref` with a `usize` index, whose only
/// failure is an index past the last column: that gives `None`. A stored
/// value is copied out of the row, class by class.
#[verifier::external_body]
pub(crate) fn cell_at(row: &rusqlite::Row<'_>, i: usize) -> (r: Option<NativeValue>) {
    match row.get_ref(i) {
        Ok(rusqlite::types::ValueRef::Null) => Some(NativeValue::Null),
        Ok(rusqlite::types::ValueRef::Integer(v)) => Some(NativeValue::Integer(v)),
        Ok(rusqlite::types::ValueRef::Real(f)) => Some(NativeValue::Real(f.to_bits())),
        Ok(rusqlite::types::ValueRef::Text(t)) => Some(NativeValue::Text(t.to_vec())),
        Ok(rusqlite::types::ValueRef::Blob(b)) => Some(NativeValue::Blob(b.to_vec())),
        Err(_) => None,
    }
}

} // verus!
