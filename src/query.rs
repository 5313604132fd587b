//! The row materialiser: runs one statement and buffers its whole result, so
//! that nothing borrowed from the engine outlives the call.

use vstd::prelude::*;
use vstd::string::to_string_from_display_ensures;
use crate::codec::{decode, decode_value, NativeModel, NativeValue};
use crate::engine::{cell_at, next_row, prepare_cached, query_rows, run_batch};
use crate::value::{DbError, QueryResult, RowResult, ValueModel};

verus! {

/// The models of a sequence of stored values.
pub open spec fn native_models(raw: Seq<NativeValue>) -> Seq<NativeModel> {
    raw.map_values(|n: NativeValue| n@)
}

/// Every stored value of the sequence decodes.
pub open spec fn all_decode(raw: Seq<NativeModel>) -> bool {
    forall|i: int| 0 <= i < raw.len() ==> (#[trigger] decode(raw[i])) is Some
}

/// The portable values of a sequence whose stored values all decode.
pub open spec fn decoded(raw: Seq<NativeModel>) -> Seq<ValueModel> {
    raw.map_values(|n: NativeModel| decode(n)->0)
}

/// `r` is the I/O-class error whose description is the display text of
/// the engine error `e`.
pub open spec fn carries_text_of(r: DbError, e: rusqlite::Error) -> bool {
    match r {
        DbError::Io(m) => to_string_from_display_ensures::<rusqlite::Error>(&e, m),
    }
}

/// `r` is the I/O-class error of some failure reported by the engine.
pub open spec fn is_engine_error(r: DbError) -> bool {
    exists|e: rusqlite::Error| carries_text_of(r, e)
}

/// The library's error for a failure reported by the engine: an I/O-class
/// error carrying the engine's own message.
pub(crate) fn engine_error(e: rusqlite::Error) -> (r: DbError)
    ensures
        carries_text_of(r, e),
        is_engine_error(r),
{
    let r = DbError::Io(e.to_string());
    assert(carries_text_of(r, e));
    r
}

/// Decodes one buffered row. It fails exactly when one of its text values
/// is not valid UTF-8, and then no partial row is returned.
pub fn decode_row(raw: &Vec<NativeValue>) -> (r: Result<RowResult, DbError>)
    ensures
        r is Ok <==> all_decode(native_models(raw@)),
        r is Ok ==> r->Ok_0@ == decoded(native_models(raw@)),
        r is Ok ==> r->Ok_0.values@.len() == raw@.len(),
{
    let ghost model = native_models(raw@);
    let mut values: Vec<crate::value::Value> = Vec::new();
    let mut i: usize = 0;
    while i < raw.len()
        invariant
            i <= raw@.len(),
            model == native_models(raw@),
            values@.len() == i,
            forall|j: int| 0 <= j < i ==> (#[trigger] decode(model[j])) is Some,
            forall|j: int| 0 <= j < i ==> decode(model[j]) == Some(#[trigger] values@[j]@),
        decreases raw@.len() - i,
    {
        match decode_value(&raw[i]) {
            Ok(v) => values.push(v),
            Err(e) => {
                assert(decode(model[i as int]) is None);
                return Err(e);
            },
        }
        i = i + 1;
    }
    let row = RowResult { values };
    assert(row@ =~= decoded(model));
    Ok(row)
}

/// Every raw row has one stored value per column, and all of them decode.
pub open spec fn all_rows_fit(raw_rows: Seq<Vec<NativeValue>>, n_columns: int) -> bool {
    forall|i: int|
        0 <= i < raw_rows.len() ==> (#[trigger] raw_rows[i])@.len() == n_columns && all_decode(
            native_models(raw_rows[i]@),
        )
}

/// `q` is the table made of `columns` and `raw_rows`: the same column names,
/// and one row per raw row, in the same order, each the decoded raw row.
pub open spec fn materializes(
    columns: Seq<String>,
    raw_rows: Seq<Vec<NativeValue>>,
    q: QueryResult,
) -> bool {
    &&& q.columns@ == columns
    &&& q.rows@.len() == raw_rows.len()
    &&& forall|i: int|
        0 <= i < raw_rows.len() ==> #[trigger] q.rows@[i]@ == decoded(native_models(raw_rows[i]@))
}

/// Builds the table from the column names and the raw rows the engine
/// produced. It fails, returning nothing partial, exactly when a row's length
/// differs from the number of columns or one of its values does not decode.
pub fn materialize(columns: Vec<String>, raw_rows: Vec<Vec<NativeValue>>) -> (r: Result<
    QueryResult,
    DbError,
>)
    ensures
        r is Ok <==> all_rows_fit(raw_rows@, columns@.len() as int),
        r is Ok ==> materializes(columns@, raw_rows@, r->Ok_0),
        r is Ok ==> r->Ok_0.wf(),
{
    let n_columns = columns.len();
    let mut rows: Vec<RowResult> = Vec::new();
    let mut i: usize = 0;
    while i < raw_rows.len()
        invariant
            i <= raw_rows@.len(),
            n_columns == columns@.len(),
            rows@.len() == i,
            all_rows_fit(raw_rows@.subrange(0, i as int), n_columns as int),
            forall|j: int|
                0 <= j < i ==> #[trigger] rows@[j]@ == decoded(native_models(raw_rows@[j]@)),
            forall|j: int| 0 <= j < i ==> #[trigger] rows@[j].values@.len() == n_columns,
        decreases raw_rows@.len() - i,
    {
        let raw = &raw_rows[i];
        if raw.len() != n_columns {
            assert(!all_rows_fit(raw_rows@, n_columns as int));
            return Err(DbError::Io(String::from_str("a row's length differs from the number of columns")));
        }
        match decode_row(raw) {
            Ok(row) => rows.push(row),
            Err(e) => {
                assert(!all_rows_fit(raw_rows@, n_columns as int));
                return Err(e);
            },
        }
        assert(raw_rows@.subrange(0, i + 1).drop_last() =~= raw_rows@.subrange(0, i as int));
        i = i + 1;
    }
    assert(raw_rows@.subrange(0, i as int) =~= raw_rows@);
    Ok(QueryResult { columns, rows })
}

/// Copies the cells of one engine row. The walk goes from column 0 and
/// stops at the first index the engine reports as out of range.
fn read_row(row: &rusqlite::Row<'_>) -> (r: Result<Vec<NativeValue>, DbError>) {
    let mut cells: Vec<NativeValue> = Vec::new();
    let mut i: usize = 0;
    loop
        invariant
            cells@.len() == i,
        decreases usize::MAX - i,
    {
        match cell_at(row, i) {
            Some(c) => cells.push(c),
            None => return Ok(cells),
        }
        if i == usize::MAX {
            return Err(DbError::Io(String::from_str("a row has more values than can be held")));
        }
        i = i + 1;
    }
}

/// Compiles `query`, reusing the connection's cached compilation of the
/// same text where one exists. A failure is an engine error.
pub fn prepare<'conn>(connection: &'conn rusqlite::Connection, query: &str) -> (r: Result<
    rusqlite::CachedStatement<'conn>,
    DbError,
>)
    ensures
        r is Err ==> is_engine_error(r->Err_0),
{
    match prepare_cached(connection, query) {
        Ok(s) => Ok(s),
        Err(e) => Err(engine_error(e)),
    }
}

/// Runs a prepared statement whose result columns are named `columns`,
/// with `parameters` bound positionally, and returns the whole result, built
/// by [`materialize`] from `columns` and every row the engine produced, in
/// order. Any engine failure, or a row that does not materialise, fails the
/// whole query; no partial result is returned.
pub fn query_prepared(
    statement: &mut rusqlite::CachedStatement<'_>,
    columns: Vec<String>,
    parameters: Vec<rusqlite::types::ToSqlOutput<'static>>,
) -> (r: Result<QueryResult, DbError>)
    ensures
        r is Ok ==> r->Ok_0.wf(),
        r is Ok ==> r->Ok_0.columns@ == columns@,
{
    let mut cursor = match query_rows(statement, &parameters) {
        Ok(c) => c,
        Err(e) => return Err(engine_error(e)),
    };
    let mut raw_rows: Vec<Vec<NativeValue>> = Vec::new();
    loop
        decreases usize::MAX - raw_rows@.len(),
    {
        if raw_rows.len() == usize::MAX {
            return Err(DbError::Io(String::from_str("the result has more rows than can be held")));
        }
        let row = match next_row(&mut cursor) {
            Ok(Some(row)) => row,
            Ok(None) => break,
            Err(e) => return Err(engine_error(e)),
        };
        let cells = read_row(row)?;
        raw_rows.push(cells);
    }
    materialize(columns, raw_rows)
}

/// Runs one or more semicolon-separated statements as a unit, returning no
/// rows. An engine failure is an I/O-class error carrying its message.
pub fn execute_batch(connection: &rusqlite::Connection, statements: &str) -> (r: Result<(), DbError>)
    ensures
        r is Err ==> is_engine_error(r->Err_0),
{
    match run_batch(connection, statements) {
        Ok(()) => Ok(()),
        Err(e) => Err(engine_error(e)),
    }
}

} // verus!
