//! The portable data model: values, rows, results and errors.

use vstd::prelude::*;

verus! {

/// A value as it crosses the library boundary in either direction.
///
/// A `Real` is held as the IEEE-754 bit pattern of a 64-bit float, so that
/// the value is moved exactly and never rounded on the way.
#[derive(Clone, Debug, PartialEq)]
pub enum Value {
    Null,
    Integer(i64),
    Real(u64),
    Text(String),
    Blob(Vec<u8>),
}

/// The mathematical content of a [`Value`].
pub ghost enum ValueModel {
    Null,
    Integer(i64),
    Real(u64),
    Text(Seq<char>),
    Blob(Seq<u8>),
}

impl View for Value {
    type V = ValueModel;

    open spec fn view(&self) -> ValueModel {
        match self {
            Value::Null => ValueModel::Null,
            Value::Integer(i) => ValueModel::Integer(*i),
            Value::Real(bits) => ValueModel::Real(*bits),
            Value::Text(s) => ValueModel::Text(s@),
            Value::Blob(b) => ValueModel::Blob(b@),
        }
    }
}

/// One materialised result row: one value per column, in column order.
#[derive(Clone, Debug, PartialEq)]
pub struct RowResult {
    pub values: Vec<Value>,
}

impl View for RowResult {
    type V = Seq<ValueModel>;

    open spec fn view(&self) -> Seq<ValueModel> {
        self.values@.map_values(|v: Value| v@)
    }
}

/// A fully buffered table: the column names reported by the engine and the
/// rows, in the order the engine produced them.
#[derive(Clone, Debug, PartialEq)]
pub struct QueryResult {
    pub columns: Vec<String>,
    pub rows: Vec<RowResult>,
}

impl QueryResult {
    /// Every row has exactly one value per column.
    pub open spec fn wf(&self) -> bool {
        forall|i: int|
            0 <= i < self.rows@.len() ==> #[trigger] self.rows@[i].values@.len()
                == self.columns@.len()
    }
}

/// The single failure shape of the library: an I/O-class error carrying a
/// human-readable description.
#[derive(Clone, Debug, PartialEq)]
pub enum DbError {
    Io(String),
}

impl DbError {
    /// The description carried by the error.
    pub fn message(&self) -> (r: String)
        ensures
            match self {
                DbError::Io(m) => r@ == m@,
            },
    {
        match self {
            DbError::Io(m) => m.clone(),
        }
    }
}

/// Where the database lives: in memory for the life of the process, or in a
/// file that persists across processes.
#[derive(Clone, Debug)]
pub enum InProcDatabaseLocation {
    InMemory,
    Path(std::path::PathBuf),
}

#[verifier::external_type_specification]
#[verifier::external_body]
pub struct ExPathBuf(std::path::PathBuf);

/// Relies on `PathBuf::clone`, which the derived `Clone` of
/// [`InProcDatabaseLocation`] calls; nothing is claimed of the copy.
pub assume_specification[ <std::path::PathBuf as Clone>::clone ](p: &std::path::PathBuf) -> std::path::PathBuf;

} // verus!
