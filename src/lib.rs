//! An embedded SQLite engine exposed through a small, typed query interface:
//! portable values in, fully materialised tables out.

pub mod value;
pub mod codec;
mod engine;
pub mod query;
pub mod connection;

pub use value::{DbError, InProcDatabaseLocation, QueryResult, RowResult, Value};
pub use codec::NativeValue;
pub use connection::InProcConnection;
