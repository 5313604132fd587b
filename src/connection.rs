//! The connection bridge: one engine handle, shared by every holder of the
//! connection and used by one caller at a time.

use vstd::prelude::*;
use std::sync::{Arc, Mutex, MutexGuard};
use crate::engine::{open_in_memory, open_path};
use crate::query::{engine_error, execute_batch, is_engine_error};
use crate::value::{DbError, InProcDatabaseLocation};

verus! {

#[verifier::external_type_specification]
#[verifier::external_body]
#[verifier::reject_recursive_types(T)]
pub struct ExMutex<T: ?Sized>(std::sync::Mutex<T>);

#[verifier::external_type_specification]
#[verifier::external_body]
#[verifier::reject_recursive_types(T)]
pub struct ExMutexGuard<'a, T: ?Sized + 'a>(std::sync::MutexGuard<'a, T>);

/// Relies on `std::sync::Mutex::new`: an unlocked mutex owning the handle.
#[verifier::external_body]
fn new_mutex(connection: rusqlite::Connection) -> (r: Mutex<rusqlite::Connection>) {
    Mutex::new(connection)
}

/// Relies on `std::sync::Mutex::lock`: blocks until this thread holds the
/// lock, which the returned guard releases when dropped. A lock poisoned by
/// a panic while it was held is taken all the same through
/// `PoisonError::into_inner`: the engine leaves its handle consistent when a
/// call returns, so a caller's panic does not make the connection unusable.
#[verifier::external_body]
fn lock_mutex(m: &Mutex<rusqlite::Connection>) -> (r: MutexGuard<'_, rusqlite::Connection>) {
    match m.lock() {
        Ok(guard) => guard,
        Err(poisoned) => poisoned.into_inner(),
    }
}

/// Relies on `MutexGuard`'s `Deref`: the handle the held lock protects.
#[verifier::external_body]
fn guarded<'g>(guard: &'g MutexGuard<'_, rusqlite::Connection>) -> (r: &'g rusqlite::Connection) {
    &**guard
}

/// Opens a new engine handle at `location`. A failure to open or create the
/// database is an I/O-class error carrying the engine's message.
pub fn open_connection(location: &InProcDatabaseLocation) -> (r: Result<rusqlite::Connection, DbError>)
    ensures
        r is Err ==> is_engine_error(r->Err_0),
{
    let opened = match location {
        InProcDatabaseLocation::InMemory => open_in_memory(),
        InProcDatabaseLocation::Path(path) => open_path(path),
    };
    match opened {
        Ok(c) => Ok(c),
        Err(e) => Err(engine_error(e)),
    }
}

/// A connection to a SQLite database. Clones share the one engine handle;
/// the handle is released when the last clone is dropped.
#[derive(Clone)]
pub struct InProcConnection {
    connection: Arc<Mutex<rusqlite::Connection>>,
}

impl InProcConnection {
    /// Opens the database at `location`, in memory or backed by a file.
    pub fn new(location: InProcDatabaseLocation) -> (r: Result<Self, DbError>)
        ensures
            r is Err ==> is_engine_error(r->Err_0),
    {
        let c = open_connection(&location)?;
        Ok(InProcConnection { connection: Arc::new(new_mutex(c)) })
    }

    /// Waits until no other caller holds the engine handle and takes it;
    /// the handle is released when the returned guard is dropped.
    pub fn lock(&self) -> (r: MutexGuard<'_, rusqlite::Connection>) {
        lock_mutex(&self.connection)
    }

    /// Runs the statements of `statements` as a unit, holding the lock for
    /// the whole engine call; see [`execute_batch`].
    pub fn execute_batch(&self, statements: &str) -> (r: Result<(), DbError>)
        ensures
            r is Err ==> is_engine_error(r->Err_0),
    {
        let guard = lock_mutex(&self.connection);
        execute_batch(guarded(&guard), statements)
    }
}

} // verus!
