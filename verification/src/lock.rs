//! The file lock that serialises concurrent construction of one
//! virtual environment.
//!
//! The lock is an exclusive advisory lock on a sentinel file at the
//! root of the environment directory. `fd_lock` only hands the lock out
//! as a guard borrowing a `fd_lock::RwLock`, whose type parameter is
//! bounded by a trait private to that crate, so both are held here
//! inside opaque structs of this library; dropping the guard releases
//! the lock. A filesystem or lock failure comes back as the underlying
//! I/O error, for the caller to surface as a typed error.

use vstd::prelude::*;
use std::io::Error as IoError;

verus! {

/// `std::io::Error`: the error of a failed filesystem or lock
/// operation.
#[verifier::external_type_specification]
#[verifier::external_body]
pub struct ExIoError(IoError);

/// Relies on `std::io::Error`'s `Display` impl: the diagnostic text of
/// a failed filesystem or lock operation.
#[verifier::external_body]
pub(crate) fn io_error_message(e: &IoError) -> String {
    e.to_string()
}

/// An open lock file, ready to be locked.
///
/// Relies on `fd_lock::RwLock` over an open `fs_err::File`: an advisory
/// file lock honoured by every builder that goes through it.
#[verifier::external_body]
pub struct VenvLock {
    inner: fd_lock::RwLock<fs_err::File>,
}

/// A held exclusive lock; dropping it releases the lock.
///
/// Relies on `fd_lock::RwLockWriteGuard`: the lock stays held exactly
/// as long as this value lives.
#[verifier::external_body]
pub struct VenvLockGuard<'a> {
    inner: fd_lock::RwLockWriteGuard<'a, fs_err::File>,
}

/// Relies on `fs_err::File::create` and `fd_lock::RwLock::new`: opens
/// (creating or truncating) the lock file at `path` without locking it
/// yet, or returns the I/O error when the file cannot be created.
#[verifier::external_body]
pub(crate) fn lock_open(path: &str) -> Result<VenvLock, IoError> {
    match fs_err::File::create(path) {
        Ok(f) => Ok(VenvLock { inner: fd_lock::RwLock::new(f) }),
        Err(e) => Err(e),
    }
}

/// Relies on `fd_lock::RwLock::write`: blocks until the exclusive
/// advisory lock on the file is acquired, with no timeout, or returns
/// the I/O error when the wait itself fails.
#[verifier::external_body]
pub(crate) fn lock_exclusive<'a>(l: &'a mut VenvLock) -> Result<VenvLockGuard<'a>, IoError> {
    match l.inner.write() {
        Ok(g) => Ok(VenvLockGuard { inner: g }),
        Err(e) => Err(e),
    }
}

} // verus!
