//! The error type returned by every fallible operation of this crate.

use vstd::prelude::*;
use xshell::Error as XshellError;
use crate::shell;

verus! {

/// `Result` from std, with the error type defaulting to this crate's [`Error`].
pub type Result<T, E = Error> = core::result::Result<T, E>;

/// An error from creating or using a virtual environment.
///
/// `PythonNotDetected` means that no probed executable answered as a
/// Python 3 interpreter; `Xshell` carries the error of a failed shell
/// operation (a spawned process exited non-zero, a directory could not
/// be created, and so on) verbatim; `Lock` carries the I/O error of a
/// lock file that could not be created or locked.
#[derive(Debug)]
pub enum Error {
    PythonNotDetected(&'static str),
    Xshell(xshell::Error),
    Lock(std::io::Error),
}

impl From<XshellError> for Error {
    /// Wraps the error of a failed shell operation.
    fn from(error: XshellError) -> Error {
        Error::Xshell(error)
    }
}

impl vstd::std_specs::convert::FromSpecImpl<XshellError> for Error {
    open spec fn obeys_from_spec() -> bool {
        true
    }

    open spec fn from_spec(t: XshellError) -> Error {
        Error::Xshell(t)
    }
}

impl From<&'static str> for Error {
    /// Reads a message as the interpreter-not-found error.
    fn from(msg: &'static str) -> Error {
        Error::PythonNotDetected(msg)
    }
}

impl vstd::std_specs::convert::FromSpecImpl<&'static str> for Error {
    open spec fn obeys_from_spec() -> bool {
        true
    }

    open spec fn from_spec(t: &'static str) -> Error {
        Error::PythonNotDetected(t)
    }
}

impl Error {
    /// A human-readable description of the error.
    pub fn message(&self) -> (r: String)
        ensures
            self is PythonNotDetected ==> r@ == self->PythonNotDetected_0@,
    {
        match self {
            Error::PythonNotDetected(s) => (*s).to_owned(),
            Error::Xshell(e) => shell::xshell_error_message(e),
            Error::Lock(e) => crate::lock::io_error_message(e),
        }
    }
}

} // verus!
