//! The runtime's error taxonomy: stable integer codes shared by every
//! boundary (registry results and callback errors alike).

use vstd::prelude::*;

verus! {

/// Errors of the runtime core, with stable integer codes.
///
/// `NoError` is the success sentinel used where an FFI boundary carries an
/// error slot unconditionally. Codes below the named range are reserved for
/// module-defined errors.
#[derive(Clone, Copy, Debug, PartialEq, Eq, Structural)]
pub enum Error {
    NoError,
    RegistryAlreadyRunning,
    ModuleNotFound,
    FfiInvalidMethodName,
}

impl Error {
    /// The stable integer code of this error.
    pub open spec fn spec_code(self) -> int {
        match self {
            Error::NoError => 0,
            Error::RegistryAlreadyRunning => i32::MIN as int,
            Error::ModuleNotFound => i32::MIN + 1,
            Error::FfiInvalidMethodName => i32::MIN + 2,
        }
    }

    /// Returns the stable integer code of this error.
    pub fn code(&self) -> (c: i32)
        ensures
            c == self.spec_code(),
    {
        match self {
            Error::NoError => 0,
            Error::RegistryAlreadyRunning => i32::MIN,
            Error::ModuleNotFound => i32::MIN + 1,
            Error::FfiInvalidMethodName => i32::MIN + 2,
        }
    }

    /// The short machine-readable tag of this error; empty for `NoError`.
    pub fn as_ref(&self) -> (s: &'static str)
        ensures
            s@ == self.spec_name(),
    {
        match self {
            Error::RegistryAlreadyRunning => "Registry already running",
            Error::ModuleNotFound => "Module not found",
            Error::FfiInvalidMethodName => "Invalid method name",
            Error::NoError => "",
        }
    }

    /// The name returned by [`Error::as_ref`], as a sequence of characters.
    pub open spec fn spec_name(self) -> Seq<char> {
        match self {
            Error::NoError => ""@,
            Error::RegistryAlreadyRunning => "Registry already running"@,
            Error::ModuleNotFound => "Module not found"@,
            Error::FfiInvalidMethodName => "Invalid method name"@,
        }
    }
}

impl Default for Error {
    /// The default error is the success sentinel.
    fn default() -> (r: Self)
        ensures
            r == Error::NoError,
    {
        Error::NoError
    }
}

/// Distinct error codes map to distinct variants: the taxonomy is injective,
/// so a code travelling over a boundary identifies its error.
pub proof fn lemma_error_codes_distinct(a: Error, b: Error)
    ensures
        a.spec_code() == b.spec_code() ==> a == b,
{
}

/// A failure reported by a module's self-driven lifecycle (`run`).
pub struct RunError {
    pub code: i32,
    pub message: String,
}

impl RunError {
    /// Packs a code and a message reported by a module's `run`.
    pub fn new(code: i32, message: String) -> (r: Self)
        ensures
            r.code == code,
            r.message == message,
    {
        Self { code, message }
    }
}

/// Errors returned synchronously by registry operations that report lookup
/// failure to the caller rather than through a callback.
#[derive(Clone, Copy, Debug, PartialEq, Eq, Structural)]
pub enum RegistryError {
    UnknownModule,
}

} // verus!
