//! The errors of the library.

use vstd::prelude::*;

verus! {

/// Why the identity of the invoking user could not be taken from the
/// environment.
#[derive(Clone, Copy, PartialEq, Eq, Debug, Structural)]
pub enum ConfigFault {
    /// The user id variable is not set.
    MissingUid,
    /// The user id variable is set, but is no unsigned 32-bit decimal number.
    MalformedUid,
    /// The group id variable is not set.
    MissingGid,
    /// The group id variable is set, but is no unsigned 32-bit decimal number.
    MalformedGid,
    /// The user id is 0: root is no identity to lower to.
    RootUid,
}

/// Why a file access failed.
#[derive(Clone, Copy, PartialEq, Eq, Debug, Structural)]
pub enum IoFault {
    /// The file system refused; the number is the operating system's error
    /// code, as the caller's function reported it.
    Filesystem(i32),
    /// The elevation helper ran and ended with this exit code, which is not 0.
    HelperExit(i32),
    /// The elevation helper ran and ended without an exit code.
    HelperKilled,
}

/// What can go wrong in the library.
///
/// `PermissionDenied` and `ConfigError` say that the caller may not do what
/// it asked for; the other three say that something that was tried failed.
#[derive(Clone, Copy, PartialEq, Eq, Debug, Structural)]
pub enum Error {
    /// Root was asked for, the process has no real root identity, and the
    /// elevation helper is not allowed.
    PermissionDenied,
    /// The environment does not name a usable invoking user.
    ConfigError(ConfigFault),
    /// The operating system refused to set an effective id; the number is its
    /// error code.
    OsError(i32),
    /// A program could not be launched; the number is the error code that the
    /// caller's function reported.
    SpawnError(i32),
    /// A file access failed.
    IoError(IoFault),
}

impl Error {
    /// The caller is not allowed to do what it asked for.
    pub open spec fn denial(self) -> bool {
        self is PermissionDenied || self is ConfigError
    }

    /// The operation itself was run and failed.
    pub open spec fn operation_failure(self) -> bool {
        self is SpawnError || self is IoError
    }

    /// Tells "you may not do this" from "it was tried and failed".
    pub fn is_denial(&self) -> (b: bool)
        ensures
            b == self.denial(),
    {
        match self {
            Error::PermissionDenied => true,
            Error::ConfigError(_) => true,
            _ => false,
        }
    }

    /// Whether the error comes from the command or file access itself.
    pub fn is_operation_failure(&self) -> (b: bool)
        ensures
            b == self.operation_failure(),
    {
        match self {
            Error::SpawnError(_) => true,
            Error::IoError(_) => true,
            _ => false,
        }
    }
}

} // verus!
