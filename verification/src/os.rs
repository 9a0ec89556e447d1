//! The calls into the operating system, through the `nix` crate.
//!
//! Nothing here is verified. What these functions return depends on the
//! process and the machine, so none of them promises anything about its
//! result: the verified code that calls them is proved for every value that
//! may come back.

use vstd::prelude::*;

verus! {

/// `nix::errno::Errno`, the error of nix's system-call bindings. The library
/// carries such a value from a failed call to [`errno_code`] and reads
/// nothing else from it.
#[verifier::external_type_specification]
#[verifier::external_body]
pub struct ExErrno(nix::errno::Errno);

/// The real user id of the process, from `nix::unistd::Uid::current`.
/// Nothing is claimed of the number.
#[verifier::external_body]
pub(crate) fn real_uid() -> (uid: u32) {
    nix::unistd::Uid::current().as_raw()
}

/// The real group id of the process, from `nix::unistd::Gid::current`.
/// Nothing is claimed of the number.
#[verifier::external_body]
pub(crate) fn real_gid() -> (gid: u32) {
    nix::unistd::Gid::current().as_raw()
}

/// The effective user id of the process, from `nix::unistd::Uid::effective`.
/// Nothing is claimed of the number.
#[verifier::external_body]
pub(crate) fn effective_uid() -> (uid: u32) {
    nix::unistd::Uid::effective().as_raw()
}

/// The effective group id of the process, from
/// `nix::unistd::Gid::effective`. Nothing is claimed of the number.
#[verifier::external_body]
pub(crate) fn effective_gid() -> (gid: u32) {
    nix::unistd::Gid::effective().as_raw()
}

/// Asks the operating system to set the effective user id, with
/// `nix::unistd::seteuid`. Whether it agrees is not known beforehand, so
/// nothing is claimed of the result.
#[verifier::external_body]
pub(crate) fn set_effective_uid(uid: u32) -> (r: Result<(), nix::errno::Errno>) {
    nix::unistd::seteuid(nix::unistd::Uid::from_raw(uid))
}

/// Asks the operating system to set the effective group id, with
/// `nix::unistd::setegid`. Whether it agrees is not known beforehand, so
/// nothing is claimed of the result.
#[verifier::external_body]
pub(crate) fn set_effective_gid(gid: u32) -> (r: Result<(), nix::errno::Errno>) {
    nix::unistd::setegid(nix::unistd::Gid::from_raw(gid))
}

/// The number of an `Errno`, which nix defines as the variant's
/// discriminant. Nothing is claimed of the number.
#[verifier::external_body]
pub(crate) fn errno_code(e: nix::errno::Errno) -> (code: i32) {
    e as i32
}

} // verus!
