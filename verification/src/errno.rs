//! The error numbers that the facade itself reports.
//!
//! The numbers come from the C library, so that a caller can compare a return
//! code with its own `<errno.h>`. The constants below are how contracts name
//! them; they are the values of Linux's generic errno table (x86, Arm, RISC-V).

use vstd::prelude::*;

verus! {

/// Invalid argument: a null pointer, a wrong size, a malformed value.
pub const EINVAL: i32 = 22;

/// Function not implemented: the call is not wired, or nothing was initialized.
pub const ENOSYS: i32 = 38;

/// Operation not supported: wrong family of backend, or not an IPv4 address.
pub const ENOTSUP: i32 = 95;

/// Resource busy: another call is still in progress.
pub const EBUSY: i32 = 16;

/// Timed out: the wait expired before any operation completed.
pub const ETIMEDOUT: i32 = 110;

/// Reads `libc::EINVAL`. Trusted: on Linux the C library numbers this error
/// 22.
#[verifier::external_body]
pub(crate) fn einval() -> (errno: i32)
    ensures
        errno == EINVAL,
{
    libc::EINVAL
}

/// Reads `libc::ENOSYS`. Trusted: on Linux for x86, Arm and RISC-V the C
/// library numbers this error 38.
#[verifier::external_body]
pub(crate) fn enosys() -> (errno: i32)
    ensures
        errno == ENOSYS,
{
    libc::ENOSYS
}

/// Reads `libc::ENOTSUP`. Trusted: on Linux for x86, Arm and RISC-V the C
/// library numbers this error 95, the number of `EOPNOTSUPP`.
#[verifier::external_body]
pub(crate) fn enotsup() -> (errno: i32)
    ensures
        errno == ENOTSUP,
{
    libc::ENOTSUP
}

/// Reads `libc::EBUSY`. Trusted: on Linux the C library numbers this error
/// 16.
#[verifier::external_body]
pub(crate) fn ebusy() -> (errno: i32)
    ensures
        errno == EBUSY,
{
    libc::EBUSY
}

/// Reads `libc::ETIMEDOUT`. Trusted: on Linux for x86, Arm and RISC-V the C
/// library numbers this error 110.
#[verifier::external_body]
pub(crate) fn etimedout() -> (errno: i32)
    ensures
        errno == ETIMEDOUT,
{
    libc::ETIMEDOUT
}

} // verus!
