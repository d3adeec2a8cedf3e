//! Error numbers of the operating system.
//!
//! The numbers are those of Linux on the architectures that share the generic
//! error table, x86-64 and AArch64 among them. (MIPS and SPARC number the
//! network errors differently.)

use vstd::prelude::*;

verus! {

/// `libc::EIO`, the error number for "input/output error": 5 in the generic Linux table.
#[verifier::external_body]
pub(crate) fn eio() -> (errno: i32)
    ensures
        errno == 5,
{
    libc::EIO
}

/// `libc::ECONNREFUSED`, the error number for "connection refused": 111 in the generic Linux table.
#[verifier::external_body]
pub(crate) fn econnrefused() -> (errno: i32)
    ensures
        errno == 111,
{
    libc::ECONNREFUSED
}

/// `libc::ETIMEDOUT`, the error number for "connection timed out": 110 in the generic Linux table.
#[verifier::external_body]
pub(crate) fn etimedout() -> (errno: i32)
    ensures
        errno == 110,
{
    libc::ETIMEDOUT
}

/// `libc::EADDRINUSE`, the error number for "address already in use": 98 in the generic Linux table.
#[verifier::external_body]
pub(crate) fn eaddrinuse() -> (errno: i32)
    ensures
        errno == 98,
{
    libc::EADDRINUSE
}

/// `libc::ECONNABORTED`, the error number for "connection aborted": 103 in the generic Linux table.
#[verifier::external_body]
pub(crate) fn econnaborted() -> (errno: i32)
    ensures
        errno == 103,
{
    libc::ECONNABORTED
}

/// `libc::EPIPE`, the error number for "broken pipe": 32 in the generic Linux table.
#[verifier::external_body]
pub(crate) fn epipe() -> (errno: i32)
    ensures
        errno == 32,
{
    libc::EPIPE
}

/// `libc::ECONNRESET`, the error number for "connection reset by peer": 104 in the generic Linux table.
#[verifier::external_body]
pub(crate) fn econnreset() -> (errno: i32)
    ensures
        errno == 104,
{
    libc::ECONNRESET
}

/// `libc::ENOMEM`, the error number for "out of memory": 12 in the generic Linux table.
#[verifier::external_body]
pub(crate) fn enomem() -> (errno: i32)
    ensures
        errno == 12,
{
    libc::ENOMEM
}

/// `libc::EAGAIN`, the error number for "try again": 11 in the generic Linux table.
#[verifier::external_body]
pub(crate) fn eagain() -> (errno: i32)
    ensures
        errno == 11,
{
    libc::EAGAIN
}

} // verus!
