//! Turning the return values of C library calls into results.
//!
//! A call reports failure with a sentinel value and leaves the cause in the
//! thread's `errno`, which these functions read only on failure.
use vstd::prelude::*;
use crate::errno::Errno;

verus! {

/// Relies on `std::io::Error::last_os_error`: the calling thread's `errno`,
/// as a raw number, which `raw_os_error` documents as present for an error
/// built this way. What number it is depends on the calls made before, so
/// that is not stated.
#[verifier::external_body]
fn last_os_error_code() -> (r: Option<i32>)
    ensures
        r is Some,
{
    std::io::Error::last_os_error().raw_os_error()
}

/// The error that the last failed call left in `errno`.
fn last_errno() -> (r: Errno) {
    let code = last_os_error_code().unwrap();
    Errno(#[verifier::truncate] (code as u16))
}

/// The file descriptor value that stands for "no descriptor".
pub fn no_fd() -> (r: i32)
    ensures
        r == -1,
{
    -1
}

/// A call that returns zero on success.
pub fn ret(raw: i32) -> (r: Result<(), Errno>)
    ensures
        r is Ok <==> raw == 0,
{
    if raw == 0 {
        Ok(())
    } else {
        Err(last_errno())
    }
}

/// A raw system call that returns zero on success.
pub fn syscall_ret(raw: i64) -> (r: Result<(), Errno>)
    ensures
        r is Ok <==> raw == 0,
{
    if raw == 0 {
        Ok(())
    } else {
        Err(last_errno())
    }
}

/// A call that returns a nonnegative value on success.
pub fn nonnegative_ret(raw: i32) -> (r: Result<(), Errno>)
    ensures
        r is Ok <==> raw >= 0,
{
    if raw >= 0 {
        Ok(())
    } else {
        Err(last_errno())
    }
}

/// A call that returns an `int`, or -1 on failure.
pub fn ret_c_int(raw: i32) -> (r: Result<i32, Errno>)
    ensures
        r is Err <==> raw == -1,
        raw != -1 ==> r == Ok::<i32, Errno>(raw),
{
    if raw == -1 {
        Err(last_errno())
    } else {
        Ok(raw)
    }
}

/// A call that returns an unsigned value in an `int`, or -1 on failure.
pub fn ret_u32(raw: i32) -> (r: Result<u32, Errno>)
    ensures
        r is Err <==> raw == -1,
        raw != -1 ==> r == Ok::<u32, Errno>(raw as u32),
{
    if raw == -1 {
        Err(last_errno())
    } else {
        Ok(#[verifier::truncate] (raw as u32))
    }
}

/// A call that returns an `ssize_t`, or -1 on failure.
pub fn ret_ssize_t(raw: isize) -> (r: Result<isize, Errno>)
    ensures
        r is Err <==> raw == -1,
        raw != -1 ==> r == Ok::<isize, Errno>(raw),
{
    if raw == -1 {
        Err(last_errno())
    } else {
        Ok(raw)
    }
}

/// A raw system call that returns an `ssize_t` in a `long`, or -1 on failure.
pub fn syscall_ret_ssize_t(raw: i64) -> (r: Result<isize, Errno>)
    ensures
        r is Err <==> raw == -1,
        raw != -1 ==> r == Ok::<isize, Errno>(raw as isize),
{
    if raw == -1 {
        Err(last_errno())
    } else {
        Ok(#[verifier::truncate] (raw as isize))
    }
}

/// A raw system call that returns an unsigned 32-bit value in a `long`, or
/// -1 on failure.
pub fn syscall_ret_u32(raw: i64) -> (r: Result<u32, Errno>)
    ensures
        r is Err <==> raw == -1,
        raw != -1 ==> r == Ok::<u32, Errno>(raw as u32),
{
    if raw == -1 {
        Err(last_errno())
    } else {
        Ok(#[verifier::truncate] (raw as u32))
    }
}

/// A call that returns a file offset, or -1 on failure.
pub fn ret_off_t(raw: i64) -> (r: Result<i64, Errno>)
    ensures
        r is Err <==> raw == -1,
        raw != -1 ==> r == Ok::<i64, Errno>(raw),
{
    if raw == -1 {
        Err(last_errno())
    } else {
        Ok(raw)
    }
}

/// A call that returns a file descriptor that the caller does not keep, or
/// -1 on failure.
pub fn ret_discarded_fd(raw: i32) -> (r: Result<(), Errno>)
    ensures
        r is Err <==> raw == -1,
{
    if raw == -1 {
        Err(last_errno())
    } else {
        Ok(())
    }
}

/// The length argument of `send` and `recv`.
pub fn send_recv_len(len: usize) -> (r: usize)
    ensures
        r == len,
{
    len
}

/// The result of `send` and `recv`.
pub fn ret_send_recv(len: isize) -> (r: Result<isize, Errno>)
    ensures
        r is Err <==> len == -1,
        len != -1 ==> r == Ok::<isize, Errno>(len),
{
    ret_ssize_t(len)
}

} // verus!
