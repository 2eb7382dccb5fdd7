//! The per-platform errno tables: for each supported (operating system,
//! architecture) pair, the exact numeric assignment of every named error
//! code, kept as plain data so it can be audited against the platform's
//! own headers.
//!
//! The portable names are defined on every supported platform; the four
//! streams-related extension names exist only on Linux and macOS, so their
//! lookup returns nothing on the platforms that lack them.

use vstd::prelude::*;

use crate::code::ErrorCode;

verus! {

/// A supported (operating system, architecture) pair with its own errno
/// numbering. Linux shares one numbering across the x86 family but uses a
/// different one on MIPS; FreeBSD and macOS each have a single table.
#[derive(Clone, Copy, PartialEq, Eq, Structural, Debug)]
pub enum Platform {
    FreeBsd,
    LinuxX86,
    LinuxMips,
    MacOs,
}

/// The portable errno names, available on every supported platform.
#[allow(non_camel_case_types)]
#[derive(Clone, Copy, PartialEq, Eq, Structural, Debug)]
pub enum Errno {
    E2BIG,
    EACCES,
    EADDRINUSE,
    EADDRNOTAVAIL,
    EAFNOSUPPORT,
    EAGAIN,
    EALREADY,
    EBADF,
    EBADMSG,
    EBUSY,
    ECANCELED,
    ECHILD,
    ECONNABORTED,
    ECONNREFUSED,
    ECONNRESET,
    EDEADLK,
    EDESTADDRREQ,
    EDOM,
    EDQUOT,
    EEXIST,
    EFAULT,
    EFBIG,
    EHOSTUNREACH,
    EIDRM,
    EILSEQ,
    EINPROGRESS,
    EINTR,
    EINVAL,
    EIO,
    EISCONN,
    EISDIR,
    ELOOP,
    EMFILE,
    EMLINK,
    EMSGSIZE,
    EMULTIHOP,
    ENAMETOOLONG,
    ENETDOWN,
    ENETRESET,
    ENETUNREACH,
    ENFILE,
    ENOBUFS,
    ENODEV,
    ENOENT,
    ENOEXEC,
    ENOLCK,
    ENOLINK,
    ENOMEM,
    ENOMSG,
    ENOPROTOOPT,
    ENOSPC,
    ENOSYS,
    ENOTCONN,
    ENOTDIR,
    ENOTEMPTY,
    ENOTRECOVERABLE,
    ENOTSOCK,
    ENOTSUP,
    ENOTTY,
    ENXIO,
    EOPNOTSUPP,
    EOVERFLOW,
    EOWNERDEAD,
    EPERM,
    EPIPE,
    EPROTO,
    EPROTONOSUPPORT,
    EPROTOTYPE,
    ERANGE,
    EROFS,
    ESPIPE,
    ESRCH,
    ESTALE,
    ETIMEDOUT,
    ETXTBSY,
    EWOULDBLOCK,
    EXDEV,
}

/// The streams-related extension names, defined only on Linux and macOS.
#[allow(non_camel_case_types)]
#[derive(Clone, Copy, PartialEq, Eq, Structural, Debug)]
pub enum ExtErrno {
    ENODATA,
    ENOSR,
    ENOSTR,
    ETIME,
}

/// The platform whose table the named constants on [`ErrorCode`] resolve
/// against.
pub open spec fn build_platform() -> Platform {
    Platform::LinuxX86
}

/// The build platform as a runtime value.
pub fn current_platform() -> (p: Platform)
    ensures
        p == build_platform(),
{
    Platform::LinuxX86
}

/// The errno numbering of FreeBSD.
pub open spec fn freebsd_value(e: Errno) -> u16 {
    match e {
        Errno::E2BIG => 7,
        Errno::EACCES => 13,
        Errno::EADDRINUSE => 48,
        Errno::EADDRNOTAVAIL => 49,
        Errno::EAFNOSUPPORT => 47,
        Errno::EAGAIN => 35,
        Errno::EALREADY => 37,
        Errno::EBADF => 9,
        Errno::EBADMSG => 89,
        Errno::EBUSY => 16,
        Errno::ECANCELED => 85,
        Errno::ECHILD => 10,
        Errno::ECONNABORTED => 53,
        Errno::ECONNREFUSED => 61,
        Errno::ECONNRESET => 54,
        Errno::EDEADLK => 11,
        Errno::EDESTADDRREQ => 39,
        Errno::EDOM => 33,
        Errno::EDQUOT => 69,
        Errno::EEXIST => 17,
        Errno::EFAULT => 14,
        Errno::EFBIG => 27,
        Errno::EHOSTUNREACH => 65,
        Errno::EIDRM => 82,
        Errno::EILSEQ => 86,
        Errno::EINPROGRESS => 36,
        Errno::EINTR => 4,
        Errno::EINVAL => 22,
        Errno::EIO => 5,
        Errno::EISCONN => 56,
        Errno::EISDIR => 21,
        Errno::ELOOP => 62,
        Errno::EMFILE => 24,
        Errno::EMLINK => 31,
        Errno::EMSGSIZE => 40,
        Errno::EMULTIHOP => 90,
        Errno::ENAMETOOLONG => 63,
        Errno::ENETDOWN => 50,
        Errno::ENETRESET => 52,
        Errno::ENETUNREACH => 51,
        Errno::ENFILE => 23,
        Errno::ENOBUFS => 55,
        Errno::ENODEV => 19,
        Errno::ENOENT => 2,
        Errno::ENOEXEC => 8,
        Errno::ENOLCK => 77,
        Errno::ENOLINK => 91,
        Errno::ENOMEM => 12,
        Errno::ENOMSG => 83,
        Errno::ENOPROTOOPT => 42,
        Errno::ENOSPC => 28,
        Errno::ENOSYS => 78,
        Errno::ENOTCONN => 57,
        Errno::ENOTDIR => 20,
        Errno::ENOTEMPTY => 66,
        Errno::ENOTRECOVERABLE => 95,
        Errno::ENOTSOCK => 38,
        Errno::ENOTSUP => 45,
        Errno::ENOTTY => 25,
        Errno::ENXIO => 6,
        Errno::EOPNOTSUPP => 45,
        Errno::EOVERFLOW => 84,
        Errno::EOWNERDEAD => 96,
        Errno::EPERM => 1,
        Errno::EPIPE => 32,
        Errno::EPROTO => 92,
        Errno::EPROTONOSUPPORT => 43,
        Errno::EPROTOTYPE => 41,
        Errno::ERANGE => 34,
        Errno::EROFS => 30,
        Errno::ESPIPE => 29,
        Errno::ESRCH => 3,
        Errno::ESTALE => 70,
        Errno::ETIMEDOUT => 60,
        Errno::ETXTBSY => 26,
        Errno::EWOULDBLOCK => 35,
        Errno::EXDEV => 18,
    }
}

/// The errno numbering of Linux on the x86 family.
pub open spec fn linux_x86_value(e: Errno) -> u16 {
    match e {
        Errno::E2BIG => 7,
        Errno::EACCES => 13,
        Errno::EADDRINUSE => 98,
        Errno::EADDRNOTAVAIL => 99,
        Errno::EAFNOSUPPORT => 97,
        Errno::EAGAIN => 11,
        Errno::EALREADY => 114,
        Errno::EBADF => 9,
        Errno::EBADMSG => 74,
        Errno::EBUSY => 16,
        Errno::ECANCELED => 125,
        Errno::ECHILD => 10,
        Errno::ECONNABORTED => 103,
        Errno::ECONNREFUSED => 111,
        Errno::ECONNRESET => 104,
        Errno::EDEADLK => 35,
        Errno::EDESTADDRREQ => 89,
        Errno::EDOM => 33,
        Errno::EDQUOT => 122,
        Errno::EEXIST => 17,
        Errno::EFAULT => 14,
        Errno::EFBIG => 27,
        Errno::EHOSTUNREACH => 113,
        Errno::EIDRM => 43,
        Errno::EILSEQ => 84,
        Errno::EINPROGRESS => 115,
        Errno::EINTR => 4,
        Errno::EINVAL => 22,
        Errno::EIO => 5,
        Errno::EISCONN => 106,
        Errno::EISDIR => 21,
        Errno::ELOOP => 40,
        Errno::EMFILE => 24,
        Errno::EMLINK => 31,
        Errno::EMSGSIZE => 90,
        Errno::EMULTIHOP => 72,
        Errno::ENAMETOOLONG => 36,
        Errno::ENETDOWN => 100,
        Errno::ENETRESET => 102,
        Errno::ENETUNREACH => 101,
        Errno::ENFILE => 23,
        Errno::ENOBUFS => 105,
        Errno::ENODEV => 19,
        Errno::ENOENT => 2,
        Errno::ENOEXEC => 8,
        Errno::ENOLCK => 37,
        Errno::ENOLINK => 67,
        Errno::ENOMEM => 12,
        Errno::ENOMSG => 42,
        Errno::ENOPROTOOPT => 92,
        Errno::ENOSPC => 28,
        Errno::ENOSYS => 38,
        Errno::ENOTCONN => 107,
        Errno::ENOTDIR => 20,
        Errno::ENOTEMPTY => 39,
        Errno::ENOTRECOVERABLE => 131,
        Errno::ENOTSOCK => 88,
        Errno::ENOTSUP => 95,
        Errno::ENOTTY => 25,
        Errno::ENXIO => 6,
        Errno::EOPNOTSUPP => 95,
        Errno::EOVERFLOW => 75,
        Errno::EOWNERDEAD => 130,
        Errno::EPERM => 1,
        Errno::EPIPE => 32,
        Errno::EPROTO => 71,
        Errno::EPROTONOSUPPORT => 93,
        Errno::EPROTOTYPE => 91,
        Errno::ERANGE => 34,
        Errno::EROFS => 30,
        Errno::ESPIPE => 29,
        Errno::ESRCH => 3,
        Errno::ESTALE => 116,
        Errno::ETIMEDOUT => 110,
        Errno::ETXTBSY => 26,
        Errno::EWOULDBLOCK => 11,
        Errno::EXDEV => 18,
    }
}

/// The errno numbering of Linux on MIPS.
pub open spec fn linux_mips_value(e: Errno) -> u16 {
    match e {
        Errno::E2BIG => 7,
        Errno::EACCES => 13,
        Errno::EADDRINUSE => 125,
        Errno::EADDRNOTAVAIL => 126,
        Errno::EAFNOSUPPORT => 124,
        Errno::EAGAIN => 11,
        Errno::EALREADY => 149,
        Errno::EBADF => 9,
        Errno::EBADMSG => 77,
        Errno::EBUSY => 16,
        Errno::ECANCELED => 158,
        Errno::ECHILD => 10,
        Errno::ECONNABORTED => 130,
        Errno::ECONNREFUSED => 146,
        Errno::ECONNRESET => 131,
        Errno::EDEADLK => 45,
        Errno::EDESTADDRREQ => 96,
        Errno::EDOM => 33,
        Errno::EDQUOT => 1133,
        Errno::EEXIST => 17,
        Errno::EFAULT => 14,
        Errno::EFBIG => 27,
        Errno::EHOSTUNREACH => 148,
        Errno::EIDRM => 36,
        Errno::EILSEQ => 88,
        Errno::EINPROGRESS => 150,
        Errno::EINTR => 4,
        Errno::EINVAL => 22,
        Errno::EIO => 5,
        Errno::EISCONN => 133,
        Errno::EISDIR => 21,
        Errno::ELOOP => 90,
        Errno::EMFILE => 24,
        Errno::EMLINK => 31,
        Errno::EMSGSIZE => 97,
        Errno::EMULTIHOP => 74,
        Errno::ENAMETOOLONG => 78,
        Errno::ENETDOWN => 127,
        Errno::ENETRESET => 129,
        Errno::ENETUNREACH => 128,
        Errno::ENFILE => 23,
        Errno::ENOBUFS => 132,
        Errno::ENODEV => 19,
        Errno::ENOENT => 2,
        Errno::ENOEXEC => 8,
        Errno::ENOLCK => 46,
        Errno::ENOLINK => 67,
        Errno::ENOMEM => 12,
        Errno::ENOMSG => 35,
        Errno::ENOPROTOOPT => 99,
        Errno::ENOSPC => 28,
        Errno::ENOSYS => 89,
        Errno::ENOTCONN => 134,
        Errno::ENOTDIR => 20,
        Errno::ENOTEMPTY => 93,
        Errno::ENOTRECOVERABLE => 166,
        Errno::ENOTSOCK => 95,
        Errno::ENOTSUP => 122,
        Errno::ENOTTY => 25,
        Errno::ENXIO => 6,
        Errno::EOPNOTSUPP => 122,
        Errno::EOVERFLOW => 79,
        Errno::EOWNERDEAD => 165,
        Errno::EPERM => 1,
        Errno::EPIPE => 32,
        Errno::EPROTO => 71,
        Errno::EPROTONOSUPPORT => 120,
        Errno::EPROTOTYPE => 98,
        Errno::ERANGE => 34,
        Errno::EROFS => 30,
        Errno::ESPIPE => 29,
        Errno::ESRCH => 3,
        Errno::ESTALE => 151,
        Errno::ETIMEDOUT => 145,
        Errno::ETXTBSY => 26,
        Errno::EWOULDBLOCK => 11,
        Errno::EXDEV => 18,
    }
}

/// The errno numbering of macOS.
pub open spec fn macos_value(e: Errno) -> u16 {
    match e {
        Errno::E2BIG => 7,
        Errno::EACCES => 13,
        Errno::EADDRINUSE => 48,
        Errno::EADDRNOTAVAIL => 49,
        Errno::EAFNOSUPPORT => 47,
        Errno::EAGAIN => 35,
        Errno::EALREADY => 37,
        Errno::EBADF => 9,
        Errno::EBADMSG => 94,
        Errno::EBUSY => 16,
        Errno::ECANCELED => 89,
        Errno::ECHILD => 10,
        Errno::ECONNABORTED => 53,
        Errno::ECONNREFUSED => 61,
        Errno::ECONNRESET => 54,
        Errno::EDEADLK => 11,
        Errno::EDESTADDRREQ => 39,
        Errno::EDOM => 33,
        Errno::EDQUOT => 69,
        Errno::EEXIST => 17,
        Errno::EFAULT => 14,
        Errno::EFBIG => 27,
        Errno::EHOSTUNREACH => 65,
        Errno::EIDRM => 90,
        Errno::EILSEQ => 92,
        Errno::EINPROGRESS => 36,
        Errno::EINTR => 4,
        Errno::EINVAL => 22,
        Errno::EIO => 5,
        Errno::EISCONN => 56,
        Errno::EISDIR => 21,
        Errno::ELOOP => 62,
        Errno::EMFILE => 24,
        Errno::EMLINK => 31,
        Errno::EMSGSIZE => 40,
        Errno::EMULTIHOP => 95,
        Errno::ENAMETOOLONG => 63,
        Errno::ENETDOWN => 50,
        Errno::ENETRESET => 52,
        Errno::ENETUNREACH => 51,
        Errno::ENFILE => 23,
        Errno::ENOBUFS => 55,
        Errno::ENODEV => 19,
        Errno::ENOENT => 2,
        Errno::ENOEXEC => 8,
        Errno::ENOLCK => 77,
        Errno::ENOLINK => 97,
        Errno::ENOMEM => 12,
        Errno::ENOMSG => 91,
        Errno::ENOPROTOOPT => 42,
        Errno::ENOSPC => 28,
        Errno::ENOSYS => 78,
        Errno::ENOTCONN => 57,
        Errno::ENOTDIR => 20,
        Errno::ENOTEMPTY => 66,
        Errno::ENOTRECOVERABLE => 104,
        Errno::ENOTSOCK => 38,
        Errno::ENOTSUP => 45,
        Errno::ENOTTY => 25,
        Errno::ENXIO => 6,
        Errno::EOPNOTSUPP => 102,
        Errno::EOVERFLOW => 84,
        Errno::EOWNERDEAD => 105,
        Errno::EPERM => 1,
        Errno::EPIPE => 32,
        Errno::EPROTO => 100,
        Errno::EPROTONOSUPPORT => 43,
        Errno::EPROTOTYPE => 41,
        Errno::ERANGE => 34,
        Errno::EROFS => 30,
        Errno::ESPIPE => 29,
        Errno::ESRCH => 3,
        Errno::ESTALE => 70,
        Errno::ETIMEDOUT => 60,
        Errno::ETXTBSY => 26,
        Errno::EWOULDBLOCK => 35,
        Errno::EXDEV => 18,
    }
}

fn freebsd_magnitude(e: Errno) -> (r: u16)
    ensures
        r == freebsd_value(e),
        r != 0,
{
    match e {
        Errno::E2BIG => 7,
        Errno::EACCES => 13,
        Errno::EADDRINUSE => 48,
        Errno::EADDRNOTAVAIL => 49,
        Errno::EAFNOSUPPORT => 47,
        Errno::EAGAIN => 35,
        Errno::EALREADY => 37,
        Errno::EBADF => 9,
        Errno::EBADMSG => 89,
        Errno::EBUSY => 16,
        Errno::ECANCELED => 85,
        Errno::ECHILD => 10,
        Errno::ECONNABORTED => 53,
        Errno::ECONNREFUSED => 61,
        Errno::ECONNRESET => 54,
        Errno::EDEADLK => 11,
        Errno::EDESTADDRREQ => 39,
        Errno::EDOM => 33,
        Errno::EDQUOT => 69,
        Errno::EEXIST => 17,
        Errno::EFAULT => 14,
        Errno::EFBIG => 27,
        Errno::EHOSTUNREACH => 65,
        Errno::EIDRM => 82,
        Errno::EILSEQ => 86,
        Errno::EINPROGRESS => 36,
        Errno::EINTR => 4,
        Errno::EINVAL => 22,
        Errno::EIO => 5,
        Errno::EISCONN => 56,
        Errno::EISDIR => 21,
        Errno::ELOOP => 62,
        Errno::EMFILE => 24,
        Errno::EMLINK => 31,
        Errno::EMSGSIZE => 40,
        Errno::EMULTIHOP => 90,
        Errno::ENAMETOOLONG => 63,
        Errno::ENETDOWN => 50,
        Errno::ENETRESET => 52,
        Errno::ENETUNREACH => 51,
        Errno::ENFILE => 23,
        Errno::ENOBUFS => 55,
        Errno::ENODEV => 19,
        Errno::ENOENT => 2,
        Errno::ENOEXEC => 8,
        Errno::ENOLCK => 77,
        Errno::ENOLINK => 91,
        Errno::ENOMEM => 12,
        Errno::ENOMSG => 83,
        Errno::ENOPROTOOPT => 42,
        Errno::ENOSPC => 28,
        Errno::ENOSYS => 78,
        Errno::ENOTCONN => 57,
        Errno::ENOTDIR => 20,
        Errno::ENOTEMPTY => 66,
        Errno::ENOTRECOVERABLE => 95,
        Errno::ENOTSOCK => 38,
        Errno::ENOTSUP => 45,
        Errno::ENOTTY => 25,
        Errno::ENXIO => 6,
        Errno::EOPNOTSUPP => 45,
        Errno::EOVERFLOW => 84,
        Errno::EOWNERDEAD => 96,
        Errno::EPERM => 1,
        Errno::EPIPE => 32,
        Errno::EPROTO => 92,
        Errno::EPROTONOSUPPORT => 43,
        Errno::EPROTOTYPE => 41,
        Errno::ERANGE => 34,
        Errno::EROFS => 30,
        Errno::ESPIPE => 29,
        Errno::ESRCH => 3,
        Errno::ESTALE => 70,
        Errno::ETIMEDOUT => 60,
        Errno::ETXTBSY => 26,
        Errno::EWOULDBLOCK => 35,
        Errno::EXDEV => 18,
    }
}

fn linux_x86_magnitude(e: Errno) -> (r: u16)
    ensures
        r == linux_x86_value(e),
        r != 0,
{
    match e {
        Errno::E2BIG => 7,
        Errno::EACCES => 13,
        Errno::EADDRINUSE => 98,
        Errno::EADDRNOTAVAIL => 99,
        Errno::EAFNOSUPPORT => 97,
        Errno::EAGAIN => 11,
        Errno::EALREADY => 114,
        Errno::EBADF => 9,
        Errno::EBADMSG => 74,
        Errno::EBUSY => 16,
        Errno::ECANCELED => 125,
        Errno::ECHILD => 10,
        Errno::ECONNABORTED => 103,
        Errno::ECONNREFUSED => 111,
        Errno::ECONNRESET => 104,
        Errno::EDEADLK => 35,
        Errno::EDESTADDRREQ => 89,
        Errno::EDOM => 33,
        Errno::EDQUOT => 122,
        Errno::EEXIST => 17,
        Errno::EFAULT => 14,
        Errno::EFBIG => 27,
        Errno::EHOSTUNREACH => 113,
        Errno::EIDRM => 43,
        Errno::EILSEQ => 84,
        Errno::EINPROGRESS => 115,
        Errno::EINTR => 4,
        Errno::EINVAL => 22,
        Errno::EIO => 5,
        Errno::EISCONN => 106,
        Errno::EISDIR => 21,
        Errno::ELOOP => 40,
        Errno::EMFILE => 24,
        Errno::EMLINK => 31,
        Errno::EMSGSIZE => 90,
        Errno::EMULTIHOP => 72,
        Errno::ENAMETOOLONG => 36,
        Errno::ENETDOWN => 100,
        Errno::ENETRESET => 102,
        Errno::ENETUNREACH => 101,
        Errno::ENFILE => 23,
        Errno::ENOBUFS => 105,
        Errno::ENODEV => 19,
        Errno::ENOENT => 2,
        Errno::ENOEXEC => 8,
        Errno::ENOLCK => 37,
        Errno::ENOLINK => 67,
        Errno::ENOMEM => 12,
        Errno::ENOMSG => 42,
        Errno::ENOPROTOOPT => 92,
        Errno::ENOSPC => 28,
        Errno::ENOSYS => 38,
        Errno::ENOTCONN => 107,
        Errno::ENOTDIR => 20,
        Errno::ENOTEMPTY => 39,
        Errno::ENOTRECOVERABLE => 131,
        Errno::ENOTSOCK => 88,
        Errno::ENOTSUP => 95,
        Errno::ENOTTY => 25,
        Errno::ENXIO => 6,
        Errno::EOPNOTSUPP => 95,
        Errno::EOVERFLOW => 75,
        Errno::EOWNERDEAD => 130,
        Errno::EPERM => 1,
        Errno::EPIPE => 32,
        Errno::EPROTO => 71,
        Errno::EPROTONOSUPPORT => 93,
        Errno::EPROTOTYPE => 91,
        Errno::ERANGE => 34,
        Errno::EROFS => 30,
        Errno::ESPIPE => 29,
        Errno::ESRCH => 3,
        Errno::ESTALE => 116,
        Errno::ETIMEDOUT => 110,
        Errno::ETXTBSY => 26,
        Errno::EWOULDBLOCK => 11,
        Errno::EXDEV => 18,
    }
}

fn linux_mips_magnitude(e: Errno) -> (r: u16)
    ensures
        r == linux_mips_value(e),
        r != 0,
{
    match e {
        Errno::E2BIG => 7,
        Errno::EACCES => 13,
        Errno::EADDRINUSE => 125,
        Errno::EADDRNOTAVAIL => 126,
        Errno::EAFNOSUPPORT => 124,
        Errno::EAGAIN => 11,
        Errno::EALREADY => 149,
        Errno::EBADF => 9,
        Errno::EBADMSG => 77,
        Errno::EBUSY => 16,
        Errno::ECANCELED => 158,
        Errno::ECHILD => 10,
        Errno::ECONNABORTED => 130,
        Errno::ECONNREFUSED => 146,
        Errno::ECONNRESET => 131,
        Errno::EDEADLK => 45,
        Errno::EDESTADDRREQ => 96,
        Errno::EDOM => 33,
        Errno::EDQUOT => 1133,
        Errno::EEXIST => 17,
        Errno::EFAULT => 14,
        Errno::EFBIG => 27,
        Errno::EHOSTUNREACH => 148,
        Errno::EIDRM => 36,
        Errno::EILSEQ => 88,
        Errno::EINPROGRESS => 150,
        Errno::EINTR => 4,
        Errno::EINVAL => 22,
        Errno::EIO => 5,
        Errno::EISCONN => 133,
        Errno::EISDIR => 21,
        Errno::ELOOP => 90,
        Errno::EMFILE => 24,
        Errno::EMLINK => 31,
        Errno::EMSGSIZE => 97,
        Errno::EMULTIHOP => 74,
        Errno::ENAMETOOLONG => 78,
        Errno::ENETDOWN => 127,
        Errno::ENETRESET => 129,
        Errno::ENETUNREACH => 128,
        Errno::ENFILE => 23,
        Errno::ENOBUFS => 132,
        Errno::ENODEV => 19,
        Errno::ENOENT => 2,
        Errno::ENOEXEC => 8,
        Errno::ENOLCK => 46,
        Errno::ENOLINK => 67,
        Errno::ENOMEM => 12,
        Errno::ENOMSG => 35,
        Errno::ENOPROTOOPT => 99,
        Errno::ENOSPC => 28,
        Errno::ENOSYS => 89,
        Errno::ENOTCONN => 134,
        Errno::ENOTDIR => 20,
        Errno::ENOTEMPTY => 93,
        Errno::ENOTRECOVERABLE => 166,
        Errno::ENOTSOCK => 95,
        Errno::ENOTSUP => 122,
        Errno::ENOTTY => 25,
        Errno::ENXIO => 6,
        Errno::EOPNOTSUPP => 122,
        Errno::EOVERFLOW => 79,
        Errno::EOWNERDEAD => 165,
        Errno::EPERM => 1,
        Errno::EPIPE => 32,
        Errno::EPROTO => 71,
        Errno::EPROTONOSUPPORT => 120,
        Errno::EPROTOTYPE => 98,
        Errno::ERANGE => 34,
        Errno::EROFS => 30,
        Errno::ESPIPE => 29,
        Errno::ESRCH => 3,
        Errno::ESTALE => 151,
        Errno::ETIMEDOUT => 145,
        Errno::ETXTBSY => 26,
        Errno::EWOULDBLOCK => 11,
        Errno::EXDEV => 18,
    }
}

fn macos_magnitude(e: Errno) -> (r: u16)
    ensures
        r == macos_value(e),
        r != 0,
{
    match e {
        Errno::E2BIG => 7,
        Errno::EACCES => 13,
        Errno::EADDRINUSE => 48,
        Errno::EADDRNOTAVAIL => 49,
        Errno::EAFNOSUPPORT => 47,
        Errno::EAGAIN => 35,
        Errno::EALREADY => 37,
        Errno::EBADF => 9,
        Errno::EBADMSG => 94,
        Errno::EBUSY => 16,
        Errno::ECANCELED => 89,
        Errno::ECHILD => 10,
        Errno::ECONNABORTED => 53,
        Errno::ECONNREFUSED => 61,
        Errno::ECONNRESET => 54,
        Errno::EDEADLK => 11,
        Errno::EDESTADDRREQ => 39,
        Errno::EDOM => 33,
        Errno::EDQUOT => 69,
        Errno::EEXIST => 17,
        Errno::EFAULT => 14,
        Errno::EFBIG => 27,
        Errno::EHOSTUNREACH => 65,
        Errno::EIDRM => 90,
        Errno::EILSEQ => 92,
        Errno::EINPROGRESS => 36,
        Errno::EINTR => 4,
        Errno::EINVAL => 22,
        Errno::EIO => 5,
        Errno::EISCONN => 56,
        Errno::EISDIR => 21,
        Errno::ELOOP => 62,
        Errno::EMFILE => 24,
        Errno::EMLINK => 31,
        Errno::EMSGSIZE => 40,
        Errno::EMULTIHOP => 95,
        Errno::ENAMETOOLONG => 63,
        Errno::ENETDOWN => 50,
        Errno::ENETRESET => 52,
        Errno::ENETUNREACH => 51,
        Errno::ENFILE => 23,
        Errno::ENOBUFS => 55,
        Errno::ENODEV => 19,
        Errno::ENOENT => 2,
        Errno::ENOEXEC => 8,
        Errno::ENOLCK => 77,
        Errno::ENOLINK => 97,
        Errno::ENOMEM => 12,
        Errno::ENOMSG => 91,
        Errno::ENOPROTOOPT => 42,
        Errno::ENOSPC => 28,
        Errno::ENOSYS => 78,
        Errno::ENOTCONN => 57,
        Errno::ENOTDIR => 20,
        Errno::ENOTEMPTY => 66,
        Errno::ENOTRECOVERABLE => 104,
        Errno::ENOTSOCK => 38,
        Errno::ENOTSUP => 45,
        Errno::ENOTTY => 25,
        Errno::ENXIO => 6,
        Errno::EOPNOTSUPP => 102,
        Errno::EOVERFLOW => 84,
        Errno::EOWNERDEAD => 105,
        Errno::EPERM => 1,
        Errno::EPIPE => 32,
        Errno::EPROTO => 100,
        Errno::EPROTONOSUPPORT => 43,
        Errno::EPROTOTYPE => 41,
        Errno::ERANGE => 34,
        Errno::EROFS => 30,
        Errno::ESPIPE => 29,
        Errno::ESRCH => 3,
        Errno::ESTALE => 70,
        Errno::ETIMEDOUT => 60,
        Errno::ETXTBSY => 26,
        Errno::EWOULDBLOCK => 35,
        Errno::EXDEV => 18,
    }
}

/// The numeric value assigned to the portable name `e` on platform `p`.
pub open spec fn errno_value(p: Platform, e: Errno) -> u16 {
    match p {
        Platform::FreeBsd => freebsd_value(e),
        Platform::LinuxX86 => linux_x86_value(e),
        Platform::LinuxMips => linux_mips_value(e),
        Platform::MacOs => macos_value(e),
    }
}

/// Looks the portable name `e` up in the table of platform `p`.
pub fn errno_code(p: Platform, e: Errno) -> (r: ErrorCode)
    ensures
        r.magnitude() == errno_value(p, e),
{
    let v: u16 = match p {
        Platform::FreeBsd => freebsd_magnitude(e),
        Platform::LinuxX86 => linux_x86_magnitude(e),
        Platform::LinuxMips => linux_mips_magnitude(e),
        Platform::MacOs => macos_magnitude(e),
    };
    ErrorCode::new(v)
}

/// The extension numbering shared by the Linux tables.
pub open spec fn linux_ext_value(e: ExtErrno) -> u16 {
    match e {
        ExtErrno::ENODATA => 61,
        ExtErrno::ENOSR => 63,
        ExtErrno::ENOSTR => 60,
        ExtErrno::ETIME => 62,
    }
}

/// The extension numbering of macOS.
pub open spec fn macos_ext_value(e: ExtErrno) -> u16 {
    match e {
        ExtErrno::ENODATA => 96,
        ExtErrno::ENOSR => 98,
        ExtErrno::ENOSTR => 99,
        ExtErrno::ETIME => 101,
    }
}

fn linux_ext_magnitude(e: ExtErrno) -> (r: u16)
    ensures
        r == linux_ext_value(e),
        r != 0,
{
    match e {
        ExtErrno::ENODATA => 61,
        ExtErrno::ENOSR => 63,
        ExtErrno::ENOSTR => 60,
        ExtErrno::ETIME => 62,
    }
}

fn macos_ext_magnitude(e: ExtErrno) -> (r: u16)
    ensures
        r == macos_ext_value(e),
        r != 0,
{
    match e {
        ExtErrno::ENODATA => 96,
        ExtErrno::ENOSR => 98,
        ExtErrno::ENOSTR => 99,
        ExtErrno::ETIME => 101,
    }
}

/// The numeric value assigned to the extension name `e` on platform `p`,
/// or nothing where that platform does not define it.
pub open spec fn ext_errno_value(p: Platform, e: ExtErrno) -> Option<u16> {
    match p {
        Platform::FreeBsd => None,
        Platform::LinuxX86 => Some(linux_ext_value(e)),
        Platform::LinuxMips => Some(linux_ext_value(e)),
        Platform::MacOs => Some(macos_ext_value(e)),
    }
}

/// Looks the extension name `e` up in the table of platform `p`.
pub fn ext_errno_code(p: Platform, e: ExtErrno) -> (r: Option<ErrorCode>)
    ensures
        r is Some <==> ext_errno_value(p, e) is Some,
        (match (r, ext_errno_value(p, e)) {
            (Some(c), Some(v)) => c.magnitude() == v,
            _ => true,
        }),
{
    match p {
        Platform::FreeBsd => None,
        Platform::LinuxX86 => Some(ErrorCode::new(linux_ext_magnitude(e))),
        Platform::LinuxMips => Some(ErrorCode::new(linux_ext_magnitude(e))),
        Platform::MacOs => Some(ErrorCode::new(macos_ext_magnitude(e))),
    }
}

/// The named portable constants, resolved against the build platform's
/// table.
#[allow(non_snake_case)]
impl ErrorCode {
    /// `E2BIG` on the build platform.
    pub fn E2BIG() -> (r: ErrorCode)
        ensures
            r.magnitude() == errno_value(build_platform(), Errno::E2BIG),
    {
        errno_code(Platform::LinuxX86, Errno::E2BIG)
    }

    /// `EACCES` on the build platform.
    pub fn EACCES() -> (r: ErrorCode)
        ensures
            r.magnitude() == errno_value(build_platform(), Errno::EACCES),
    {
        errno_code(Platform::LinuxX86, Errno::EACCES)
    }

    /// `EADDRINUSE` on the build platform.
    pub fn EADDRINUSE() -> (r: ErrorCode)
        ensures
            r.magnitude() == errno_value(build_platform(), Errno::EADDRINUSE),
    {
        errno_code(Platform::LinuxX86, Errno::EADDRINUSE)
    }

    /// `EADDRNOTAVAIL` on the build platform.
    pub fn EADDRNOTAVAIL() -> (r: ErrorCode)
        ensures
            r.magnitude() == errno_value(build_platform(), Errno::EADDRNOTAVAIL),
    {
        errno_code(Platform::LinuxX86, Errno::EADDRNOTAVAIL)
    }

    /// `EAFNOSUPPORT` on the build platform.
    pub fn EAFNOSUPPORT() -> (r: ErrorCode)
        ensures
            r.magnitude() == errno_value(build_platform(), Errno::EAFNOSUPPORT),
    {
        errno_code(Platform::LinuxX86, Errno::EAFNOSUPPORT)
    }

    /// `EAGAIN` on the build platform.
    pub fn EAGAIN() -> (r: ErrorCode)
        ensures
            r.magnitude() == errno_value(build_platform(), Errno::EAGAIN),
    {
        errno_code(Platform::LinuxX86, Errno::EAGAIN)
    }

    /// `EALREADY` on the build platform.
    pub fn EALREADY() -> (r: ErrorCode)
        ensures
            r.magnitude() == errno_value(build_platform(), Errno::EALREADY),
    {
        errno_code(Platform::LinuxX86, Errno::EALREADY)
    }

    /// `EBADF` on the build platform.
    pub fn EBADF() -> (r: ErrorCode)
        ensures
            r.magnitude() == errno_value(build_platform(), Errno::EBADF),
    {
        errno_code(Platform::LinuxX86, Errno::EBADF)
    }

    /// `EBADMSG` on the build platform.
    pub fn EBADMSG() -> (r: ErrorCode)
        ensures
            r.magnitude() == errno_value(build_platform(), Errno::EBADMSG),
    {
        errno_code(Platform::LinuxX86, Errno::EBADMSG)
    }

    /// `EBUSY` on the build platform.
    pub fn EBUSY() -> (r: ErrorCode)
        ensures
            r.magnitude() == errno_value(build_platform(), Errno::EBUSY),
    {
        errno_code(Platform::LinuxX86, Errno::EBUSY)
    }

    /// `ECANCELED` on the build platform.
    pub fn ECANCELED() -> (r: ErrorCode)
        ensures
            r.magnitude() == errno_value(build_platform(), Errno::ECANCELED),
    {
        errno_code(Platform::LinuxX86, Errno::ECANCELED)
    }

    /// `ECHILD` on the build platform.
    pub fn ECHILD() -> (r: ErrorCode)
        ensures
            r.magnitude() == errno_value(build_platform(), Errno::ECHILD),
    {
        errno_code(Platform::LinuxX86, Errno::ECHILD)
    }

    /// `ECONNABORTED` on the build platform.
    pub fn ECONNABORTED() -> (r: ErrorCode)
        ensures
            r.magnitude() == errno_value(build_platform(), Errno::ECONNABORTED),
    {
        errno_code(Platform::LinuxX86, Errno::ECONNABORTED)
    }

    /// `ECONNREFUSED` on the build platform.
    pub fn ECONNREFUSED() -> (r: ErrorCode)
        ensures
            r.magnitude() == errno_value(build_platform(), Errno::ECONNREFUSED),
    {
        errno_code(Platform::LinuxX86, Errno::ECONNREFUSED)
    }

    /// `ECONNRESET` on the build platform.
    pub fn ECONNRESET() -> (r: ErrorCode)
        ensures
            r.magnitude() == errno_value(build_platform(), Errno::ECONNRESET),
    {
        errno_code(Platform::LinuxX86, Errno::ECONNRESET)
    }

    /// `EDEADLK` on the build platform.
    pub fn EDEADLK() -> (r: ErrorCode)
        ensures
            r.magnitude() == errno_value(build_platform(), Errno::EDEADLK),
    {
        errno_code(Platform::LinuxX86, Errno::EDEADLK)
    }

    /// `EDESTADDRREQ` on the build platform.
    pub fn EDESTADDRREQ() -> (r: ErrorCode)
        ensures
            r.magnitude() == errno_value(build_platform(), Errno::EDESTADDRREQ),
    {
        errno_code(Platform::LinuxX86, Errno::EDESTADDRREQ)
    }

    /// `EDOM` on the build platform.
    pub fn EDOM() -> (r: ErrorCode)
        ensures
            r.magnitude() == errno_value(build_platform(), Errno::EDOM),
    {
        errno_code(Platform::LinuxX86, Errno::EDOM)
    }

    /// `EDQUOT` on the build platform.
    pub fn EDQUOT() -> (r: ErrorCode)
        ensures
            r.magnitude() == errno_value(build_platform(), Errno::EDQUOT),
    {
        errno_code(Platform::LinuxX86, Errno::EDQUOT)
    }

    /// `EEXIST` on the build platform.
    pub fn EEXIST() -> (r: ErrorCode)
        ensures
            r.magnitude() == errno_value(build_platform(), Errno::EEXIST),
    {
        errno_code(Platform::LinuxX86, Errno::EEXIST)
    }

    /// `EFAULT` on the build platform.
    pub fn EFAULT() -> (r: ErrorCode)
        ensures
            r.magnitude() == errno_value(build_platform(), Errno::EFAULT),
    {
        errno_code(Platform::LinuxX86, Errno::EFAULT)
    }

    /// `EFBIG` on the build platform.
    pub fn EFBIG() -> (r: ErrorCode)
        ensures
            r.magnitude() == errno_value(build_platform(), Errno::EFBIG),
    {
        errno_code(Platform::LinuxX86, Errno::EFBIG)
    }

    /// `EHOSTUNREACH` on the build platform.
    pub fn EHOSTUNREACH() -> (r: ErrorCode)
        ensures
            r.magnitude() == errno_value(build_platform(), Errno::EHOSTUNREACH),
    {
        errno_code(Platform::LinuxX86, Errno::EHOSTUNREACH)
    }

    /// `EIDRM` on the build platform.
    pub fn EIDRM() -> (r: ErrorCode)
        ensures
            r.magnitude() == errno_value(build_platform(), Errno::EIDRM),
    {
        errno_code(Platform::LinuxX86, Errno::EIDRM)
    }

    /// `EILSEQ` on the build platform.
    pub fn EILSEQ() -> (r: ErrorCode)
        ensures
            r.magnitude() == errno_value(build_platform(), Errno::EILSEQ),
    {
        errno_code(Platform::LinuxX86, Errno::EILSEQ)
    }

    /// `EINPROGRESS` on the build platform.
    pub fn EINPROGRESS() -> (r: ErrorCode)
        ensures
            r.magnitude() == errno_value(build_platform(), Errno::EINPROGRESS),
    {
        errno_code(Platform::LinuxX86, Errno::EINPROGRESS)
    }

    /// `EINTR` on the build platform.
    pub fn EINTR() -> (r: ErrorCode)
        ensures
            r.magnitude() == errno_value(build_platform(), Errno::EINTR),
    {
        errno_code(Platform::LinuxX86, Errno::EINTR)
    }

    /// `EINVAL` on the build platform.
    pub fn EINVAL() -> (r: ErrorCode)
        ensures
            r.magnitude() == errno_value(build_platform(), Errno::EINVAL),
    {
        errno_code(Platform::LinuxX86, Errno::EINVAL)
    }

    /// `EIO` on the build platform.
    pub fn EIO() -> (r: ErrorCode)
        ensures
            r.magnitude() == errno_value(build_platform(), Errno::EIO),
    {
        errno_code(Platform::LinuxX86, Errno::EIO)
    }

    /// `EISCONN` on the build platform.
    pub fn EISCONN() -> (r: ErrorCode)
        ensures
            r.magnitude() == errno_value(build_platform(), Errno::EISCONN),
    {
        errno_code(Platform::LinuxX86, Errno::EISCONN)
    }

    /// `EISDIR` on the build platform.
    pub fn EISDIR() -> (r: ErrorCode)
        ensures
            r.magnitude() == errno_value(build_platform(), Errno::EISDIR),
    {
        errno_code(Platform::LinuxX86, Errno::EISDIR)
    }

    /// `ELOOP` on the build platform.
    pub fn ELOOP() -> (r: ErrorCode)
        ensures
            r.magnitude() == errno_value(build_platform(), Errno::ELOOP),
    {
        errno_code(Platform::LinuxX86, Errno::ELOOP)
    }

    /// `EMFILE` on the build platform.
    pub fn EMFILE() -> (r: ErrorCode)
        ensures
            r.magnitude() == errno_value(build_platform(), Errno::EMFILE),
    {
        errno_code(Platform::LinuxX86, Errno::EMFILE)
    }

    /// `EMLINK` on the build platform.
    pub fn EMLINK() -> (r: ErrorCode)
        ensures
            r.magnitude() == errno_value(build_platform(), Errno::EMLINK),
    {
        errno_code(Platform::LinuxX86, Errno::EMLINK)
    }

    /// `EMSGSIZE` on the build platform.
    pub fn EMSGSIZE() -> (r: ErrorCode)
        ensures
            r.magnitude() == errno_value(build_platform(), Errno::EMSGSIZE),
    {
        errno_code(Platform::LinuxX86, Errno::EMSGSIZE)
    }

    /// `EMULTIHOP` on the build platform.
    pub fn EMULTIHOP() -> (r: ErrorCode)
        ensures
            r.magnitude() == errno_value(build_platform(), Errno::EMULTIHOP),
    {
        errno_code(Platform::LinuxX86, Errno::EMULTIHOP)
    }

    /// `ENAMETOOLONG` on the build platform.
    pub fn ENAMETOOLONG() -> (r: ErrorCode)
        ensures
            r.magnitude() == errno_value(build_platform(), Errno::ENAMETOOLONG),
    {
        errno_code(Platform::LinuxX86, Errno::ENAMETOOLONG)
    }

    /// `ENETDOWN` on the build platform.
    pub fn ENETDOWN() -> (r: ErrorCode)
        ensures
            r.magnitude() == errno_value(build_platform(), Errno::ENETDOWN),
    {
        errno_code(Platform::LinuxX86, Errno::ENETDOWN)
    }

    /// `ENETRESET` on the build platform.
    pub fn ENETRESET() -> (r: ErrorCode)
        ensures
            r.magnitude() == errno_value(build_platform(), Errno::ENETRESET),
    {
        errno_code(Platform::LinuxX86, Errno::ENETRESET)
    }

    /// `ENETUNREACH` on the build platform.
    pub fn ENETUNREACH() -> (r: ErrorCode)
        ensures
            r.magnitude() == errno_value(build_platform(), Errno::ENETUNREACH),
    {
        errno_code(Platform::LinuxX86, Errno::ENETUNREACH)
    }

    /// `ENFILE` on the build platform.
    pub fn ENFILE() -> (r: ErrorCode)
        ensures
            r.magnitude() == errno_value(build_platform(), Errno::ENFILE),
    {
        errno_code(Platform::LinuxX86, Errno::ENFILE)
    }

    /// `ENOBUFS` on the build platform.
    pub fn ENOBUFS() -> (r: ErrorCode)
        ensures
            r.magnitude() == errno_value(build_platform(), Errno::ENOBUFS),
    {
        errno_code(Platform::LinuxX86, Errno::ENOBUFS)
    }

    /// `ENODEV` on the build platform.
    pub fn ENODEV() -> (r: ErrorCode)
        ensures
            r.magnitude() == errno_value(build_platform(), Errno::ENODEV),
    {
        errno_code(Platform::LinuxX86, Errno::ENODEV)
    }

    /// `ENOENT` on the build platform.
    pub fn ENOENT() -> (r: ErrorCode)
        ensures
            r.magnitude() == errno_value(build_platform(), Errno::ENOENT),
    {
        errno_code(Platform::LinuxX86, Errno::ENOENT)
    }

    /// `ENOEXEC` on the build platform.
    pub fn ENOEXEC() -> (r: ErrorCode)
        ensures
            r.magnitude() == errno_value(build_platform(), Errno::ENOEXEC),
    {
        errno_code(Platform::LinuxX86, Errno::ENOEXEC)
    }

    /// `ENOLCK` on the build platform.
    pub fn ENOLCK() -> (r: ErrorCode)
        ensures
            r.magnitude() == errno_value(build_platform(), Errno::ENOLCK),
    {
        errno_code(Platform::LinuxX86, Errno::ENOLCK)
    }

    /// `ENOLINK` on the build platform.
    pub fn ENOLINK() -> (r: ErrorCode)
        ensures
            r.magnitude() == errno_value(build_platform(), Errno::ENOLINK),
    {
        errno_code(Platform::LinuxX86, Errno::ENOLINK)
    }

    /// `ENOMEM` on the build platform.
    pub fn ENOMEM() -> (r: ErrorCode)
        ensures
            r.magnitude() == errno_value(build_platform(), Errno::ENOMEM),
    {
        errno_code(Platform::LinuxX86, Errno::ENOMEM)
    }

    /// `ENOMSG` on the build platform.
    pub fn ENOMSG() -> (r: ErrorCode)
        ensures
            r.magnitude() == errno_value(build_platform(), Errno::ENOMSG),
    {
        errno_code(Platform::LinuxX86, Errno::ENOMSG)
    }

    /// `ENOPROTOOPT` on the build platform.
    pub fn ENOPROTOOPT() -> (r: ErrorCode)
        ensures
            r.magnitude() == errno_value(build_platform(), Errno::ENOPROTOOPT),
    {
        errno_code(Platform::LinuxX86, Errno::ENOPROTOOPT)
    }

    /// `ENOSPC` on the build platform.
    pub fn ENOSPC() -> (r: ErrorCode)
        ensures
            r.magnitude() == errno_value(build_platform(), Errno::ENOSPC),
    {
        errno_code(Platform::LinuxX86, Errno::ENOSPC)
    }

    /// `ENOSYS` on the build platform.
    pub fn ENOSYS() -> (r: ErrorCode)
        ensures
            r.magnitude() == errno_value(build_platform(), Errno::ENOSYS),
    {
        errno_code(Platform::LinuxX86, Errno::ENOSYS)
    }

    /// `ENOTCONN` on the build platform.
    pub fn ENOTCONN() -> (r: ErrorCode)
        ensures
            r.magnitude() == errno_value(build_platform(), Errno::ENOTCONN),
    {
        errno_code(Platform::LinuxX86, Errno::ENOTCONN)
    }

    /// `ENOTDIR` on the build platform.
    pub fn ENOTDIR() -> (r: ErrorCode)
        ensures
            r.magnitude() == errno_value(build_platform(), Errno::ENOTDIR),
    {
        errno_code(Platform::LinuxX86, Errno::ENOTDIR)
    }

    /// `ENOTEMPTY` on the build platform.
    pub fn ENOTEMPTY() -> (r: ErrorCode)
        ensures
            r.magnitude() == errno_value(build_platform(), Errno::ENOTEMPTY),
    {
        errno_code(Platform::LinuxX86, Errno::ENOTEMPTY)
    }

    /// `ENOTRECOVERABLE` on the build platform.
    pub fn ENOTRECOVERABLE() -> (r: ErrorCode)
        ensures
            r.magnitude() == errno_value(build_platform(), Errno::ENOTRECOVERABLE),
    {
        errno_code(Platform::LinuxX86, Errno::ENOTRECOVERABLE)
    }

    /// `ENOTSOCK` on the build platform.
    pub fn ENOTSOCK() -> (r: ErrorCode)
        ensures
            r.magnitude() == errno_value(build_platform(), Errno::ENOTSOCK),
    {
        errno_code(Platform::LinuxX86, Errno::ENOTSOCK)
    }

    /// `ENOTSUP` on the build platform.
    pub fn ENOTSUP() -> (r: ErrorCode)
        ensures
            r.magnitude() == errno_value(build_platform(), Errno::ENOTSUP),
    {
        errno_code(Platform::LinuxX86, Errno::ENOTSUP)
    }

    /// `ENOTTY` on the build platform.
    pub fn ENOTTY() -> (r: ErrorCode)
        ensures
            r.magnitude() == errno_value(build_platform(), Errno::ENOTTY),
    {
        errno_code(Platform::LinuxX86, Errno::ENOTTY)
    }

    /// `ENXIO` on the build platform.
    pub fn ENXIO() -> (r: ErrorCode)
        ensures
            r.magnitude() == errno_value(build_platform(), Errno::ENXIO),
    {
        errno_code(Platform::LinuxX86, Errno::ENXIO)
    }

    /// `EOPNOTSUPP` on the build platform.
    pub fn EOPNOTSUPP() -> (r: ErrorCode)
        ensures
            r.magnitude() == errno_value(build_platform(), Errno::EOPNOTSUPP),
    {
        errno_code(Platform::LinuxX86, Errno::EOPNOTSUPP)
    }

    /// `EOVERFLOW` on the build platform.
    pub fn EOVERFLOW() -> (r: ErrorCode)
        ensures
            r.magnitude() == errno_value(build_platform(), Errno::EOVERFLOW),
    {
        errno_code(Platform::LinuxX86, Errno::EOVERFLOW)
    }

    /// `EOWNERDEAD` on the build platform.
    pub fn EOWNERDEAD() -> (r: ErrorCode)
        ensures
            r.magnitude() == errno_value(build_platform(), Errno::EOWNERDEAD),
    {
        errno_code(Platform::LinuxX86, Errno::EOWNERDEAD)
    }

    /// `EPERM` on the build platform.
    pub fn EPERM() -> (r: ErrorCode)
        ensures
            r.magnitude() == errno_value(build_platform(), Errno::EPERM),
    {
        errno_code(Platform::LinuxX86, Errno::EPERM)
    }

    /// `EPIPE` on the build platform.
    pub fn EPIPE() -> (r: ErrorCode)
        ensures
            r.magnitude() == errno_value(build_platform(), Errno::EPIPE),
    {
        errno_code(Platform::LinuxX86, Errno::EPIPE)
    }

    /// `EPROTO` on the build platform.
    pub fn EPROTO() -> (r: ErrorCode)
        ensures
            r.magnitude() == errno_value(build_platform(), Errno::EPROTO),
    {
        errno_code(Platform::LinuxX86, Errno::EPROTO)
    }

    /// `EPROTONOSUPPORT` on the build platform.
    pub fn EPROTONOSUPPORT() -> (r: ErrorCode)
        ensures
            r.magnitude() == errno_value(build_platform(), Errno::EPROTONOSUPPORT),
    {
        errno_code(Platform::LinuxX86, Errno::EPROTONOSUPPORT)
    }

    /// `EPROTOTYPE` on the build platform.
    pub fn EPROTOTYPE() -> (r: ErrorCode)
        ensures
            r.magnitude() == errno_value(build_platform(), Errno::EPROTOTYPE),
    {
        errno_code(Platform::LinuxX86, Errno::EPROTOTYPE)
    }

    /// `ERANGE` on the build platform.
    pub fn ERANGE() -> (r: ErrorCode)
        ensures
            r.magnitude() == errno_value(build_platform(), Errno::ERANGE),
    {
        errno_code(Platform::LinuxX86, Errno::ERANGE)
    }

    /// `EROFS` on the build platform.
    pub fn EROFS() -> (r: ErrorCode)
        ensures
            r.magnitude() == errno_value(build_platform(), Errno::EROFS),
    {
        errno_code(Platform::LinuxX86, Errno::EROFS)
    }

    /// `ESPIPE` on the build platform.
    pub fn ESPIPE() -> (r: ErrorCode)
        ensures
            r.magnitude() == errno_value(build_platform(), Errno::ESPIPE),
    {
        errno_code(Platform::LinuxX86, Errno::ESPIPE)
    }

    /// `ESRCH` on the build platform.
    pub fn ESRCH() -> (r: ErrorCode)
        ensures
            r.magnitude() == errno_value(build_platform(), Errno::ESRCH),
    {
        errno_code(Platform::LinuxX86, Errno::ESRCH)
    }

    /// `ESTALE` on the build platform.
    pub fn ESTALE() -> (r: ErrorCode)
        ensures
            r.magnitude() == errno_value(build_platform(), Errno::ESTALE),
    {
        errno_code(Platform::LinuxX86, Errno::ESTALE)
    }

    /// `ETIMEDOUT` on the build platform.
    pub fn ETIMEDOUT() -> (r: ErrorCode)
        ensures
            r.magnitude() == errno_value(build_platform(), Errno::ETIMEDOUT),
    {
        errno_code(Platform::LinuxX86, Errno::ETIMEDOUT)
    }

    /// `ETXTBSY` on the build platform.
    pub fn ETXTBSY() -> (r: ErrorCode)
        ensures
            r.magnitude() == errno_value(build_platform(), Errno::ETXTBSY),
    {
        errno_code(Platform::LinuxX86, Errno::ETXTBSY)
    }

    /// `EWOULDBLOCK` on the build platform.
    pub fn EWOULDBLOCK() -> (r: ErrorCode)
        ensures
            r.magnitude() == errno_value(build_platform(), Errno::EWOULDBLOCK),
    {
        errno_code(Platform::LinuxX86, Errno::EWOULDBLOCK)
    }

    /// `EXDEV` on the build platform.
    pub fn EXDEV() -> (r: ErrorCode)
        ensures
            r.magnitude() == errno_value(build_platform(), Errno::EXDEV),
    {
        errno_code(Platform::LinuxX86, Errno::EXDEV)
    }

    /// `ENODATA` on the build platform (streams extension).
    pub fn ENODATA() -> (r: ErrorCode)
        ensures
            ext_errno_value(build_platform(), ExtErrno::ENODATA) == Some(r.magnitude()),
    {
        ErrorCode::new(linux_ext_magnitude(ExtErrno::ENODATA))
    }

    /// `ENOSR` on the build platform (streams extension).
    pub fn ENOSR() -> (r: ErrorCode)
        ensures
            ext_errno_value(build_platform(), ExtErrno::ENOSR) == Some(r.magnitude()),
    {
        ErrorCode::new(linux_ext_magnitude(ExtErrno::ENOSR))
    }

    /// `ENOSTR` on the build platform (streams extension).
    pub fn ENOSTR() -> (r: ErrorCode)
        ensures
            ext_errno_value(build_platform(), ExtErrno::ENOSTR) == Some(r.magnitude()),
    {
        ErrorCode::new(linux_ext_magnitude(ExtErrno::ENOSTR))
    }

    /// `ETIME` on the build platform (streams extension).
    pub fn ETIME() -> (r: ErrorCode)
        ensures
            ext_errno_value(build_platform(), ExtErrno::ETIME) == Some(r.magnitude()),
    {
        ErrorCode::new(linux_ext_magnitude(ExtErrno::ETIME))
    }
}

} // verus!
