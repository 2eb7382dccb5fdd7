//! Strongly typed operating-system error numbers.
//!
//! An [`ErrorCode`] wraps a non-zero 16-bit errno value; negating it yields a
//! [`NegErrorCode`], the `-errno` form that system calls return on failure.
//! Both convert losslessly to the native integer widths and compare against
//! signed and unsigned integers with strict sign discipline: a positive code
//! never equals zero or a negative number, and a negated code never equals
//! any unsigned value.
//!
//! The per-platform numeric assignments live in [`table`] as plain data: one
//! table per supported (operating system, architecture) pair, plus named
//! constants for the build platform.

pub mod code;
pub mod table;
pub mod text;

pub use code::ErrorCode;
pub use code::NegErrorCode;
pub use table::Errno;
pub use table::ExtErrno;
pub use table::Platform;
