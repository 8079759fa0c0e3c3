use vstd::prelude::*;

verus! {

/// Errors reported by the driver, each with a kernel errno.
#[derive(Debug, Clone, Copy, PartialEq, Eq, Structural)]
pub enum Error {
    NoMem,
    Invalid,
    NoDevice,
    Timeout,
    Io,
    Again,
    Busy,
    NotSupported,
    PermissionDenied,
}

/// Result of a driver operation.
pub type Result<T> = core::result::Result<T, Error>;

/// The (negative) errno value that stands for an error.
pub open spec fn errno_of(e: Error) -> int {
    match e {
        Error::NoMem => -12,
        Error::Invalid => -22,
        Error::NoDevice => -19,
        Error::Timeout => -110,
        Error::Io => -5,
        Error::Again => -11,
        Error::Busy => -16,
        Error::NotSupported => -95,
        Error::PermissionDenied => -13,
    }
}

/// The human-readable text of an error.
pub open spec fn message_of(e: Error) -> Seq<char> {
    match e {
        Error::NoMem => "Out of memory"@,
        Error::Invalid => "Invalid argument"@,
        Error::NoDevice => "No such device"@,
        Error::Timeout => "Timeout"@,
        Error::Io => "I/O error"@,
        Error::Again => "Try again"@,
        Error::Busy => "Device busy"@,
        Error::NotSupported => "Not supported"@,
        Error::PermissionDenied => "Permission denied"@,
    }
}

impl Error {
    /// The errno value the kernel reports for this error.
    pub fn to_errno(self) -> (r: i32)
        ensures
            r == errno_of(self),
            r < 0,
    {
        match self {
            Error::NoMem => -12,
            Error::Invalid => -22,
            Error::NoDevice => -19,
            Error::Timeout => -110,
            Error::Io => -5,
            Error::Again => -11,
            Error::Busy => -16,
            Error::NotSupported => -95,
            Error::PermissionDenied => -13,
        }
    }

    /// The text shown for this error.
    pub fn message(self) -> (r: &'static str)
        ensures
            r@ == message_of(self),
    {
        match self {
            Error::NoMem => "Out of memory",
            Error::Invalid => "Invalid argument",
            Error::NoDevice => "No such device",
            Error::Timeout => "Timeout",
            Error::Io => "I/O error",
            Error::Again => "Try again",
            Error::Busy => "Device busy",
            Error::NotSupported => "Not supported",
            Error::PermissionDenied => "Permission denied",
        }
    }
}

/// Distinct errors have distinct errno values, so an errno names its error.
pub proof fn lemma_errno_injective(a: Error, b: Error)
    requires
        errno_of(a) == errno_of(b),
    ensures
        a == b,
{
}

} // verus!
