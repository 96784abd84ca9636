//! The error vocabulary shared by every call of the library.
use vstd::prelude::*;

verus! {

/// Why a call failed.
#[derive(Clone, Copy, Debug, PartialEq, Eq, Structural)]
pub enum Error {
    Unsupported,
    InvalidCall,
    PermissionDenied,
    NotInitialized,
    InvalidArgument,
    BufferTooSmall,
    QueueEmpty,
    NotFound,
    Busy,
    CapacityExceeded,
    Unknown(u64),
}

impl Error {
    /// The error a kernel error code stands for; codes the kernel does not
    /// define are kept as `Unknown`.
    pub open spec fn spec_from_code(code: u64) -> Error {
        if code == 0 {
            Error::Unsupported
        } else if code == 1 {
            Error::InvalidCall
        } else if code == 2 {
            Error::PermissionDenied
        } else if code == 3 {
            Error::NotInitialized
        } else if code == 4 {
            Error::InvalidArgument
        } else if code == 5 {
            Error::BufferTooSmall
        } else if code == 6 {
            Error::QueueEmpty
        } else if code == 7 {
            Error::NotFound
        } else if code == 8 {
            Error::Busy
        } else if code == 9 {
            Error::CapacityExceeded
        } else {
            Error::Unknown(code)
        }
    }

    /// The error a kernel error code stands for (see `spec_from_code`).
    pub fn from_code(code: u64) -> (e: Error)
        ensures
            e == Self::spec_from_code(code),
    {
        if code == 0 {
            Error::Unsupported
        } else if code == 1 {
            Error::InvalidCall
        } else if code == 2 {
            Error::PermissionDenied
        } else if code == 3 {
            Error::NotInitialized
        } else if code == 4 {
            Error::InvalidArgument
        } else if code == 5 {
            Error::BufferTooSmall
        } else if code == 6 {
            Error::QueueEmpty
        } else if code == 7 {
            Error::NotFound
        } else if code == 8 {
            Error::Busy
        } else if code == 9 {
            Error::CapacityExceeded
        } else {
            Error::Unknown(code)
        }
    }
}

/// Result of a call of this library.
pub type Result<T> = core::result::Result<T, Error>;

} // verus!
