//! The error taxonomy of the library: one kind per OS-level failure
//! category, plus a catch-all carrying the raw OS error number.

use vstd::prelude::*;

verus! {

/// Error type for this library. Each kernel-facing operation returns it
/// directly; the credential-store adapter collapses several kinds into one
/// user-facing category (see [`crate::keystore::decode_error`]).
#[derive(Debug, Copy, Clone, PartialEq, Eq, Structural, PartialOrd, Ord, Hash)]
pub enum KeyError {
    /// The keyring wasn't available for modification by the user.
    AccessDenied,
    /// The key quota for this user would be exceeded by creating
    /// this key or linking it to the keyring.
    QuotaExceeded,
    /// One or more of type, description, and payload points outside
    /// process's accessible address space.
    BadAddress,
    /// Provided bad arguments
    InvalidArguments,
    /// The keyring has expired.
    KeyExpired,
    /// The keyring has been revoked.
    KeyRevoked,
    /// The attempt to generate a new key was rejected.
    KeyRejected,
    /// The keyring doesn't exist.
    KeyringDoesNotExist,
    /// They key does not exist
    KeyDoesNotExist,
    /// Insufficient memory to create a key.
    OutOfMemory,
    /// Invalid Description
    InvalidDescription,
    /// An invalid identifier was returned
    InvalidIdentifier,
    /// Operation not supported
    OperationNotSupported,
    /// Write to destination failed
    WriteError,
    /// Unknown - catch all, return this instead of panicing
    Unknown(i32),
}

/// Linux `errno` values of the error categories the key-management
/// syscalls report, as fixed by the kernel ABI.
pub const OS_EACCES: i32 = 13;

pub const OS_EDQUOT: i32 = 122;

pub const OS_EFAULT: i32 = 14;

pub const OS_EINVAL: i32 = 22;

pub const OS_EKEYEXPIRED: i32 = 127;

pub const OS_EKEYREVOKED: i32 = 128;

pub const OS_EKEYREJECTED: i32 = 129;

pub const OS_ENOMEM: i32 = 12;

pub const OS_ENOKEY: i32 = 126;

pub const OS_ENOTSUP: i32 = 95;

/// The error kind that a raw OS error number denotes.
pub open spec fn error_from_code(code: i32) -> KeyError {
    if code == OS_EACCES {
        KeyError::AccessDenied
    } else if code == OS_EDQUOT {
        KeyError::QuotaExceeded
    } else if code == OS_EFAULT {
        KeyError::BadAddress
    } else if code == OS_EINVAL {
        KeyError::InvalidArguments
    } else if code == OS_EKEYEXPIRED {
        KeyError::KeyExpired
    } else if code == OS_EKEYREVOKED {
        KeyError::KeyRevoked
    } else if code == OS_EKEYREJECTED {
        KeyError::KeyRejected
    } else if code == OS_ENOMEM {
        KeyError::OutOfMemory
    } else if code == OS_ENOKEY {
        KeyError::KeyDoesNotExist
    } else if code == OS_ENOTSUP {
        KeyError::OperationNotSupported
    } else {
        KeyError::Unknown(code)
    }
}

impl KeyError {
    /// Obtain the KeyError denoted by a raw OS error number, as reported
    /// by a failed key-management syscall.
    pub fn from_code(code: i32) -> (r: KeyError)
        ensures
            r == error_from_code(code),
    {
        if code == OS_EACCES {
            KeyError::AccessDenied
        } else if code == OS_EDQUOT {
            KeyError::QuotaExceeded
        } else if code == OS_EFAULT {
            KeyError::BadAddress
        } else if code == OS_EINVAL {
            KeyError::InvalidArguments
        } else if code == OS_EKEYEXPIRED {
            KeyError::KeyExpired
        } else if code == OS_EKEYREVOKED {
            KeyError::KeyRevoked
        } else if code == OS_EKEYREJECTED {
            KeyError::KeyRejected
        } else if code == OS_ENOMEM {
            KeyError::OutOfMemory
        } else if code == OS_ENOKEY {
            KeyError::KeyDoesNotExist
        } else if code == OS_ENOTSUP {
            KeyError::OperationNotSupported
        } else {
            KeyError::Unknown(code)
        }
    }
}

} // verus!
