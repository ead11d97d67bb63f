//! The kernel request model. Every typed key/keyring operation is planned
//! as a [`KernelRequest`] value holding plain data, and the raw outcome of
//! the syscall — a non-negative word or an OS error number — is decoded
//! back here. The syscall transport itself stays outside the library.

use vstd::prelude::*;

use crate::errors::{error_from_code, KeyError};
use crate::types::KeySerialId;

verus! {

/// Operation codes of the key-management syscall, as fixed by the kernel
/// ABI.
#[derive(Debug, Copy, Clone, PartialEq, Eq, Structural)]
pub enum KeyCtlOperation {
    /// Ask for a keyring's ID
    GetKeyRingId,
    /// Join or start named session keyring
    JoinSessionKeyRing,
    /// Update a key
    Update,
    /// Revoke a key
    Revoke,
    /// Set ownership of a key
    Chown,
    /// Set permissions of a key
    SetPerm,
    /// Describe a key
    Describe,
    /// Clear contents of a keyring
    Clear,
    /// Link a key into a keyring
    Link,
    /// Unlink a key from a keyring
    Unlink,
    /// Search for a key in a keyring
    Search,
    /// Read a key or keyring's contents
    Read,
    /// Instantiate a partially constructed key
    Instantiate,
    /// Negate a partially constructed key
    Negate,
    /// Set default request-key keyring
    SetRequestKeyKeyring,
    /// Set timeout on a key
    SetTimeout,
    /// Assume authority to instantiate key
    AssumeAuthority,
    /// Get key security label
    GetSecurityLabel,
    /// Set my session keyring on my parent process
    SessionToParent,
    /// Reject a partially constructed key
    Reject,
    /// Instantiate a partially constructed key
    InstantiageIov,
    /// Invalidate a key
    Invalidate,
    /// Get a user's persistent keyring
    GetPersistent,
    /// Compute Diffie-Hellman values
    DiffieHellmanCompute,
    /// Query public key parameters
    PubkeyQuery,
    /// Encrypt a blob using a public key
    PubkeyEncrypt,
    /// Decrypt a blob using a public key
    PubkeyDecrypt,
    /// Create a public key signature
    PubkeySign,
    /// Verify a public key signature
    PubkeyVerify,
    /// Restrict keys allowed to link to a keyring
    RestrictKeyring,
    /// Move keys between keyrings
    Move,
    /// Find capabilities of keyrings subsystem
    Capabilities,
    /// Watch a key or ring of keys for changes
    WatchKey,
}

/// The numeric operation code of each keyctl operation.
pub open spec fn keyctl_code(op: KeyCtlOperation) -> u32 {
    match op {
        KeyCtlOperation::GetKeyRingId => 0,
        KeyCtlOperation::JoinSessionKeyRing => 1,
        KeyCtlOperation::Update => 2,
        KeyCtlOperation::Revoke => 3,
        KeyCtlOperation::Chown => 4,
        KeyCtlOperation::SetPerm => 5,
        KeyCtlOperation::Describe => 6,
        KeyCtlOperation::Clear => 7,
        KeyCtlOperation::Link => 8,
        KeyCtlOperation::Unlink => 9,
        KeyCtlOperation::Search => 10,
        KeyCtlOperation::Read => 11,
        KeyCtlOperation::Instantiate => 12,
        KeyCtlOperation::Negate => 13,
        KeyCtlOperation::SetRequestKeyKeyring => 14,
        KeyCtlOperation::SetTimeout => 15,
        KeyCtlOperation::AssumeAuthority => 16,
        KeyCtlOperation::GetSecurityLabel => 17,
        KeyCtlOperation::SessionToParent => 18,
        KeyCtlOperation::Reject => 19,
        KeyCtlOperation::InstantiageIov => 20,
        KeyCtlOperation::Invalidate => 21,
        KeyCtlOperation::GetPersistent => 22,
        KeyCtlOperation::DiffieHellmanCompute => 23,
        KeyCtlOperation::PubkeyQuery => 24,
        KeyCtlOperation::PubkeyEncrypt => 25,
        KeyCtlOperation::PubkeyDecrypt => 26,
        KeyCtlOperation::PubkeySign => 27,
        KeyCtlOperation::PubkeyVerify => 28,
        KeyCtlOperation::RestrictKeyring => 29,
        KeyCtlOperation::Move => 30,
        KeyCtlOperation::Capabilities => 31,
        KeyCtlOperation::WatchKey => 32,
    }
}

impl KeyCtlOperation {
    /// The numeric operation code handed to the syscall.
    pub fn code(&self) -> (r: u32)
        ensures
            r == keyctl_code(*self),
    {
        match self {
            KeyCtlOperation::GetKeyRingId => 0,
            KeyCtlOperation::JoinSessionKeyRing => 1,
            KeyCtlOperation::Update => 2,
            KeyCtlOperation::Revoke => 3,
            KeyCtlOperation::Chown => 4,
            KeyCtlOperation::SetPerm => 5,
            KeyCtlOperation::Describe => 6,
            KeyCtlOperation::Clear => 7,
            KeyCtlOperation::Link => 8,
            KeyCtlOperation::Unlink => 9,
            KeyCtlOperation::Search => 10,
            KeyCtlOperation::Read => 11,
            KeyCtlOperation::Instantiate => 12,
            KeyCtlOperation::Negate => 13,
            KeyCtlOperation::SetRequestKeyKeyring => 14,
            KeyCtlOperation::SetTimeout => 15,
            KeyCtlOperation::AssumeAuthority => 16,
            KeyCtlOperation::GetSecurityLabel => 17,
            KeyCtlOperation::SessionToParent => 18,
            KeyCtlOperation::Reject => 19,
            KeyCtlOperation::InstantiageIov => 20,
            KeyCtlOperation::Invalidate => 21,
            KeyCtlOperation::GetPersistent => 22,
            KeyCtlOperation::DiffieHellmanCompute => 23,
            KeyCtlOperation::PubkeyQuery => 24,
            KeyCtlOperation::PubkeyEncrypt => 25,
            KeyCtlOperation::PubkeyDecrypt => 26,
            KeyCtlOperation::PubkeySign => 27,
            KeyCtlOperation::PubkeyVerify => 28,
            KeyCtlOperation::RestrictKeyring => 29,
            KeyCtlOperation::Move => 30,
            KeyCtlOperation::Capabilities => 31,
            KeyCtlOperation::WatchKey => 32,
        }
    }
}

/// One planned kernel operation, in plain values. The syscall shim turns
/// a request into the matching `add_key` or `keyctl` call and hands the
/// raw outcome back to the decoders below.
#[derive(Debug, Clone)]
pub enum KernelRequest {
    /// Create or update a "user"-type key under a keyring.
    AddUserKey { keyring: KeySerialId, description: String, payload: Vec<u8> },
    /// Search the keyring tree for a "user"-type key by description.
    SearchUserKey { keyring: KeySerialId, description: String },
    /// Read a key's payload (or a keyring's content words).
    ReadPayload { id: KeySerialId },
    /// Read up to `max` linked identifiers from a keyring's content.
    ReadLinks { keyring: KeySerialId, max: usize },
    /// Replace a key's payload.
    UpdatePayload { id: KeySerialId, payload: Vec<u8> },
    /// Link a key into a keyring.
    Link { id: KeySerialId, keyring: KeySerialId },
    /// Unlink a key from a keyring.
    Unlink { id: KeySerialId, keyring: KeySerialId },
    /// Unlink every key from a keyring.
    Clear { keyring: KeySerialId },
    /// Replace a key's permission mask.
    SetPerm { id: KeySerialId, mask: u32 },
    /// Change a key's owning UID and GID; the all-ones value leaves a
    /// field unchanged.
    Chown { id: KeySerialId, uid: u32, gid: u32 },
    /// Set or clear (zero) a key's expiry timeout.
    SetTimeout { id: KeySerialId, seconds: u64 },
    /// Revoke a key immediately.
    Revoke { id: KeySerialId },
    /// Negatively instantiate a key with a timeout and a reason code.
    Reject { id: KeySerialId, seconds: u64, reason_code: i32 },
    /// Invalidate a key: search-invisible at once, then garbage collected.
    Invalidate { id: KeySerialId },
    /// Fetch the descriptor record of a key or keyring.
    Describe { id: KeySerialId },
    /// Resolve a special keyring identifier to a real one, optionally
    /// creating the keyring.
    GetKeyRingId { special: i32, create: bool },
    /// Resolve the calling user's persistent keyring and link it into the
    /// keyring the special identifier names.
    GetPersistent { uid: u32, link_with: i32 },
}

/// What decoding a raw identifier outcome yields: the serial identifier
/// when the word fits one, the invalid-identifier error when it does not,
/// and the error the OS number denotes on failure.
pub open spec fn id_outcome(raw: Result<u64, i32>) -> Result<KeySerialId, KeyError> {
    match raw {
        Ok(v) => if v <= i32::MAX as u64 {
            Ok(KeySerialId(v as i32))
        } else {
            Err(KeyError::InvalidIdentifier)
        },
        Err(e) => Err(error_from_code(e)),
    }
}

/// Decode the raw outcome of an operation that returns a serial
/// identifier.
pub fn decode_id_result(raw: Result<u64, i32>) -> (r: Result<KeySerialId, KeyError>)
    ensures
        r == id_outcome(raw),
{
    match raw {
        Ok(v) => if v <= i32::MAX as u64 {
            Ok(KeySerialId(v as i32))
        } else {
            Err(KeyError::InvalidIdentifier)
        },
        Err(e) => Err(KeyError::from_code(e)),
    }
}

/// What decoding the outcome of an operation without a result yields.
pub open spec fn unit_outcome(raw: Result<u64, i32>) -> Result<(), KeyError> {
    match raw {
        Ok(_) => Ok(()),
        Err(e) => Err(error_from_code(e)),
    }
}

/// Decode the raw outcome of an operation whose success carries no value.
pub fn decode_unit_result(raw: Result<u64, i32>) -> (r: Result<(), KeyError>)
    ensures
        r == unit_outcome(raw),
{
    match raw {
        Ok(_) => Ok(()),
        Err(e) => Err(KeyError::from_code(e)),
    }
}

/// What decoding a raw length outcome yields: the number of bytes the
/// kernel reports, which may exceed the caller's buffer when the payload
/// was larger than it.
pub open spec fn len_outcome(raw: Result<u64, i32>) -> Result<usize, KeyError> {
    match raw {
        Ok(v) => Ok(v as usize),
        Err(e) => Err(error_from_code(e)),
    }
}

/// Decode the raw outcome of a read into a caller-sized buffer.
pub fn decode_len_result(raw: Result<u64, i32>) -> (r: Result<usize, KeyError>)
    ensures
        r == len_outcome(raw),
{
    match raw {
        Ok(v) => Ok(#[verifier::truncate] (v as usize)),
        Err(e) => Err(KeyError::from_code(e)),
    }
}

/// Decode the raw outcome of a read that hands the payload over as an
/// owned buffer.
pub fn decode_payload_result(raw: Result<Vec<u8>, i32>) -> (r: Result<Vec<u8>, KeyError>)
    ensures
        match raw {
            Ok(b) => r == Ok::<Vec<u8>, KeyError>(b),
            Err(e) => r == Err::<Vec<u8>, KeyError>(error_from_code(e)),
        },
{
    match raw {
        Ok(b) => Ok(b),
        Err(e) => Err(KeyError::from_code(e)),
    }
}

} // verus!
