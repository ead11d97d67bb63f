//! The credential-store adapter: set/get/delete-password semantics mapped
//! onto the dual-keyring lifecycle.
//!
//! A credential never owns its kernel key; it owns only the description
//! used to search for it. The secret lives in the session keyring and —
//! when a persistent keyring is configured — is linked into that keyring
//! too, so it survives either store's expiry alone. Every successful read
//! re-links the key into both keyrings, an explicit step of the read path
//! that keeps the two independently expiring stores consistent.
//!
//! The adapter plans each kernel step as a [`KernelRequest`] and decodes
//! each raw outcome; an unverified shim sequences the steps.

use vstd::prelude::*;

use crate::errors::KeyError;
use crate::key::Key;
use crate::keyring::KeyRing;
use crate::ops::{id_outcome, unit_outcome, KernelRequest};
use crate::text::{is_nul_free, nul_free, string_from_utf8};
use vstd::string::StringSliceAdditionalSpecFns;

verus! {

/// The adapter's user-facing error taxonomy, mirroring the generic
/// credential-store interface this library implements.
#[derive(Debug, Clone, PartialEq, Eq)]
pub enum CredentialError {
    /// A caller-supplied value was rejected; holds the attribute's name
    /// and the reason.
    Invalid(String, String),
    /// No credential of this description is reachable.
    NoEntry,
    /// The stored secret is not a valid UTF-8 password.
    BadEncoding,
    /// Any other failure of the underlying store, with its kind.
    PlatformFailure(KeyError),
}

/// How long credentials of a store persist.
#[derive(Debug, Copy, Clone, PartialEq, Eq, Structural)]
pub enum CredentialPersistence {
    /// The secret vanishes with the entry object itself.
    EntryOnly,
    /// The secret vanishes when the process exits.
    ProcessOnly,
    /// The secret vanishes when the machine reboots.
    UntilReboot,
    /// The secret persists until deleted.
    UntilDelete,
}

/// What collapsing an underlying key error to the adapter's taxonomy
/// yields. The kernel reports different specific codes for "gone"
/// depending on how far invalidation and garbage collection have
/// progressed, so access-denied, revoked, and expired collapse into
/// no-entry alongside does-not-exist — a deliberate lossy mapping.
pub open spec fn matches_decoded_error(r: CredentialError, err: KeyError) -> bool {
    match err {
        KeyError::KeyDoesNotExist => r == CredentialError::NoEntry,
        KeyError::AccessDenied => r == CredentialError::NoEntry,
        KeyError::KeyRevoked => r == CredentialError::NoEntry,
        KeyError::KeyExpired => r == CredentialError::NoEntry,
        KeyError::InvalidDescription => (r matches CredentialError::Invalid(a, b) && a@
            == "description"@ && b@ == "rejected by platform"@),
        KeyError::InvalidArguments => (r matches CredentialError::Invalid(a, b) && a@
            == "password"@ && b@ == "rejected by platform"@),
        _ => r == CredentialError::PlatformFailure(err),
    }
}

/// Map an underlying key error to the adapter's taxonomy.
pub fn decode_error(err: KeyError) -> (r: CredentialError)
    ensures
        matches_decoded_error(r, err),
{
    match err {
        KeyError::KeyDoesNotExist => CredentialError::NoEntry,
        KeyError::AccessDenied => CredentialError::NoEntry,
        KeyError::KeyRevoked => CredentialError::NoEntry,
        KeyError::KeyExpired => CredentialError::NoEntry,
        KeyError::InvalidDescription => CredentialError::Invalid(
            String::from_str("description"),
            String::from_str("rejected by platform"),
        ),
        KeyError::InvalidArguments => CredentialError::Invalid(
            String::from_str("password"),
            String::from_str("rejected by platform"),
        ),
        other => CredentialError::PlatformFailure(other),
    }
}

/// Representation of a kernel-store credential.
///
/// Since building a credential provides no initial secret, and the kernel
/// cannot represent a zero-length key, the credential holds keyrings
/// rather than a key: reading before the first write fails properly with
/// no-entry, because the key does not exist until a secret is set.
#[derive(Debug, Clone)]
pub struct KeyutilsCredential {
    /// Host session keyring
    pub session: KeyRing,
    /// Host persistent keyring
    pub persistent: Option<KeyRing>,
    /// Description of the key entry
    pub description: String,
}

impl KeyutilsCredential {
    /// Create the credential for an entry over already-resolved keyrings.
    ///
    /// An explicit target string is taken as the description verbatim;
    /// an empty target is invalid. Without a target the description is
    /// synthesized as `keyring-rs:user@service`.
    pub fn new_with_target(
        session: KeyRing,
        persistent: Option<KeyRing>,
        target: Option<&str>,
        service: &str,
        user: &str,
    ) -> (r: Result<Self, CredentialError>)
        ensures
            match r {
                Ok(c) => {
                    &&& c.session == session
                    &&& c.persistent == persistent
                    &&& match target {
                        Some(t) => t@.len() > 0 && c.description@ == t@,
                        None => c.description@ == "keyring-rs:"@ + user@ + "@"@ + service@,
                    }
                },
                Err(e) => (target matches Some(t) && t@.len() == 0) && (e
                    matches CredentialError::Invalid(a, b) && a@ == "target"@ && b@
                    == "cannot be empty"@),
            },
    {
        let description = match target {
            Some(value) => {
                if value.is_empty() {
                    return Err(
                        CredentialError::Invalid(
                            String::from_str("target"),
                            String::from_str("cannot be empty"),
                        ),
                    );
                }
                value.to_owned()
            },
            None => {
                let mut d = String::from_str("keyring-rs:");
                d.append(user);
                d.append("@");
                d.append(service);
                d
            },
        };
        Ok(Self { session, persistent, description })
    }

    /// Plan storing a secret: create or update the key under the session
    /// keyring. An empty secret is rejected as invalid input before any
    /// kernel operation is planned, because the kernel cannot represent a
    /// zero-length key; a description that cannot travel to the kernel is
    /// rejected the way the platform would.
    pub fn set_secret_request(&self, secret: &[u8]) -> (r: Result<KernelRequest, CredentialError>)
        ensures
            match r {
                Ok(req) => {
                    &&& secret@.len() > 0
                    &&& nul_free(self.description@)
                    &&& (req matches KernelRequest::AddUserKey { keyring, description, payload }
                        && keyring == self.session.spec_id() && description@ == self.description@
                        && payload@ == secret@)
                },
                Err(e) => {
                    &&& (secret@.len() == 0 || !nul_free(self.description@))
                    &&& (secret@.len() == 0 ==> (e matches CredentialError::Invalid(a, b) && a@
                        == "secret"@ && b@ == "cannot be empty"@))
                    &&& (secret@.len() > 0 ==> matches_decoded_error(
                        e,
                        KeyError::InvalidDescription,
                    ))
                },
            },
    {
        if secret.len() == 0 {
            return Err(
                CredentialError::Invalid(
                    String::from_str("secret"),
                    String::from_str("cannot be empty"),
                ),
            );
        }
        match self.session.add_key_request(self.description.as_str(), secret) {
            Ok(req) => Ok(req),
            Err(e) => Err(decode_error(e)),
        }
    }

    /// Plan storing a password: the secret is the password's UTF-8 bytes.
    pub fn set_password_request(&self, password: &str) -> (r: Result<
        KernelRequest,
        CredentialError,
    >)
        ensures
            match r {
                Ok(req) => {
                    &&& password@.len() > 0
                    &&& nul_free(self.description@)
                    &&& (req matches KernelRequest::AddUserKey { keyring, description, payload }
                        && keyring == self.session.spec_id() && description@ == self.description@
                        && payload@ == vstd::utf8::encode_utf8(password@))
                },
                Err(e) => {
                    &&& (password@.len() == 0 || !nul_free(self.description@))
                    &&& (password@.len() == 0 ==> (e matches CredentialError::Invalid(a, b) && a@
                        == "secret"@ && b@ == "cannot be empty"@))
                    &&& (password@.len() > 0 ==> matches_decoded_error(
                        e,
                        KeyError::InvalidDescription,
                    ))
                },
            },
    {
        proof {
            if password@.len() > 0 {
                assert(vstd::utf8::encode_scalar(password@[0] as u32).len() >= 1);
                assert(password.spec_bytes().len() >= 1);
            }
        }
        self.set_secret_request(password.as_bytes())
    }

    /// Plan the search that begins every read or delete: find the key by
    /// description in the session keyring tree.
    pub fn search_request(&self) -> (r: Result<KernelRequest, CredentialError>)
        ensures
            match r {
                Ok(req) => nul_free(self.description@) && (req
                    matches KernelRequest::SearchUserKey { keyring, description } && keyring
                    == self.session.spec_id() && description@ == self.description@),
                Err(e) => !nul_free(self.description@) && matches_decoded_error(
                    e,
                    KeyError::InvalidDescription,
                ),
            },
    {
        match self.session.search_request(self.description.as_str()) {
            Ok(req) => Ok(req),
            Err(e) => Err(decode_error(e)),
        }
    }

    /// Decode the outcome of the search, collapsing the kernel's several
    /// "gone" kinds into no-entry.
    pub fn search_result(raw: Result<u64, i32>) -> (r: Result<Key, CredentialError>)
        ensures
            match id_outcome(raw) {
                Ok(id) => (r matches Ok(key) && key.spec_id() == id),
                Err(e) => (r matches Err(ce) && matches_decoded_error(ce, e)),
            },
    {
        match KeyRing::key_result(raw) {
            Ok(key) => Ok(key),
            Err(e) => Err(decode_error(e)),
        }
    }

    /// Plan re-linking a found key into the session keyring. After a
    /// logout the key may survive only in the persistent keyring, so the
    /// read path re-establishes this link on every access.
    pub fn relink_session_request(&self, key: Key) -> (r: KernelRequest)
        ensures
            (r matches KernelRequest::Link { id, keyring } && id == key.spec_id() && keyring
                == self.session.spec_id()),
    {
        self.session.link_key_request(key)
    }

    /// Plan re-linking a found key into the persistent keyring, when one
    /// is configured. After the persistent keyring's timer lapses the key
    /// may survive only in the session keyring, so the read path
    /// re-establishes this link on every access.
    pub fn relink_persistent_request(&self, key: Key) -> (r: Option<KernelRequest>)
        ensures
            match self.persistent {
                Some(ring) => (r matches Some(req) && (req matches KernelRequest::Link {
                    id,
                    keyring,
                } && id == key.spec_id() && keyring == ring.spec_id())),
                None => r is None,
            },
    {
        match &self.persistent {
            Some(ring) => Some(ring.link_key_request(key)),
            None => None,
        }
    }

    /// Plan reading the found key's payload.
    pub fn read_request(&self, key: Key) -> (r: KernelRequest)
        ensures
            (r matches KernelRequest::ReadPayload { id } && id == key.spec_id()),
    {
        key.read_request()
    }

    /// Decode the payload read: the secret's bytes, or the collapsed
    /// error.
    pub fn read_result(raw: Result<Vec<u8>, i32>) -> (r: Result<Vec<u8>, CredentialError>)
        ensures
            match raw {
                Ok(b) => r == Ok::<Vec<u8>, CredentialError>(b),
                Err(e) => (r matches Err(ce) && matches_decoded_error(
                    ce,
                    crate::errors::error_from_code(e),
                )),
            },
    {
        match crate::ops::decode_payload_result(raw) {
            Ok(b) => Ok(b),
            Err(e) => Err(decode_error(e)),
        }
    }

    /// Decode a stored secret as a password: the UTF-8 characters the
    /// bytes encode, or bad-encoding.
    pub fn decode_password(secret: Vec<u8>) -> (r: Result<String, CredentialError>)
        ensures
            match r {
                Ok(s) => vstd::utf8::valid_utf8(secret@) && s@ == vstd::utf8::decode_utf8(secret@),
                Err(e) => !vstd::utf8::valid_utf8(secret@) && e == CredentialError::BadEncoding,
            },
    {
        match string_from_utf8(secret) {
            Some(s) => Ok(s),
            None => Err(CredentialError::BadEncoding),
        }
    }

    /// Plan invalidating the found key, which makes it unsearchable at
    /// once and schedules its removal from every keyring — deletion needs
    /// no explicit unlinking.
    pub fn invalidate_request(&self, key: Key) -> (r: KernelRequest)
        ensures
            (r matches KernelRequest::Invalidate { id } && id == key.spec_id()),
    {
        key.invalidate_request()
    }

    /// Decode the outcome of a step without a result, collapsing errors.
    pub fn unit_result(raw: Result<u64, i32>) -> (r: Result<(), CredentialError>)
        ensures
            match unit_outcome(raw) {
                Ok(u) => r == Ok::<(), CredentialError>(u),
                Err(e) => (r matches Err(ce) && matches_decoded_error(ce, e)),
            },
    {
        match crate::ops::decode_unit_result(raw) {
            Ok(u) => Ok(u),
            Err(e) => Err(decode_error(e)),
        }
    }
}

/// The builder for kernel-store credentials. Building a credential does
/// not create a key in the store; setting a secret does that.
#[derive(Debug, Copy, Clone)]
pub struct KeyutilsCredentialBuilder {}

impl KeyutilsCredentialBuilder {
    /// Since this store keeps credentials in kernel memory, they vanish
    /// on reboot.
    pub fn persistence(&self) -> (r: CredentialPersistence)
        ensures
            r == CredentialPersistence::UntilReboot,
    {
        CredentialPersistence::UntilReboot
    }
}

/// Return a kernel-store credential builder.
pub fn default_credential_builder() -> (r: KeyutilsCredentialBuilder) {
    KeyutilsCredentialBuilder {  }
}

} // verus!
