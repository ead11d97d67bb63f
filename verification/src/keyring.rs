//! Interface to plan keyring operations: locating, creating, searching,
//! and linking/unlinking keys to and from keyrings.
//!
//! Each method plans one kernel operation as a [`KernelRequest`]; the raw
//! outcome is decoded by the result functions here and in [`crate::ops`].

use vstd::prelude::*;

use crate::errors::KeyError;
use crate::key::Key;
use crate::ops::{id_outcome, KernelRequest};
use crate::text::{is_nul_free, nul_free};
use crate::types::{keyring_identifier_value, KeyRingIdentifier, KeySerialId};
use vstd::slice::slice_to_vec;

verus! {

/// A keyring: a key that holds links to other keys or keyrings.
#[derive(Debug, Copy, Clone, PartialEq, Eq, Structural)]
pub struct KeyRing {
    id: KeySerialId,
}

impl KeyRing {
    /// The serial identifier this keyring stands for.
    pub closed spec fn spec_id(&self) -> KeySerialId {
        self.id
    }

    /// Initialize a new [KeyRing] object from the provided ID
    pub fn from_id(id: KeySerialId) -> (r: Self)
        ensures
            r.spec_id() == id,
    {
        Self { id }
    }

    /// Obtain a copy of the ID of this keyring
    pub fn get_id(&self) -> (r: KeySerialId)
        ensures
            r == self.spec_id(),
    {
        self.id
    }

    /// Plan resolving a keyring from its special identifier. With `create`
    /// the kernel creates the keyring on demand; without it the resolution
    /// succeeds only if the keyring already exists.
    pub fn from_special_id_request(id: KeyRingIdentifier, create: bool) -> (r: KernelRequest)
        ensures
            (r matches KernelRequest::GetKeyRingId { special, create: c } && special
                == keyring_identifier_value(id) && c == create),
    {
        KernelRequest::GetKeyRingId { special: id.as_raw_id(), create }
    }

    /// Decode the raw outcome of an operation that resolves a keyring:
    /// the keyring with the returned identifier, the invalid-identifier
    /// error when the word fits none, and the OS error's kind on failure.
    pub fn from_id_result(raw: Result<u64, i32>) -> (r: Result<KeyRing, KeyError>)
        ensures
            match id_outcome(raw) {
                Ok(id) => (r matches Ok(ring) && ring.spec_id() == id),
                Err(e) => r == Err::<KeyRing, KeyError>(e),
            },
    {
        match crate::ops::decode_id_result(raw) {
            Ok(id) => Ok(KeyRing { id }),
            Err(e) => Err(e),
        }
    }

    /// Plan resolving the calling user's persistent keyring and linking it
    /// into the keyring the special identifier names. The kernel creates
    /// the persistent keyring on demand and resets its expiry countdown on
    /// every resolution; the all-ones UID means the calling user.
    pub fn get_persistent_request(link_with: KeyRingIdentifier) -> (r: KernelRequest)
        ensures
            (r matches KernelRequest::GetPersistent { uid, link_with: l } && uid == u32::MAX && l
                == keyring_identifier_value(link_with)),
    {
        KernelRequest::GetPersistent { uid: u32::MAX, link_with: link_with.as_raw_id() }
    }

    /// Plan fetching this keyring's descriptor record. The keyring must
    /// grant the caller view permission; the buffer decodes via
    /// [`crate::Metadata::from_describe`].
    pub fn metadata_request(&self) -> (r: KernelRequest)
        ensures
            (r matches KernelRequest::Describe { id } && id == self.spec_id()),
    {
        KernelRequest::Describe { id: self.id }
    }

    /// Plan creating or updating a "user"-type key under this keyring. If
    /// the keyring already holds a key of the same type and description,
    /// the kernel updates that key in place; a description holding a NUL
    /// cannot travel to the kernel and is rejected here.
    pub fn add_key_request(&self, description: &str, secret: &[u8]) -> (r: Result<
        KernelRequest,
        KeyError,
    >)
        ensures
            match r {
                Ok(req) => nul_free(description@) && (req matches KernelRequest::AddUserKey {
                    keyring,
                    description: d,
                    payload,
                } && keyring == self.spec_id() && d@ == description@ && payload@ == secret@),
                Err(e) => !nul_free(description@) && e == KeyError::InvalidDescription,
            },
    {
        if !is_nul_free(description) {
            return Err(KeyError::InvalidDescription);
        }
        Ok(
            KernelRequest::AddUserKey {
                keyring: self.id,
                description: description.to_owned(),
                payload: slice_to_vec(secret),
            },
        )
    }

    /// Decode the raw outcome of an operation that returns a key: the key
    /// with the returned identifier, the invalid-identifier error when the
    /// word fits none, and the OS error's kind on failure.
    pub fn key_result(raw: Result<u64, i32>) -> (r: Result<Key, KeyError>)
        ensures
            match id_outcome(raw) {
                Ok(id) => (r matches Ok(key) && key.spec_id() == id),
                Err(e) => r == Err::<Key, KeyError>(e),
            },
    {
        match crate::ops::decode_id_result(raw) {
            Ok(id) => Ok(Key::from_id(id)),
            Err(e) => Err(e),
        }
    }

    /// Plan searching the keyring tree rooted here for a "user"-type key
    /// with the given description. The kernel searches breadth-first, and
    /// only nodes granting the caller search permission take part.
    pub fn search_request(&self, description: &str) -> (r: Result<KernelRequest, KeyError>)
        ensures
            match r {
                Ok(req) => nul_free(description@) && (req matches KernelRequest::SearchUserKey {
                    keyring,
                    description: d,
                } && keyring == self.spec_id() && d@ == description@),
                Err(e) => !nul_free(description@) && e == KeyError::InvalidDescription,
            },
    {
        if !is_nul_free(description) {
            return Err(KeyError::InvalidDescription);
        }
        Ok(KernelRequest::SearchUserKey { keyring: self.id, description: description.to_owned() })
    }

    /// Plan reading up to `max` linked identifiers from this keyring's
    /// content. The keyring must grant the caller read or search
    /// permission; the buffer decodes via [`crate::links_from_bytes`].
    pub fn read_links_request(&self, max: usize) -> (r: KernelRequest)
        ensures
            (r matches KernelRequest::ReadLinks { keyring, max: m } && keyring == self.spec_id()
                && m == max),
    {
        KernelRequest::ReadLinks { keyring: self.id, max }
    }

    /// Plan linking a key into this keyring. The kernel refuses a link
    /// that would produce a cycle or exceed the maximum keyring nesting
    /// depth; the caller must have link permission on the key and write
    /// permission on the keyring.
    pub fn link_key_request(&self, key: Key) -> (r: KernelRequest)
        ensures
            (r matches KernelRequest::Link { id, keyring } && id == key.spec_id() && keyring
                == self.spec_id()),
    {
        KernelRequest::Link { id: key.get_id(), keyring: self.id }
    }

    /// Plan unlinking a key from this keyring. Removing the last link to a
    /// key schedules the key for destruction; the caller must have write
    /// permission on the keyring.
    pub fn unlink_key_request(&self, key: Key) -> (r: KernelRequest)
        ensures
            (r matches KernelRequest::Unlink { id, keyring } && id == key.spec_id() && keyring
                == self.spec_id()),
    {
        KernelRequest::Unlink { id: key.get_id(), keyring: self.id }
    }

    /// Plan unlinking every key from this keyring. The caller must have
    /// write permission on the keyring.
    pub fn clear_request(&self) -> (r: KernelRequest)
        ensures
            (r matches KernelRequest::Clear { keyring } && keyring == self.spec_id()),
    {
        KernelRequest::Clear { keyring: self.id }
    }
}

} // verus!
