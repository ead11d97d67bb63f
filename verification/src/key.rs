//! A key corresponding to a specific real ID, and the planned kernel
//! operations on it.
//!
//! Generally you will either create or obtain a Key via the
//! [`KeyRing`](crate::KeyRing) interface, since keys must be linked with a
//! keyring to be valid. Each method here plans one kernel operation as a
//! [`KernelRequest`]; the raw outcome is decoded by the functions of
//! [`crate::ops`].

use vstd::prelude::*;

use crate::errors::OS_EKEYREJECTED;
use crate::ops::KernelRequest;
use crate::permissions::KeyPermissions;
use crate::types::KeySerialId;
use vstd::slice::slice_to_vec;

verus! {

/// A key corresponding to a specific real ID.
#[derive(Debug, Copy, Clone, PartialEq, Eq, Structural)]
pub struct Key(KeySerialId);

impl Key {
    /// The serial identifier this key stands for.
    pub closed spec fn spec_id(&self) -> KeySerialId {
        self.0
    }

    /// Initialize a new [Key] object from the provided ID
    pub fn from_id(id: KeySerialId) -> (r: Self)
        ensures
            r.spec_id() == id,
    {
        Self(id)
    }

    /// Obtain a copy of the ID of this key
    pub fn get_id(&self) -> (r: KeySerialId)
        ensures
            r == self.spec_id(),
    {
        self.0
    }

    /// Plan fetching this key's descriptor record. The key must grant the
    /// caller view permission; the buffer decodes via
    /// [`crate::Metadata::from_describe`].
    pub fn metadata_request(&self) -> (r: KernelRequest)
        ensures
            (r matches KernelRequest::Describe { id } && id == self.spec_id()),
    {
        KernelRequest::Describe { id: self.0 }
    }

    /// Plan reading this key's payload into an owned buffer. The key must
    /// grant the caller read permission, or search permission when it is
    /// possessed via a process keyring.
    pub fn read_request(&self) -> (r: KernelRequest)
        ensures
            (r matches KernelRequest::ReadPayload { id } && id == self.spec_id()),
    {
        KernelRequest::ReadPayload { id: self.0 }
    }

    /// Plan replacing this key's payload. The caller must have write
    /// permission; a negatively instantiated key (see
    /// [`Key::reject_request`]) is positively instantiated by this
    /// operation.
    pub fn update_request(&self, update: &[u8]) -> (r: KernelRequest)
        ensures
            (r matches KernelRequest::UpdatePayload { id, payload } && id == self.spec_id()
                && payload@ == update@),
    {
        KernelRequest::UpdatePayload { id: self.0, payload: slice_to_vec(update) }
    }

    /// Plan replacing this key's permission mask. Without the system
    /// administration capability the caller can change only keys whose
    /// UID matches its own filesystem UID.
    pub fn set_perms_request(&self, perm: KeyPermissions) -> (r: KernelRequest)
        ensures
            (r matches KernelRequest::SetPerm { id, mask } && id == self.spec_id() && mask
                == perm.spec_bits()),
    {
        KernelRequest::SetPerm { id: self.0, mask: perm.bits() }
    }

    /// Plan changing this key's ownership. A `None` leaves that field
    /// unchanged, which the kernel spells as the all-ones value.
    pub fn chown_request(&self, uid: Option<u32>, gid: Option<u32>) -> (r: KernelRequest)
        ensures
            (r matches KernelRequest::Chown { id, uid: u, gid: g } && id == self.spec_id() && u
                == (match uid {
                Some(v) => v,
                None => u32::MAX,
            }) && g == (match gid {
                Some(v) => v,
                None => u32::MAX,
            })),
    {
        let uid_opt = match uid {
            Some(v) => v,
            None => u32::MAX,
        };
        let gid_opt = match gid {
            Some(v) => v,
            None => u32::MAX,
        };
        KernelRequest::Chown { id: self.0, uid: uid_opt, gid: gid_opt }
    }

    /// Plan setting a timeout on this key; zero clears any existing
    /// timeout. The key and its links are garbage collected after the
    /// timeout expires, and later access fails with the key-expired error.
    pub fn set_timeout_request(&self, seconds: usize) -> (r: KernelRequest)
        ensures
            (r matches KernelRequest::SetTimeout { id, seconds: s } && id == self.spec_id() && s
                == seconds as u64),
    {
        KernelRequest::SetTimeout { id: self.0, seconds: seconds as u64 }
    }

    /// Plan revoking this key: immediate and unrecoverable, further use
    /// fails with the key-revoked error.
    pub fn revoke_request(&self) -> (r: KernelRequest)
        ensures
            (r matches KernelRequest::Revoke { id } && id == self.spec_id()),
    {
        KernelRequest::Revoke { id: self.0 }
    }

    /// Plan negatively instantiating this key with an expiry timer, so
    /// that searchers observe the key-rejected error rather than a missing
    /// key. The reason code is the fixed key-rejected OS error number.
    pub fn reject_request(&self, seconds: usize) -> (r: KernelRequest)
        ensures
            (r matches KernelRequest::Reject { id, seconds: s, reason_code } && id == self.spec_id()
                && s == seconds as u64 && reason_code == OS_EKEYREJECTED),
    {
        KernelRequest::Reject { id: self.0, seconds: seconds as u64, reason_code: OS_EKEYREJECTED }
    }

    /// Plan invalidating this key: it becomes invisible to searches at
    /// once and is scheduled for immediate garbage collection from all
    /// keyrings.
    pub fn invalidate_request(&self) -> (r: KernelRequest)
        ensures
            (r matches KernelRequest::Invalidate { id } && id == self.spec_id()),
    {
        KernelRequest::Invalidate { id: self.0 }
    }
}

} // verus!
