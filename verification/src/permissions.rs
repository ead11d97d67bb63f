//! The permission model: a bit-packed mask of four 8-bit tiers (possessor,
//! owning user, owning group, everyone), each holding six capability bits.
//!
//! Setting a tier is masked byte replacement: it clears exactly that
//! tier's byte and writes the new capability bits into it, leaving the
//! other three bytes — including their two reserved bits — untouched.

use vstd::prelude::*;

verus! {

/// A set of the six capability bits a permission tier can hold.
#[derive(Debug, Copy, Clone, PartialEq, Eq, Structural)]
pub struct Permission {
    bits: u8,
}

impl Permission {
    /// The raw capability bits of this set.
    pub closed spec fn spec_bits(&self) -> u8 {
        self.bits
    }

    /// No capabilities.
    pub fn empty() -> (r: Permission)
        ensures
            r.spec_bits() == 0,
    {
        Permission { bits: 0 }
    }

    /// Allows viewing a key's attributes
    pub fn view_attr() -> (r: Permission)
        ensures
            r.spec_bits() == 0x1,
    {
        Permission { bits: 0x1 }
    }

    /// Allows reading a key's payload / viewing a keyring
    pub fn read() -> (r: Permission)
        ensures
            r.spec_bits() == 0x2,
    {
        Permission { bits: 0x2 }
    }

    /// Allows writing/updating a key's payload / adding a link to keyring
    pub fn write() -> (r: Permission)
        ensures
            r.spec_bits() == 0x4,
    {
        Permission { bits: 0x4 }
    }

    /// Allows finding a key in search / searching a keyring
    pub fn search() -> (r: Permission)
        ensures
            r.spec_bits() == 0x8,
    {
        Permission { bits: 0x8 }
    }

    /// Allows creating a link to a key/keyring
    pub fn link() -> (r: Permission)
        ensures
            r.spec_bits() == 0x10,
    {
        Permission { bits: 0x10 }
    }

    /// Allows setting attributes for a key
    pub fn setattr() -> (r: Permission)
        ensures
            r.spec_bits() == 0x20,
    {
        Permission { bits: 0x20 }
    }

    /// Allows all actions
    pub fn all() -> (r: Permission)
        ensures
            r.spec_bits() == 0x3f,
    {
        Permission { bits: 0x3f }
    }

    /// The set holding the capabilities of both sets.
    pub fn union(self, other: Permission) -> (r: Permission)
        ensures
            r.spec_bits() == self.spec_bits() | other.spec_bits(),
    {
        Permission { bits: self.bits | other.bits }
    }

    /// Obtain the raw capability bits.
    pub fn bits(&self) -> (r: u8)
        ensures
            r == self.spec_bits(),
    {
        self.bits
    }
}

/// The mask with the possessor tier's byte (bits 24-31) replaced by `perm`.
pub open spec fn with_possessor(bits: u32, perm: u8) -> u32 {
    (bits & 0x00ff_ffffu32) | ((perm as u32) << 24)
}

/// The mask with the owning-user tier's byte (bits 16-23) replaced by `perm`.
pub open spec fn with_user(bits: u32, perm: u8) -> u32 {
    (bits & 0xff00_ffffu32) | ((perm as u32) << 16)
}

/// The mask with the owning-group tier's byte (bits 8-15) replaced by `perm`.
pub open spec fn with_group(bits: u32, perm: u8) -> u32 {
    (bits & 0xffff_00ffu32) | ((perm as u32) << 8)
}

/// The mask with the everyone tier's byte (bits 0-7) replaced by `perm`.
pub open spec fn with_world(bits: u32, perm: u8) -> u32 {
    (bits & 0xffff_ff00u32) | (perm as u32)
}

/// Construct key permissions for use with a set-permissions request or
/// returned inside [`crate::Metadata`].
#[derive(Debug, Copy, Clone)]
pub struct KeyPermissions(u32);

impl KeyPermissions {
    /// The raw 32-bit mask this set denotes.
    pub closed spec fn spec_bits(&self) -> u32 {
        self.0
    }

    /// Create a new KeyPermissions object, defaults to empty permissions
    pub fn new() -> (r: Self)
        ensures
            r.spec_bits() == 0,
    {
        Self(0)
    }

    /// Construct the permissions manually
    pub fn from_u32(raw: u32) -> (r: Self)
        ensures
            r.spec_bits() == raw,
    {
        Self(raw)
    }

    /// Obtain the u32 bits for this set
    pub fn bits(&self) -> (r: u32)
        ensures
            r == self.spec_bits(),
    {
        self.0
    }

    /// Set the permissions available to the key's possessor
    pub fn set_posessor_perms(&mut self, perm: Permission)
        ensures
            final(self).spec_bits() == with_possessor(old(self).spec_bits(), perm.spec_bits()),
    {
        self.0 = (self.0 & 0x00ff_ffff) | ((perm.bits() as u32) << 24);
    }

    /// Set the permissions available to the key's owning user (UID)
    pub fn set_user_perms(&mut self, perm: Permission)
        ensures
            final(self).spec_bits() == with_user(old(self).spec_bits(), perm.spec_bits()),
    {
        self.0 = (self.0 & 0xff00_ffff) | ((perm.bits() as u32) << 16);
    }

    /// Set the permissions available to the key's owning group (GID)
    pub fn set_group_perms(&mut self, perm: Permission)
        ensures
            final(self).spec_bits() == with_group(old(self).spec_bits(), perm.spec_bits()),
    {
        self.0 = (self.0 & 0xffff_00ff) | ((perm.bits() as u32) << 8);
    }

    /// Set the permissions available to any 3rd party
    pub fn set_world_perms(&mut self, perm: Permission)
        ensures
            final(self).spec_bits() == with_world(old(self).spec_bits(), perm.spec_bits()),
    {
        self.0 = (self.0 & 0xffff_ff00) | (perm.bits() as u32);
    }
}

impl Default for KeyPermissions {
    /// The default mask is all-zero, like [`KeyPermissions::new`].
    fn default() -> (r: Self)
        ensures
            r.spec_bits() == 0,
    {
        Self::new()
    }
}

/// Construct key permissions with the builder pattern.
#[derive(Debug, Copy, Clone)]
pub struct KeyPermissionsBuilder(KeyPermissions);

impl KeyPermissionsBuilder {
    /// The raw mask accumulated so far.
    pub closed spec fn spec_bits(&self) -> u32 {
        self.0.spec_bits()
    }

    /// Start a KeyPermissionsBuilder
    pub fn builder() -> (r: Self)
        ensures
            r.spec_bits() == 0,
    {
        Self(KeyPermissions::new())
    }

    /// Set the permissions available to the key's possessor
    pub fn posessor(self, perm: Permission) -> (r: Self)
        ensures
            r.spec_bits() == with_possessor(self.spec_bits(), perm.spec_bits()),
    {
        let mut inner = self.0;
        inner.set_posessor_perms(perm);
        Self(inner)
    }

    /// Set the permissions available to the key's owning user (UID)
    pub fn user(self, perm: Permission) -> (r: Self)
        ensures
            r.spec_bits() == with_user(self.spec_bits(), perm.spec_bits()),
    {
        let mut inner = self.0;
        inner.set_user_perms(perm);
        Self(inner)
    }

    /// Set the permissions available to the key's owning group (GID)
    pub fn group(self, perm: Permission) -> (r: Self)
        ensures
            r.spec_bits() == with_group(self.spec_bits(), perm.spec_bits()),
    {
        let mut inner = self.0;
        inner.set_group_perms(perm);
        Self(inner)
    }

    /// Set the permissions available to any 3rd party
    pub fn world(self, perm: Permission) -> (r: Self)
        ensures
            r.spec_bits() == with_world(self.spec_bits(), perm.spec_bits()),
    {
        let mut inner = self.0;
        inner.set_world_perms(perm);
        Self(inner)
    }

    /// Finish the build and obtain the created KeyPermissions
    pub fn build(self) -> (r: KeyPermissions)
        ensures
            r.spec_bits() == self.spec_bits(),
    {
        self.0
    }
}

/// Law: replacing the possessor tier writes the capability bits into bits
/// 24-31 and leaves the other three bytes of the mask unchanged, for every
/// starting mask and every capability subset.
pub proof fn lemma_possessor_tier_isolated(bits: u32, perm: u8)
    ensures
        (with_possessor(bits, perm) >> 24) & 0xff == perm,
        (with_possessor(bits, perm) >> 16) & 0xff == (bits >> 16) & 0xff,
        (with_possessor(bits, perm) >> 8) & 0xff == (bits >> 8) & 0xff,
        with_possessor(bits, perm) & 0xff == bits & 0xff,
{
    assert((((bits & 0x00ff_ffffu32) | ((perm as u32) << 24)) >> 24) & 0xff == perm)
        by (bit_vector);
    assert((((bits & 0x00ff_ffffu32) | ((perm as u32) << 24)) >> 16) & 0xff == (bits >> 16) & 0xff)
        by (bit_vector);
    assert((((bits & 0x00ff_ffffu32) | ((perm as u32) << 24)) >> 8) & 0xff == (bits >> 8) & 0xff)
        by (bit_vector);
    assert(((bits & 0x00ff_ffffu32) | ((perm as u32) << 24)) & 0xff == bits & 0xff)
        by (bit_vector);
}

/// Law: replacing the owning-user tier writes the capability bits into
/// bits 16-23 and leaves the other three bytes of the mask unchanged, for
/// every starting mask and every capability subset.
pub proof fn lemma_user_tier_isolated(bits: u32, perm: u8)
    ensures
        (with_user(bits, perm) >> 24) & 0xff == (bits >> 24) & 0xff,
        (with_user(bits, perm) >> 16) & 0xff == perm,
        (with_user(bits, perm) >> 8) & 0xff == (bits >> 8) & 0xff,
        with_user(bits, perm) & 0xff == bits & 0xff,
{
    assert((((bits & 0xff00_ffffu32) | ((perm as u32) << 16)) >> 24) & 0xff == (bits >> 24) & 0xff)
        by (bit_vector);
    assert((((bits & 0xff00_ffffu32) | ((perm as u32) << 16)) >> 16) & 0xff == perm)
        by (bit_vector);
    assert((((bits & 0xff00_ffffu32) | ((perm as u32) << 16)) >> 8) & 0xff == (bits >> 8) & 0xff)
        by (bit_vector);
    assert(((bits & 0xff00_ffffu32) | ((perm as u32) << 16)) & 0xff == bits & 0xff)
        by (bit_vector);
}

/// Law: replacing the owning-group tier writes the capability bits into
/// bits 8-15 and leaves the other three bytes of the mask unchanged, for
/// every starting mask and every capability subset.
pub proof fn lemma_group_tier_isolated(bits: u32, perm: u8)
    ensures
        (with_group(bits, perm) >> 24) & 0xff == (bits >> 24) & 0xff,
        (with_group(bits, perm) >> 16) & 0xff == (bits >> 16) & 0xff,
        (with_group(bits, perm) >> 8) & 0xff == perm,
        with_group(bits, perm) & 0xff == bits & 0xff,
{
    assert((((bits & 0xffff_00ffu32) | ((perm as u32) << 8)) >> 24) & 0xff == (bits >> 24) & 0xff)
        by (bit_vector);
    assert((((bits & 0xffff_00ffu32) | ((perm as u32) << 8)) >> 16) & 0xff == (bits >> 16) & 0xff)
        by (bit_vector);
    assert((((bits & 0xffff_00ffu32) | ((perm as u32) << 8)) >> 8) & 0xff == perm) by (bit_vector);
    assert(((bits & 0xffff_00ffu32) | ((perm as u32) << 8)) & 0xff == bits & 0xff) by (bit_vector);
}

/// Law: replacing the everyone tier writes the capability bits into bits
/// 0-7 and leaves the other three bytes of the mask unchanged, for every
/// starting mask and every capability subset.
pub proof fn lemma_world_tier_isolated(bits: u32, perm: u8)
    ensures
        (with_world(bits, perm) >> 24) & 0xff == (bits >> 24) & 0xff,
        (with_world(bits, perm) >> 16) & 0xff == (bits >> 16) & 0xff,
        (with_world(bits, perm) >> 8) & 0xff == (bits >> 8) & 0xff,
        with_world(bits, perm) & 0xff == perm,
{
    assert((((bits & 0xffff_ff00u32) | (perm as u32)) >> 24) & 0xff == (bits >> 24) & 0xff)
        by (bit_vector);
    assert((((bits & 0xffff_ff00u32) | (perm as u32)) >> 16) & 0xff == (bits >> 16) & 0xff)
        by (bit_vector);
    assert((((bits & 0xffff_ff00u32) | (perm as u32)) >> 8) & 0xff == (bits >> 8) & 0xff)
        by (bit_vector);
    assert(((bits & 0xffff_ff00u32) | (perm as u32)) & 0xff == perm) by (bit_vector);
}

} // verus!
