//! Typed access layer over the Linux in-kernel key/keyring store.
//!
//! The library models the logic of the key-management facility: the
//! bit-packed four-tier permission mask, the kernel's semicolon-delimited
//! descriptor protocol, the typed key/keyring operations expressed as
//! kernel requests with verified result decoding, the link-graph view of a
//! keyring's contents, and the dual-keyring credential lifecycle used by
//! the credential-store adapter.
//!
//! The raw syscall transport is deliberately outside this crate: every
//! operation is planned here as a request value and its raw outcome is
//! decoded here, while an unverified shim performs the actual system call.

pub mod errors;
pub mod key;
pub mod keyring;
pub mod keystore;
pub mod links;
pub mod metadata;
pub mod ops;
pub mod permissions;
pub mod text;
pub mod types;

pub use errors::KeyError;
pub use key::Key;
pub use keyring::KeyRing;
pub use keystore::{decode_error, default_credential_builder, CredentialError,
    CredentialPersistence, KeyutilsCredential, KeyutilsCredentialBuilder};
pub use links::{links_from_bytes, LinkNode, LinkQuery, Links};
pub use metadata::Metadata;
pub use ops::{KernelRequest, KeyCtlOperation};
pub use permissions::{KeyPermissions, KeyPermissionsBuilder, Permission};
pub use types::{DefaultKeyring, KeyRingIdentifier, KeySerialId, KeyType};
