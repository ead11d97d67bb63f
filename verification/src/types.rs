//! The identifier and type model: serial identifiers, key types and their
//! kernel tags, and the special keyring identifiers.

use vstd::prelude::*;

use crate::errors::KeyError;
use crate::text::str_eq;

verus! {

broadcast use vstd::string::group_string_axioms;

/// Primary kernel identifier for a key or keyring.
///
/// Positive values name real keys/keyrings; the small negative values of
/// [`KeyRingIdentifier`] are reserved special identifiers that the kernel
/// resolves to a real keyring on first use.
#[derive(Debug, Copy, Clone, PartialEq, Eq, Structural)]
pub struct KeySerialId(pub i32);

impl KeySerialId {
    /// Construct from a raw i32
    pub fn new(raw: i32) -> (r: Self)
        ensures
            r.0 == raw,
    {
        Self(raw)
    }

    /// Allow conversion into the raw i32 for the syscall shim
    pub fn as_raw_id(&self) -> (r: i32)
        ensures
            r == self.0,
    {
        self.0
    }
}

impl From<i32> for KeySerialId {
    /// Direct conversion from the raw kernel handle
    fn from(n: i32) -> (r: Self) {
        Self(n)
    }
}

impl vstd::std_specs::convert::FromSpecImpl<i32> for KeySerialId {
    open spec fn obeys_from_spec() -> bool {
        true
    }

    open spec fn from_spec(n: i32) -> Self {
        KeySerialId(n)
    }
}

/// Pre-defined key types the kernel understands. See `man 7 keyrings`.
#[derive(Debug, Copy, Clone, PartialEq, Eq, Structural)]
pub enum KeyType {
    /// Keyrings are special key types that may contain links to sequences
    /// of other keys of any type.
    KeyRing,
    /// General purpose key whose payload may be read and updated by
    /// user-space applications; kept entirely within kernel memory.
    User,
    /// Same as "user" but the payload cannot be read from user space.
    Logon,
    /// Like "user" but may hold a payload of up to 1 MiB.
    BigKey,
}

/// The fixed null-free ASCII tag of each key type, as the kernel spells it
/// both when a key is created and in the descriptor record read back.
pub open spec fn key_type_tag(t: KeyType) -> Seq<char> {
    match t {
        KeyType::KeyRing => "keyring"@,
        KeyType::User => "user"@,
        KeyType::Logon => "logon"@,
        KeyType::BigKey => "big_key"@,
    }
}

/// The key type that a tag names, or an error for an unrecognized tag.
pub open spec fn key_type_from_tag(s: Seq<char>) -> Result<KeyType, KeyError> {
    if s == "keyring"@ {
        Ok(KeyType::KeyRing)
    } else if s == "user"@ {
        Ok(KeyType::User)
    } else if s == "logon"@ {
        Ok(KeyType::Logon)
    } else if s == "big_key"@ {
        Ok(KeyType::BigKey)
    } else {
        Err(KeyError::InvalidIdentifier)
    }
}

impl KeyType {
    /// The tag handed to the kernel for this key type.
    pub fn tag(&self) -> (r: &'static str)
        ensures
            r@ == key_type_tag(*self),
    {
        match self {
            KeyType::KeyRing => "keyring",
            KeyType::User => "user",
            KeyType::Logon => "logon",
            KeyType::BigKey => "big_key",
        }
    }

    /// Parse a kernel tag back into a key type; an unrecognized tag is an
    /// error, never a panic.
    pub fn from_tag(s: &str) -> (r: Result<KeyType, KeyError>)
        ensures
            r == key_type_from_tag(s@),
    {
        if str_eq(s, "keyring") {
            Ok(KeyType::KeyRing)
        } else if str_eq(s, "user") {
            Ok(KeyType::User)
        } else if str_eq(s, "logon") {
            Ok(KeyType::Logon)
        } else if str_eq(s, "big_key") {
            Ok(KeyType::BigKey)
        } else {
            Err(KeyError::InvalidIdentifier)
        }
    }
}

/// Law: the type-to-tag mapping is bijective and total — every key type's
/// tag parses back to exactly that type, and distinct types have distinct
/// tags.
pub proof fn lemma_key_type_tag_bijective()
    ensures
        forall|t: KeyType| #[trigger] key_type_from_tag(key_type_tag(t)) == Ok::<KeyType, KeyError>(
            t,
        ),
        forall|t1: KeyType, t2: KeyType| key_type_tag(t1) == key_type_tag(t2) ==> t1 == t2,
{
    reveal_strlit("keyring");
    reveal_strlit("user");
    reveal_strlit("logon");
    reveal_strlit("big_key");
    assert(("keyring"@)[0] != ("big_key"@)[0]);
    assert forall|t: KeyType| #[trigger] key_type_from_tag(key_type_tag(t)) == Ok::<
        KeyType,
        KeyError,
    >(t) by {
        match t {
            KeyType::KeyRing => {
                assert(key_type_tag(t) == "keyring"@);
            },
            KeyType::User => {
                assert(("user"@).len() != ("keyring"@).len());
                assert(key_type_tag(t) == "user"@);
            },
            KeyType::Logon => {
                assert(("logon"@).len() != ("keyring"@).len());
                assert(key_type_tag(t) == "logon"@);
            },
            KeyType::BigKey => {
                assert(("big_key"@)[0] != ("keyring"@)[0]);
                assert(("big_key"@).len() != ("user"@).len());
                assert(("big_key"@).len() != ("logon"@).len());
                assert(key_type_tag(t) == "big_key"@);
            },
        }
    }
    assert forall|t1: KeyType, t2: KeyType| key_type_tag(t1) == key_type_tag(t2) implies t1
        == t2 by {
        assert(key_type_from_tag(key_type_tag(t1)) == Ok::<KeyType, KeyError>(t1));
        assert(key_type_from_tag(key_type_tag(t2)) == Ok::<KeyType, KeyError>(t2));
    }
}

/// Special identifiers for default keyrings. See `man 7 keyrings`.
#[derive(Debug, Copy, Clone, PartialEq, Eq, Structural)]
pub enum KeyRingIdentifier {
    /// Key ID for thread-specific keyring
    Thread,
    /// Key ID for process-specific keyring
    Process,
    /// Key ID for session-specific keyring
    Session,
    /// Key ID for UID-specific keyring
    User,
    /// Key ID for UID-session keyring
    UserSession,
    /// Key ID for GID-specific keyring
    Group,
    /// Key ID for assumed request_key auth key
    ReqKeyAuthKey,
}

/// The reserved negative serial value of each special keyring identifier,
/// as fixed by the kernel ABI.
pub open spec fn keyring_identifier_value(id: KeyRingIdentifier) -> i32 {
    match id {
        KeyRingIdentifier::Thread => -1i32,
        KeyRingIdentifier::Process => -2i32,
        KeyRingIdentifier::Session => -3i32,
        KeyRingIdentifier::User => -4i32,
        KeyRingIdentifier::UserSession => -5i32,
        KeyRingIdentifier::Group => -6i32,
        KeyRingIdentifier::ReqKeyAuthKey => -7i32,
    }
}

impl KeyRingIdentifier {
    /// The reserved negative serial value the kernel resolves for this
    /// special identifier.
    pub fn as_raw_id(&self) -> (r: i32)
        ensures
            r == keyring_identifier_value(*self),
    {
        match self {
            KeyRingIdentifier::Thread => -1i32,
            KeyRingIdentifier::Process => -2i32,
            KeyRingIdentifier::Session => -3i32,
            KeyRingIdentifier::User => -4i32,
            KeyRingIdentifier::UserSession => -5i32,
            KeyRingIdentifier::Group => -6i32,
            KeyRingIdentifier::ReqKeyAuthKey => -7i32,
        }
    }
}

/// Choices for the default request-key destination keyring.
#[derive(Debug, Copy, Clone, PartialEq, Eq, Structural)]
pub enum DefaultKeyring {
    NoChange,
    Default,
    Thread,
    Process,
    Session,
    User,
    UserSession,
    Group,
}

/// The numeric value of each default-keyring choice, as fixed by the
/// kernel ABI.
pub open spec fn default_keyring_value(id: DefaultKeyring) -> i32 {
    match id {
        DefaultKeyring::NoChange => -1i32,
        DefaultKeyring::Default => 0,
        DefaultKeyring::Thread => 1,
        DefaultKeyring::Process => 2,
        DefaultKeyring::Session => 3,
        DefaultKeyring::User => 4,
        DefaultKeyring::UserSession => 5,
        DefaultKeyring::Group => 6,
    }
}

impl DefaultKeyring {
    /// The numeric value handed to the kernel for this choice.
    pub fn as_raw_id(&self) -> (r: i32)
        ensures
            r == default_keyring_value(*self),
    {
        match self {
            DefaultKeyring::NoChange => -1i32,
            DefaultKeyring::Default => 0,
            DefaultKeyring::Thread => 1,
            DefaultKeyring::Process => 2,
            DefaultKeyring::Session => 3,
            DefaultKeyring::User => 4,
            DefaultKeyring::UserSession => 5,
            DefaultKeyring::Group => 6,
        }
    }
}

} // verus!
