//! The metadata protocol: the kernel describes a key or keyring with the
//! semicolon-delimited record `type;uid;gid;perm;description`, where the
//! first four fields are ASCII (perm a hexadecimal mask) and the
//! description is the UTF-8 remainder of the record.

use vstd::prelude::*;

use crate::errors::KeyError;
use crate::permissions::KeyPermissions;
use crate::text::{find_char, find_char_in, lemma_find_char, parse_dec_u32, parse_hex_u32,
    parse_u32_dec, parse_u32_hex, string_from_utf8};
use crate::types::{key_type_from_tag, KeyType};
use vstd::slice::slice_index_get;

verus! {

/// Whether the record has a field delimiter at all.
pub open spec fn has_semi(s: Seq<char>) -> bool {
    find_char(s, ';') is Some
}

/// The characters before the first field delimiter.
pub open spec fn head_before(s: Seq<char>) -> Seq<char> {
    s.take(find_char(s, ';')->Some_0)
}

/// The characters after the first field delimiter.
pub open spec fn tail_after(s: Seq<char>) -> Seq<char> {
    s.skip(find_char(s, ';')->Some_0 + 1)
}

/// A record splits into five fields: it holds at least four delimiters,
/// and the fifth field is the remainder, delimiters and all.
pub open spec fn descriptor_ok(s: Seq<char>) -> bool {
    has_semi(s) && has_semi(tail_after(s)) && has_semi(tail_after(tail_after(s))) && has_semi(
        tail_after(tail_after(tail_after(s))),
    )
}

/// The first field: the key type tag.
pub open spec fn descriptor_field1(s: Seq<char>) -> Seq<char> {
    head_before(s)
}

/// The second field: the owning UID, a decimal numeral.
pub open spec fn descriptor_field2(s: Seq<char>) -> Seq<char> {
    head_before(tail_after(s))
}

/// The third field: the owning GID, a decimal numeral.
pub open spec fn descriptor_field3(s: Seq<char>) -> Seq<char> {
    head_before(tail_after(tail_after(s)))
}

/// The fourth field: the permission mask, a hexadecimal numeral.
pub open spec fn descriptor_field4(s: Seq<char>) -> Seq<char> {
    head_before(tail_after(tail_after(tail_after(s))))
}

/// The fifth field: the description, the remainder of the record.
pub open spec fn descriptor_field5(s: Seq<char>) -> Seq<char> {
    tail_after(tail_after(tail_after(tail_after(s))))
}

/// A record parses when it splits into five fields and the first four
/// parse under their grammars.
pub open spec fn parse_metadata_ok(s: Seq<char>) -> bool {
    descriptor_ok(s) && key_type_from_tag(descriptor_field1(s)) is Ok && parse_dec_u32(
        descriptor_field2(s),
    ) is Some && parse_dec_u32(descriptor_field3(s)) is Some && parse_hex_u32(
        descriptor_field4(s),
    ) is Some
}

/// The descriptor bytes without their terminating NUL.
pub open spec fn describe_payload(bytes: Seq<u8>) -> Seq<u8> {
    bytes.take(bytes.len() - 1)
}

/// A raw descriptor buffer is well formed when it ends with its only NUL.
pub open spec fn describe_wellformed(bytes: Seq<u8>) -> bool {
    bytes.len() > 0 && bytes.last() == 0 && forall|i: int|
        0 <= i < bytes.len() - 1 ==> bytes[i] != 0
}

/// The characters a well-formed descriptor buffer encodes.
pub open spec fn describe_chars(bytes: Seq<u8>) -> Seq<char> {
    vstd::utf8::decode_utf8(describe_payload(bytes))
}

/// A raw descriptor buffer decodes to a metadata record when it is well
/// formed, valid UTF-8, and its record parses.
pub open spec fn describe_parses(bytes: Seq<u8>) -> bool {
    describe_wellformed(bytes) && vstd::utf8::valid_utf8(describe_payload(bytes))
        && parse_metadata_ok(describe_chars(bytes))
}

/// Information about the given key or keyring, as decoded from the
/// kernel's descriptor record.
#[derive(Debug, Clone)]
pub struct Metadata {
    ktype: KeyType,
    uid: u32,
    gid: u32,
    perm: KeyPermissions,
    description: String,
}

impl Metadata {
    /// The decoded key type.
    pub closed spec fn spec_ktype(&self) -> KeyType {
        self.ktype
    }

    /// The decoded owning UID.
    pub closed spec fn spec_uid(&self) -> u32 {
        self.uid
    }

    /// The decoded owning GID.
    pub closed spec fn spec_gid(&self) -> u32 {
        self.gid
    }

    /// The decoded permission mask.
    pub closed spec fn spec_perm_bits(&self) -> u32 {
        self.perm.spec_bits()
    }

    /// The decoded description.
    pub closed spec fn spec_description(&self) -> Seq<char> {
        self.description@
    }
}

/// What a metadata record decoded from the character string `s` holds:
/// exactly the five fields of the record, under their grammars.
pub open spec fn metadata_matches(m: Metadata, s: Seq<char>) -> bool {
    &&& parse_metadata_ok(s)
    &&& m.spec_ktype() == key_type_from_tag(descriptor_field1(s))->Ok_0
    &&& m.spec_uid() == parse_dec_u32(descriptor_field2(s))->Some_0
    &&& m.spec_gid() == parse_dec_u32(descriptor_field3(s))->Some_0
    &&& m.spec_perm_bits() == parse_hex_u32(descriptor_field4(s))->Some_0
    &&& m.spec_description() == descriptor_field5(s)
}

impl Metadata {
    /// Parse the kernel's descriptor record, with the trailing NUL already
    /// stripped. Any missing field or unparseable numeral is the single
    /// uniform invalid-descriptor error, never a panic.
    pub fn parse(s: &str) -> (r: Result<Metadata, KeyError>)
        ensures
            match r {
                Ok(m) => metadata_matches(m, s@),
                Err(e) => !parse_metadata_ok(s@) && e == KeyError::InvalidDescription,
            },
    {
        let len = s.unicode_len();
        let i1 = match find_char_in(s, ';') {
            Some(i) => i,
            None => {
                return Err(KeyError::InvalidDescription);
            },
        };
        proof {
            lemma_find_char(s@, ';');
        }
        let f1 = s.substring_char(0, i1);
        let r1 = s.substring_char(i1 + 1, len);
        proof {
            assert(f1@ =~= descriptor_field1(s@));
            assert(r1@ =~= tail_after(s@));
        }
        let len1 = r1.unicode_len();
        let i2 = match find_char_in(r1, ';') {
            Some(i) => i,
            None => {
                return Err(KeyError::InvalidDescription);
            },
        };
        proof {
            lemma_find_char(r1@, ';');
        }
        let f2 = r1.substring_char(0, i2);
        let r2 = r1.substring_char(i2 + 1, len1);
        proof {
            assert(f2@ =~= descriptor_field2(s@));
            assert(r2@ =~= tail_after(tail_after(s@)));
        }
        let len2 = r2.unicode_len();
        let i3 = match find_char_in(r2, ';') {
            Some(i) => i,
            None => {
                return Err(KeyError::InvalidDescription);
            },
        };
        proof {
            lemma_find_char(r2@, ';');
        }
        let f3 = r2.substring_char(0, i3);
        let r3 = r2.substring_char(i3 + 1, len2);
        proof {
            assert(f3@ =~= descriptor_field3(s@));
            assert(r3@ =~= tail_after(tail_after(tail_after(s@))));
        }
        let len3 = r3.unicode_len();
        let i4 = match find_char_in(r3, ';') {
            Some(i) => i,
            None => {
                return Err(KeyError::InvalidDescription);
            },
        };
        proof {
            lemma_find_char(r3@, ';');
        }
        let f4 = r3.substring_char(0, i4);
        let f5 = r3.substring_char(i4 + 1, len3);
        proof {
            assert(f4@ =~= descriptor_field4(s@));
            assert(f5@ =~= descriptor_field5(s@));
        }
        let ktype = match KeyType::from_tag(f1) {
            Ok(t) => t,
            Err(_) => {
                return Err(KeyError::InvalidDescription);
            },
        };
        let uid = match parse_u32_dec(f2) {
            Some(v) => v,
            None => {
                return Err(KeyError::InvalidDescription);
            },
        };
        let gid = match parse_u32_dec(f3) {
            Some(v) => v,
            None => {
                return Err(KeyError::InvalidDescription);
            },
        };
        let perm = match parse_u32_hex(f4) {
            Some(v) => v,
            None => {
                return Err(KeyError::InvalidDescription);
            },
        };
        Ok(Metadata {
            ktype,
            uid,
            gid,
            perm: KeyPermissions::from_u32(perm),
            description: f5.to_owned(),
        })
    }

    /// Decode the raw descriptor buffer the kernel filled: the record runs
    /// up to a terminating NUL, holds no interior NUL, and must be valid
    /// UTF-8; anything else is the uniform invalid-descriptor error.
    pub fn from_describe(bytes: &[u8]) -> (r: Result<Metadata, KeyError>)
        ensures
            match r {
                Ok(m) => describe_parses(bytes@) && metadata_matches(m, describe_chars(bytes@)),
                Err(e) => !describe_parses(bytes@) && e == KeyError::InvalidDescription,
            },
    {
        let n = bytes.len();
        if n == 0 {
            return Err(KeyError::InvalidDescription);
        }
        if *slice_index_get(bytes, n - 1) != 0 {
            return Err(KeyError::InvalidDescription);
        }
        let mut payload: Vec<u8> = Vec::new();
        let mut i: usize = 0;
        while i < n - 1
            invariant
                n == bytes@.len(),
                0 < n,
                i <= n - 1,
                payload@ == bytes@.take(i as int),
                forall|j: int| 0 <= j < i ==> bytes@[j] != 0,
            decreases n - 1 - i,
        {
            let b = *slice_index_get(bytes, i);
            if b == 0 {
                return Err(KeyError::InvalidDescription);
            }
            payload.push(b);
            proof {
                assert(payload@ =~= bytes@.take(i + 1));
            }
            i += 1;
        }
        proof {
            assert(payload@ =~= describe_payload(bytes@));
        }
        match string_from_utf8(payload) {
            Some(s) => Metadata::parse(s.as_str()),
            None => Err(KeyError::InvalidDescription),
        }
    }

    /// The type of this entry
    pub fn get_type(&self) -> (r: KeyType)
        ensures
            r == self.spec_ktype(),
    {
        self.ktype
    }

    /// The owning UID of this entry
    pub fn get_uid(&self) -> (r: u32)
        ensures
            r == self.spec_uid(),
    {
        self.uid
    }

    /// The owning GID of this entry
    pub fn get_gid(&self) -> (r: u32)
        ensures
            r == self.spec_gid(),
    {
        self.gid
    }

    /// The current permissions of this entry
    pub fn get_perms(&self) -> (r: KeyPermissions)
        ensures
            r.spec_bits() == self.spec_perm_bits(),
    {
        self.perm
    }

    /// The description for this entry
    pub fn get_description(&self) -> (r: &str)
        ensures
            r@ == self.spec_description(),
    {
        self.description.as_str()
    }
}

} // verus!
