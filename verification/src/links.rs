//! The link graph: a keyring's content words decode to raw identifiers,
//! each identifier classifies via its metadata into a key or keyring
//! node, and the resulting collection answers containment queries by
//! variant and underlying identifier.

use vstd::prelude::*;

use crate::errors::KeyError;
use crate::key::Key;
use crate::keyring::KeyRing;
use crate::metadata::Metadata;
use crate::types::{KeySerialId, KeyType};
use vstd::slice::slice_index_get;

verus! {

/// An item/node linked to a ring. Both keys and other keyrings can be
/// linked to a particular keyring.
#[derive(Debug, Copy, Clone, PartialEq, Eq, Structural)]
pub enum LinkNode {
    KeyRing(KeyRing),
    Key(Key),
}

impl LinkNode {
    /// Classify a raw identifier by its metadata: keyrings and
    /// "user"-type keys become nodes, any other type is unsupported.
    pub fn from_metadata(id: KeySerialId, metadata: &Metadata) -> (r: Result<LinkNode, KeyError>)
        ensures
            match r {
                Ok(node) => match metadata.spec_ktype() {
                    KeyType::KeyRing => (node matches LinkNode::KeyRing(ring) && ring.spec_id()
                        == id),
                    KeyType::User => (node matches LinkNode::Key(key) && key.spec_id() == id),
                    _ => false,
                },
                Err(e) => e == KeyError::OperationNotSupported && (metadata.spec_ktype()
                    is Logon || metadata.spec_ktype() is BigKey),
            },
    {
        match metadata.get_type() {
            KeyType::KeyRing => Ok(LinkNode::KeyRing(KeyRing::from_id(id))),
            KeyType::User => Ok(LinkNode::Key(Key::from_id(id))),
            _ => Err(KeyError::OperationNotSupported),
        }
    }

    /// Attempt to convert this LinkNode to a Key
    ///
    /// Returns the key if the entry is a Key, None otherwise.
    pub fn as_key(&self) -> (r: Option<Key>)
        ensures
            match r {
                Some(key) => *self == LinkNode::Key(key),
                None => !(*self is Key),
            },
    {
        match self {
            Self::Key(inner) => Some(*inner),
            _ => None,
        }
    }

    /// Attempt to convert this LinkNode to a KeyRing
    ///
    /// Returns the ring if the entry is a KeyRing, None otherwise.
    pub fn as_ring(&self) -> (r: Option<KeyRing>)
        ensures
            match r {
                Some(ring) => *self == LinkNode::KeyRing(ring),
                None => !(*self is KeyRing),
            },
    {
        match self {
            Self::KeyRing(inner) => Some(*inner),
            _ => None,
        }
    }
}

/// A query against a link collection: equality with a node is "same
/// variant and same underlying identifier".
pub trait LinkQuery {
    /// Whether this query matches the node.
    spec fn matches_spec(&self, node: LinkNode) -> bool;

    /// Decide whether this query matches the node.
    fn matches(&self, node: &LinkNode) -> (r: bool)
        ensures
            r == self.matches_spec(*node),
    ;
}

impl LinkQuery for Key {
    open spec fn matches_spec(&self, node: LinkNode) -> bool {
        node == LinkNode::Key(*self)
    }

    fn matches(&self, node: &LinkNode) -> (r: bool) {
        match node {
            LinkNode::Key(key) => key == self,
            _ => false,
        }
    }
}

impl LinkQuery for KeyRing {
    open spec fn matches_spec(&self, node: LinkNode) -> bool {
        node == LinkNode::KeyRing(*self)
    }

    fn matches(&self, node: &LinkNode) -> (r: bool) {
        match node {
            LinkNode::KeyRing(ring) => ring == self,
            _ => false,
        }
    }
}

impl LinkQuery for LinkNode {
    open spec fn matches_spec(&self, node: LinkNode) -> bool {
        node == *self
    }

    fn matches(&self, node: &LinkNode) -> (r: bool) {
        node == self
    }
}

/// A collection of LinkNodes, decoded from a keyring's content.
#[derive(Debug, Clone, PartialEq, Eq)]
pub struct Links(Vec<LinkNode>);

impl Links {
    /// The nodes of the collection, in the order the keyring listed them.
    pub closed spec fn spec_nodes(&self) -> Seq<LinkNode> {
        self.0@
    }

    /// Internal constructor to abstract the list of objects
    pub fn new(inner: Vec<LinkNode>) -> (r: Self)
        ensures
            r.spec_nodes() == inner@,
    {
        Self(inner)
    }

    /// The number of nodes in the collection.
    pub fn len(&self) -> (r: usize)
        ensures
            r == self.spec_nodes().len(),
    {
        self.0.len()
    }

    /// The node at the given position.
    pub fn node_at(&self, i: usize) -> (r: &LinkNode)
        requires
            i < self.spec_nodes().len(),
        ensures
            *r == self.spec_nodes()[i as int],
    {
        &self.0[i]
    }

    /// Obtain the first entry matching the provided Key/KeyRing/node.
    pub fn get<T: LinkQuery>(&self, entry: &T) -> (r: Option<&LinkNode>)
        ensures
            match r {
                Some(node) => exists|i: int|
                    0 <= i < self.spec_nodes().len() && entry.matches_spec(
                        #[trigger] self.spec_nodes()[i],
                    ) && *node == self.spec_nodes()[i] && (forall|j: int|
                        0 <= j < i ==> !entry.matches_spec(#[trigger] self.spec_nodes()[j])),
                None => forall|i: int|
                    0 <= i < self.spec_nodes().len() ==> !entry.matches_spec(
                        #[trigger] self.spec_nodes()[i],
                    ),
            },
    {
        let n = self.0.len();
        let mut i: usize = 0;
        while i < n
            invariant
                n == self.spec_nodes().len(),
                i <= n,
                forall|j: int| 0 <= j < i ==> !entry.matches_spec(#[trigger] self.spec_nodes()[j]),
            decreases n - i,
        {
            let node = &self.0[i];
            if entry.matches(node) {
                return Some(node);
            }
            i += 1;
        }
        None
    }

    /// Check if the list contains the provided Key/KeyRing/node.
    pub fn contains<T: LinkQuery>(&self, entry: &T) -> (r: bool)
        ensures
            r == exists|i: int|
                0 <= i < self.spec_nodes().len() && entry.matches_spec(
                    #[trigger] self.spec_nodes()[i],
                ),
    {
        match self.get(entry) {
            Some(_) => true,
            None => false,
        }
    }
}

/// The identifier four little-endian bytes spell.
pub open spec fn le_id(b0: u8, b1: u8, b2: u8, b3: u8) -> i32 {
    (b0 as u32 | (b1 as u32) << 8 | (b2 as u32) << 16 | (b3 as u32) << 24) as i32
}

/// Decode a keyring's raw content words: each aligned group of four
/// little-endian bytes is one linked serial identifier, and a trailing
/// remainder is dropped.
pub fn links_from_bytes(bytes: &[u8]) -> (r: Vec<KeySerialId>)
    ensures
        r@.len() == bytes@.len() / 4,
        forall|i: int|
            0 <= i < r@.len() ==> (#[trigger] r@[i]).0 == le_id(
                bytes@[4 * i],
                bytes@[4 * i + 1],
                bytes@[4 * i + 2],
                bytes@[4 * i + 3],
            ),
{
    let count = bytes.len() / 4;
    let mut ids: Vec<KeySerialId> = Vec::new();
    let mut i: usize = 0;
    while i < count
        invariant
            count == bytes@.len() / 4,
            4 * count <= bytes@.len(),
            4 * count <= usize::MAX,
            i <= count,
            ids@.len() == i,
            forall|j: int|
                0 <= j < i ==> (#[trigger] ids@[j]).0 == le_id(
                    bytes@[4 * j],
                    bytes@[4 * j + 1],
                    bytes@[4 * j + 2],
                    bytes@[4 * j + 3],
                ),
        decreases count - i,
    {
        let b0 = *slice_index_get(bytes, 4 * i);
        let b1 = *slice_index_get(bytes, 4 * i + 1);
        let b2 = *slice_index_get(bytes, 4 * i + 2);
        let b3 = *slice_index_get(bytes, 4 * i + 3);
        let word: u32 = b0 as u32 | (b1 as u32) << 8 | (b2 as u32) << 16 | (b3 as u32) << 24;
        ids.push(KeySerialId(#[verifier::truncate] (word as i32)));
        i += 1;
    }
    ids
}

} // verus!
