//! Identities on the wire: node identifiers and gossip topics, both 32 bytes.

use vstd::prelude::*;

verus! {

/// Number of bytes in a node identifier, a topic and a secret key.
pub const ID_LEN: usize = 32;

/// Byte-wise comparison of two 32-byte identifiers.
pub fn bytes32_eq(a: &[u8; 32], b: &[u8; 32]) -> (r: bool)
    ensures
        r == (a@ == b@),
{
    let mut i: usize = 0;
    while i < 32
        invariant
            i <= 32,
            forall|j: int| 0 <= j < i ==> a@[j] == b@[j],
        decreases 32 - i,
    {
        if a[i] != b[i] {
            return false;
        }
        i += 1;
    }
    assert(a@ =~= b@);
    true
}

/// Public half of a peer's persistent identity; the only peer identifier on the wire.
#[derive(Clone, Copy, Debug, PartialEq, Eq)]
pub struct NodeId {
    pub bytes: [u8; 32],
}

impl View for NodeId {
    type V = Seq<u8>;

    open spec fn view(&self) -> Seq<u8> {
        self.bytes@
    }
}

impl NodeId {
    pub fn from_bytes(bytes: [u8; 32]) -> (id: NodeId)
        ensures
            id@ == bytes@,
            id.bytes == bytes,
    {
        NodeId { bytes }
    }

    /// Whether two identifiers name the same peer.
    pub fn same(&self, other: &NodeId) -> (r: bool)
        ensures
            r == (self@ == other@),
    {
        bytes32_eq(&self.bytes, &other.bytes)
    }
}

/// Identifier of a gossip channel; peers on the same topic form one overlay.
#[derive(Clone, Copy, Debug, PartialEq, Eq)]
pub struct Topic {
    pub bytes: [u8; 32],
}

impl View for Topic {
    type V = Seq<u8>;

    open spec fn view(&self) -> Seq<u8> {
        self.bytes@
    }
}

impl Topic {
    pub fn from_bytes(bytes: [u8; 32]) -> (t: Topic)
        ensures
            t@ == bytes@,
            t.bytes == bytes,
    {
        Topic { bytes }
    }

    /// Whether two topics name the same channel.
    pub fn same(&self, other: &Topic) -> (r: bool)
        ensures
            r == (self@ == other@),
    {
        bytes32_eq(&self.bytes, &other.bytes)
    }
}

/// Dialling information for a peer: its identifier and optional network hints.
#[derive(Clone, Debug, PartialEq, Eq)]
pub struct NodeAddress {
    pub node_id: NodeId,
    pub relay_url: Option<String>,
    pub direct_addresses: Vec<String>,
}

} // verus!
