//! Plain-value types shared across the node's layers: key material buffers
//! and the identifiers that error payloads carry.

use vstd::prelude::*;

verus! {

/// A container for public keys (compressed secp256k1 public keys).
#[derive(Debug, Clone, Copy, PartialEq, Eq)]
pub struct StacksPublicKeyBuffer(pub [u8; 33]);

/// The hash that names a block header.
#[derive(Debug, Clone, Copy, PartialEq, Eq)]
pub struct BlockHeaderHash(pub [u8; 32]);

/// The identity of a remote peer, as the network layer tracks it.
#[derive(Debug, Clone, Copy, PartialEq, Eq)]
pub struct NeighborKey {
    pub peer_version: u32,
    pub network_id: u32,
    pub port: u16,
}

} // verus!
