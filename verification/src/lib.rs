//! Wire-level message codec and layered error taxonomy for a peer-to-peer
//! blockchain node.
//!
//! The codec turns typed values into a canonical big-endian byte
//! representation and back; the error modules name, classify and translate
//! failures between the node's subsystem layers and expose a stable
//! reason-code surface to external clients.

pub mod codec;
pub mod errors;
pub mod report;
pub mod text;
pub mod types;
pub mod vm;
