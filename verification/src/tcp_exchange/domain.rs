//! What a stream exchange reports about a peer.
use vstd::prelude::*;

verus! {

/// An event of a stream exchange with a peer.
pub enum Message {
    Connected,
    Bytes(Vec<u8>),
    Disconnected,
}

} // verus!
