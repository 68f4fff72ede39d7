//! What an exchange reports about a peer.
use vstd::prelude::*;

verus! {

/// An event of an exchange with a peer.
#[derive(Debug)]
pub enum Message {
    Connected,
    Bytes(Vec<u8>),
    Disconnected,
}

} // verus!
