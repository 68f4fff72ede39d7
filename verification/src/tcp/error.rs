//! Errors of connecting, sending and receiving over a byte stream.
use vstd::prelude::*;

verus! {

#[verifier::external_type_specification]
#[verifier::external_body]
pub struct ExIoError(std::io::Error);

/// Connection error. Includes IO and handshake error.
#[derive(Debug)]
pub enum ConnectError {
    BadHandshake(String),
    Io(std::io::Error),
}

/// Send data error.
#[derive(Debug)]
pub enum SendError {
    Io(std::io::Error),
}

/// Receive data error. Includes IO and encoding error.
#[derive(Debug)]
pub enum RecvError {
    Io(std::io::Error),
    BadEncoding,
}

/// The result of connecting.
pub type ConnectResult<T> = Result<T, ConnectError>;

/// The result of sending.
pub type SendResult = Result<(), SendError>;

/// The result of receiving a text.
pub type RecvResult = Result<String, RecvError>;

} // verus!
