pub mod error;
pub mod tcp_protocol;
