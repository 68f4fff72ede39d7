pub mod domain;
pub mod tcp_protocol;
