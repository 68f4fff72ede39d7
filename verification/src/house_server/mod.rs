pub mod domain;
pub mod house_server;
