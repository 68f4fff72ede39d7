pub mod codecs;
pub mod domain;
