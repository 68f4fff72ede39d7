pub mod domain;
pub mod intelligent_house;
pub mod memory_intelligent_house;
