pub mod device_inventory;
pub mod domain;
pub mod memory_device_inventory;
