pub mod device_info;
pub mod power_socket;
pub mod temperature_sensor;
