pub mod device_synchronizer;
