//! Requests a client sends to the house server, and its responses.
use vstd::prelude::*;

verus! {

/// A request to the house server.
#[derive(Debug)]
pub struct RequestMessage {
    pub body: RequestBody,
}

/// What a request asks for.
#[derive(Debug)]
pub enum RequestBody {
    ChangeDeviceData { location: DeviceLocation, data: DeviceData },
    ShowDeviceInfo { location: DeviceLocation },
    RegisterDeviceMonitor { location: DeviceLocation },
    RemoveDeviceMonitor,
}

/// Where a device is: the name of its room and its own name.
#[derive(Debug, Clone)]
pub struct DeviceLocation {
    pub room_name: String,
    pub device_name: String,
}

/// New data for a device.
#[derive(Debug)]
pub enum DeviceData {
    PowerSocketState { enabled: bool },
}

/// A response of the house server.
#[derive(Debug)]
pub struct ResponseMessage {
    pub body: ResponseBody,
}

/// What a response says.
#[derive(Debug)]
pub enum ResponseBody {
    DeviceDataChanged,
    DeviceDescription(String),
    MonitorRegistered,
    MonitorRemoved,
    PowerSocketInfo { enabled: bool, power: u32 },
    TemperatureSensorInfo { temperature: i32 },
}

} // verus!
