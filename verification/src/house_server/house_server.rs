//! What the house server decides for each request, and what it reports to device monitors.
use vstd::prelude::*;

use crate::errors::intelligent_house_error::{IntelligentHouseError, InventoryError};
use crate::house::domain::{DeviceName, RoomName};
use crate::house_server::domain::{DeviceData, DeviceLocation, RequestBody, ResponseBody, ResponseMessage};
use crate::inventory::domain::{device_info, socket_switched, switch_socket, DeviceItem};
use crate::inventory::device_inventory::{info_defined_in, lookup, DeviceInventory};
use crate::inventory::memory_device_inventory::MemoryDeviceInventory;

verus! {

/// How a request changes the monitors registered for the client that sent it.
#[derive(Debug)]
pub enum MonitorChange {
    /// Nothing changes.
    Keep,
    /// The client now monitors the device at this location, in place of any earlier one.
    Register(DeviceLocation),
    /// The client no longer monitors a device.
    Remove,
}

/// The room named by a location.
pub open spec fn location_room(location: DeviceLocation) -> RoomName {
    RoomName(location.room_name)
}

/// The device named by a location.
pub open spec fn location_device(location: DeviceLocation) -> DeviceName {
    DeviceName(location.device_name)
}

/// The server can describe the device a request asks about.
pub open spec fn request_defined(body: RequestBody, inventory: &MemoryDeviceInventory) -> bool {
    body matches RequestBody::ShowDeviceInfo { location } ==> info_defined_in(
        inventory@,
        location.room_name@,
        location.device_name@,
    )
}

/// Carries out a request on the inventory. Returns the response, or the inventory's error,
/// and how the monitors of the sender change.
pub fn process_request(request_body: RequestBody, inventory: &mut MemoryDeviceInventory) -> (r: (
    Result<ResponseMessage, IntelligentHouseError>,
    MonitorChange,
))
    requires
        request_defined(request_body, old(inventory)),
    ensures
        match request_body {
            RequestBody::ChangeDeviceData { location, data: DeviceData::PowerSocketState { enabled } } => {
                let room = location_room(location);
                let device = location_device(location);
                &&& r.1 is Keep
                &&& match lookup(old(inventory)@, room@, device@) {
                    Some(d) => match socket_switched(d, enabled, device, room) {
                        Ok(changed) => {
                            &&& r.0 matches Ok(m) && m.body is DeviceDataChanged
                            &&& final(inventory)@ == old(inventory)@.insert(
                                room@,
                                old(inventory)@[room@].insert(device@, changed),
                            )
                        },
                        Err(e) => {
                            &&& r.0 matches Err(IntelligentHouseError::InventoryErr(f)) && f == e
                            &&& final(inventory)@ == old(inventory)@
                        },
                    },
                    None => {
                        &&& final(inventory)@ == old(inventory)@
                        &&& r.0 matches Err(IntelligentHouseError::InventoryErr(f)) && if old(
                            inventory,
                        )@.contains_key(room@) {
                            f == InventoryError::InventoryDeviceNotFound(device, room)
                        } else {
                            f == InventoryError::InventoryRoomNotFound(room)
                        }
                    },
                }
            },
            RequestBody::ShowDeviceInfo { location } => {
                let room = location_room(location);
                let device = location_device(location);
                &&& r.1 is Keep
                &&& final(inventory)@ == old(inventory)@
                &&& match lookup(old(inventory)@, room@, device@) {
                    Some(d) => r.0 matches Ok(m) && m.body matches ResponseBody::DeviceDescription(info)
                        && info@ == device_info(d, device@),
                    None => r.0 matches Err(IntelligentHouseError::InventoryErr(f))
                        && f == InventoryError::InventoryDeviceNotFound(device, room),
                }
            },
            RequestBody::RegisterDeviceMonitor { location } => {
                &&& r.0 matches Ok(m) && m.body is MonitorRegistered
                &&& r.1 matches MonitorChange::Register(l) && l == location
                &&& final(inventory)@ == old(inventory)@
            },
            RequestBody::RemoveDeviceMonitor => {
                &&& r.0 matches Ok(m) && m.body is MonitorRemoved
                &&& r.1 is Remove
                &&& final(inventory)@ == old(inventory)@
            },
        },
        match request_body {
            RequestBody::ChangeDeviceData { location, data: DeviceData::PowerSocketState { enabled } } => match lookup(
                old(inventory)@,
                location.room_name@,
                location.device_name@,
            ) {
                Some(DeviceItem::PowerSocket(ps)) => {
                    &&& r.0 is Ok
                    &&& lookup(final(inventory)@, location.room_name@, location.device_name@) matches Some(
                        DeviceItem::PowerSocket(q),
                    ) && q.enabled == enabled && q.tpe == ps.tpe && q.voltage == ps.voltage && q.current == ps.current
                },
                _ => true,
            },
            _ => true,
        },
{
    match request_body {
        RequestBody::ChangeDeviceData { location, data } => {
            let device_name = DeviceName(location.device_name);
            let room_name = RoomName(location.room_name);
            let enabled = match data {
                DeviceData::PowerSocketState { enabled } => enabled,
            };
            let dn = &device_name;
            let rn = &room_name;
            let modify = |d: DeviceItem| -> (c: Result<DeviceItem, InventoryError>)
                ensures
                    c == socket_switched(d, enabled, *dn, *rn),
                { switch_socket(d, enabled, dn, rn) };
            match inventory.change_device(rn, dn, modify) {
                Ok(()) => (Ok(ResponseMessage { body: ResponseBody::DeviceDataChanged }), MonitorChange::Keep),
                Err(e) => (Err(IntelligentHouseError::InventoryErr(e)), MonitorChange::Keep),
            }
        },
        RequestBody::ShowDeviceInfo { location } => {
            let device_name = DeviceName(location.device_name);
            let room_name = RoomName(location.room_name);
            match inventory.get_info(&room_name, &device_name) {
                Ok(info) => (Ok(ResponseMessage { body: ResponseBody::DeviceDescription(info) }), MonitorChange::Keep),
                Err(e) => (Err(IntelligentHouseError::InventoryErr(e)), MonitorChange::Keep),
            }
        },
        RequestBody::RegisterDeviceMonitor { location } => (
            Ok(ResponseMessage { body: ResponseBody::MonitorRegistered }),
            MonitorChange::Register(location),
        ),
        RequestBody::RemoveDeviceMonitor => (
            Ok(ResponseMessage { body: ResponseBody::MonitorRemoved }),
            MonitorChange::Remove,
        ),
    }
}

/// What the server reports to a monitor of a device, given a fresh temperature reading
/// for a sensor: the state and power of a socket, the reading of a sensor.
pub open spec fn device_data(device: DeviceItem, temperature: i32) -> ResponseBody {
    match device {
        DeviceItem::PowerSocket(ps) => ResponseBody::PowerSocketInfo {
            enabled: ps.enabled,
            power: ps.spec_power() as u32,
        },
        DeviceItem::TemperatureSensor(_) => ResponseBody::TemperatureSensorInfo { temperature },
    }
}

/// What a monitor is told of a socket is its own state, on or off, and its power, voltage
/// times current; of a sensor, the reading it was given.
pub proof fn lemma_device_data_reports_device(device: DeviceItem, temperature: i32)
    requires
        device_data_defined(device),
    ensures
        device matches DeviceItem::PowerSocket(ps) ==> device_data(device, temperature) matches ResponseBody::PowerSocketInfo {
            enabled,
            power,
        } && enabled == ps.enabled && power == ps.voltage * ps.current,
        device is TemperatureSensor ==> device_data(device, temperature) == (ResponseBody::TemperatureSensorInfo {
            temperature,
        }),
{
}

/// A report on a device can be made: a socket's power fits in a `u32`, and a sensor's range is not empty.
pub open spec fn device_data_defined(device: DeviceItem) -> bool {
    match device {
        DeviceItem::PowerSocket(ps) => ps.power_fits(),
        DeviceItem::TemperatureSensor(ts) => ts.range.min < ts.range.max,
    }
}

/// What the server reports to a monitor of `device`, with `temperature` as the reading of a sensor.
pub fn device_data_body(device: DeviceItem, temperature: i32) -> (b: ResponseBody)
    requires
        device_data_defined(device),
    ensures
        b == device_data(device, temperature),
        device matches DeviceItem::PowerSocket(ps) ==> b matches ResponseBody::PowerSocketInfo { enabled, power }
            && enabled == ps.enabled && power == ps.voltage * ps.current,
        device is TemperatureSensor ==> b == (ResponseBody::TemperatureSensorInfo { temperature }),
{
    match device {
        DeviceItem::PowerSocket(ps) => ResponseBody::PowerSocketInfo { enabled: ps.enabled, power: ps.power() },
        DeviceItem::TemperatureSensor(_) => ResponseBody::TemperatureSensorInfo { temperature },
    }
}

/// What the server reports to a monitor of the device at `location`: for a sensor, a fresh
/// random reading within its range.
pub fn get_device_data(location: &DeviceLocation, inventory: &MemoryDeviceInventory) -> (r: Result<
    ResponseMessage,
    IntelligentHouseError,
>)
    requires
        lookup(inventory@, location.room_name@, location.device_name@) matches Some(d) ==> device_data_defined(d),
    ensures
        match lookup(inventory@, location.room_name@, location.device_name@) {
            Some(d) => r matches Ok(m) && match d {
                DeviceItem::PowerSocket(ps) => {
                    &&& m.body == device_data(d, 0)
                    &&& m.body matches ResponseBody::PowerSocketInfo { enabled, power } && enabled == ps.enabled
                        && power == ps.voltage * ps.current
                },
                DeviceItem::TemperatureSensor(ts) => m.body matches ResponseBody::TemperatureSensorInfo {
                    temperature,
                } && ts.range.min <= temperature < ts.range.max,
            },
            None => r matches Err(IntelligentHouseError::InventoryErr(f)) && f
                == InventoryError::InventoryDeviceNotFound(location_device(*location), location_room(*location)),
        },
{
    let room_name = RoomName(location.room_name.clone());
    let device_name = DeviceName(location.device_name.clone());
    match inventory.get_device(&room_name, &device_name) {
        Ok(device) => {
            let temperature = match device {
                DeviceItem::PowerSocket(_) => 0,
                DeviceItem::TemperatureSensor(ts) => ts.current_temperature(),
            };
            Ok(ResponseMessage { body: device_data_body(device, temperature) })
        },
        Err(e) => Err(IntelligentHouseError::InventoryErr(e)),
    }
}

} // verus!
