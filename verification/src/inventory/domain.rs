//! The devices an inventory holds.
use vstd::prelude::*;

use crate::devices::device_info::DeviceInfo;
use crate::devices::power_socket::{power_socket_info, PowerSocket};
use crate::devices::temperature_sensor::{temperature_sensor_info, TemperatureSensor};
use crate::errors::intelligent_house_error::InventoryError;
use crate::house::domain::{DeviceName, RoomName};

verus! {

/// A device of the inventory: a power socket or a temperature sensor.
#[derive(Debug, Clone, Copy, PartialEq, Eq, Structural)]
pub enum DeviceItem {
    PowerSocket(PowerSocket),
    TemperatureSensor(TemperatureSensor),
}

/// Whether the description of a device can be produced.
pub open spec fn device_info_defined(device: DeviceItem) -> bool {
    match device {
        DeviceItem::PowerSocket(ps) => ps.power_fits(),
        DeviceItem::TemperatureSensor(_) => true,
    }
}

/// The description of a device named `name`.
pub open spec fn device_info(device: DeviceItem, name: Seq<char>) -> Seq<char> {
    match device {
        DeviceItem::PowerSocket(ps) => power_socket_info(ps, name),
        DeviceItem::TemperatureSensor(ts) => temperature_sensor_info(ts, name),
    }
}

/// Whether the description of a device can be produced: the power of a socket must fit
/// in a `u32`.
pub fn device_info_fits(device: DeviceItem) -> (b: bool)
    ensures
        b == device_info_defined(device),
{
    match device {
        DeviceItem::PowerSocket(ps) => {
            let v = ps.voltage as u64;
            let c = ps.current as u64;
            assert(v * c <= 0xffff_fffe_0000_0001) by (nonlinear_arith)
                requires
                    v <= 0xffff_ffff,
                    c <= 0xffff_ffff,
            ;
            v * c <= 0xffff_ffff
        },
        DeviceItem::TemperatureSensor(_) => true,
    }
}

/// The description of `device` under the name `device_name`.
pub fn get_info(device: DeviceItem, device_name: &DeviceName) -> (info: String)
    requires
        device_info_defined(device),
    ensures
        info@ == device_info(device, device_name@),
{
    match device {
        DeviceItem::PowerSocket(ps) => ps.get_info(device_name),
        DeviceItem::TemperatureSensor(ts) => ts.get_info(device_name),
    }
}

/// A power socket switched on or off; any other device is refused as invalid for the change.
pub open spec fn socket_switched(device: DeviceItem, enabled: bool, device_name: DeviceName, room_name: RoomName)
    -> Result<DeviceItem, InventoryError> {
    match device {
        DeviceItem::PowerSocket(ps) => Ok(DeviceItem::PowerSocket(PowerSocket { enabled, ..ps })),
        DeviceItem::TemperatureSensor(_) => Err(InventoryError::InventoryDeviceInvalid(device_name, room_name)),
    }
}

/// Switching a socket leaves it in the requested state, on or off, whatever its state was,
/// and keeps its type, voltage and current; a sensor is refused as invalid for the change.
pub proof fn lemma_socket_switched_sets_state(device: DeviceItem, enabled: bool, device_name: DeviceName, room_name: RoomName)
    ensures
        device matches DeviceItem::PowerSocket(ps) ==> socket_switched(device, enabled, device_name, room_name) matches Ok(
            DeviceItem::PowerSocket(q),
        ) && q.enabled == enabled && q.tpe == ps.tpe && q.voltage == ps.voltage && q.current == ps.current,
        device is TemperatureSensor ==> socket_switched(device, enabled, device_name, room_name) == Err::<
            DeviceItem,
            InventoryError,
        >(InventoryError::InventoryDeviceInvalid(device_name, room_name)),
{
}

/// Switching a socket and then switching it back to its former state gives the socket back.
pub proof fn lemma_socket_switched_back(ps: PowerSocket, enabled: bool, device_name: DeviceName, room_name: RoomName)
    ensures
        socket_switched(DeviceItem::PowerSocket(ps), enabled, device_name, room_name) matches Ok(d)
            && socket_switched(d, ps.enabled, device_name, room_name) == Ok::<DeviceItem, InventoryError>(
            DeviceItem::PowerSocket(ps),
        ),
{
}

/// Switches a power socket on or off; any other device is refused as invalid for the change.
pub fn switch_socket(device: DeviceItem, enabled: bool, device_name: &DeviceName, room_name: &RoomName)
    -> (r: Result<DeviceItem, InventoryError>)
    ensures
        r == socket_switched(device, enabled, *device_name, *room_name),
        device matches DeviceItem::PowerSocket(ps) ==> r matches Ok(DeviceItem::PowerSocket(q)) && q.enabled == enabled
            && q.tpe == ps.tpe && q.voltage == ps.voltage && q.current == ps.current,
        device is TemperatureSensor ==> r == Err::<DeviceItem, InventoryError>(
            InventoryError::InventoryDeviceInvalid(*device_name, *room_name),
        ),
{
    match device {
        DeviceItem::PowerSocket(ps) => {
            let mut ps = ps;
            ps.enabled = enabled;
            Ok(DeviceItem::PowerSocket(ps))
        },
        DeviceItem::TemperatureSensor(_) => Err(
            InventoryError::InventoryDeviceInvalid(device_name.copied(), room_name.copied()),
        ),
    }
}

impl From<PowerSocket> for DeviceItem {
    fn from(ps: PowerSocket) -> (d: Self) {
        DeviceItem::PowerSocket(ps)
    }
}

impl vstd::std_specs::convert::FromSpecImpl<PowerSocket> for DeviceItem {
    open spec fn obeys_from_spec() -> bool {
        true
    }

    open spec fn from_spec(ps: PowerSocket) -> Self {
        DeviceItem::PowerSocket(ps)
    }
}

impl From<TemperatureSensor> for DeviceItem {
    fn from(ts: TemperatureSensor) -> (d: Self) {
        DeviceItem::TemperatureSensor(ts)
    }
}

impl vstd::std_specs::convert::FromSpecImpl<TemperatureSensor> for DeviceItem {
    open spec fn obeys_from_spec() -> bool {
        true
    }

    open spec fn from_spec(ts: TemperatureSensor) -> Self {
        DeviceItem::TemperatureSensor(ts)
    }
}

/// The devices of one room, split by kind, each under its name.
#[derive(Debug)]
pub struct RoomDevices {
    pub name: RoomName,
    pub sockets: Vec<(DeviceName, PowerSocket)>,
    pub sensors: Vec<(DeviceName, TemperatureSensor)>,
}

} // verus!
