//! The inventory operations offered to foreign callers: a predefined kitchen inventory,
//! switching a socket, and describing a device.
use vstd::prelude::*;

use crate::devices::power_socket::{PowerSocket, SocketType};
use crate::errors::intelligent_house_error::{inventory_error_debug, InventoryError};
use crate::house::domain::{DeviceName, RoomName};
use crate::inventory::domain::{device_info, socket_switched, switch_socket as switch_socket_state, DeviceItem};
use crate::inventory::device_inventory::{info_defined_in, lookup, DeviceInventory, InventoryMap};
use crate::inventory::memory_device_inventory::{device_pairs, room_pairs, MemoryDeviceInventory};
use crate::keyed::{lemma_push, to_map};

verus! {

/// Whether a socket is to be switched on or off.
#[derive(Debug, Clone, Copy, PartialEq, Eq, Structural)]
pub enum RawEnabled {
    Disabled,
    Enabled,
}

/// The status a foreign call returns.
#[derive(Debug, Clone, Copy, PartialEq, Eq, Structural)]
pub enum CallStatus {
    NoError,
    Parameter,
    InventoryError,
}

impl CallStatus {
    /// The number foreign callers receive: 0, 1 and 2, in the order of the variants.
    pub fn code(&self) -> (c: u8)
        ensures
            c == match *self {
                CallStatus::NoError => 0u8,
                CallStatus::Parameter => 1u8,
                CallStatus::InventoryError => 2u8,
            },
    {
        match self {
            CallStatus::NoError => 0,
            CallStatus::Parameter => 1,
            CallStatus::InventoryError => 2,
        }
    }
}

/// The predefined inventory: a kitchen with one socket of 220 V and 5 A, switched on.
pub open spec fn kitchen_inventory() -> InventoryMap {
    to_map(
        seq![
            ("kitchen"@, to_map(seq![
                ("socket 220V-5A"@, DeviceItem::PowerSocket(PowerSocket { tpe: SocketType::C, voltage: 220, current: 5, enabled: true })),
            ])),
        ],
    )
}

/// The predefined inventory holds one room, `kitchen`, with one device, `socket 220V-5A`:
/// a socket of type C for 220 V and 5 A, switched on.
pub proof fn lemma_kitchen_inventory_contents()
    ensures
        kitchen_inventory().dom() == set!["kitchen"@],
        kitchen_inventory()["kitchen"@].dom() == set!["socket 220V-5A"@],
        kitchen_inventory()["kitchen"@]["socket 220V-5A"@] == DeviceItem::PowerSocket(
            PowerSocket { tpe: SocketType::C, voltage: 220, current: 5, enabled: true },
        ),
{
    let socket = DeviceItem::PowerSocket(PowerSocket { tpe: SocketType::C, voltage: 220, current: 5, enabled: true });
    let devices = seq![("socket 220V-5A"@, socket)];
    assert(devices =~= Seq::<(Seq<char>, DeviceItem)>::empty().push(("socket 220V-5A"@, socket)));
    lemma_push(Seq::<(Seq<char>, DeviceItem)>::empty(), "socket 220V-5A"@, socket);
    assert(to_map(Seq::<(Seq<char>, DeviceItem)>::empty()) == Map::<Seq<char>, DeviceItem>::empty());
    let rooms = seq![("kitchen"@, to_map(devices))];
    assert(rooms =~= Seq::<(Seq<char>, Map<Seq<char>, DeviceItem>)>::empty().push(("kitchen"@, to_map(devices))));
    lemma_push(Seq::<(Seq<char>, Map<Seq<char>, DeviceItem>)>::empty(), "kitchen"@, to_map(devices));
    assert(to_map(Seq::<(Seq<char>, Map<Seq<char>, DeviceItem>)>::empty()) == Map::<Seq<char>, Map<Seq<char>, DeviceItem>>::empty());
    assert(to_map(devices).dom() =~= set!["socket 220V-5A"@]);
    assert(kitchen_inventory().dom() =~= set!["kitchen"@]);
}

/// Creates the predefined inventory: one room, `kitchen`, with one device, `socket 220V-5A`,
/// a socket of type C for 220 V and 5 A, switched on.
pub fn create_inventory() -> (inv: MemoryDeviceInventory)
    ensures
        inv@ == kitchen_inventory(),
        inv@.dom() == set!["kitchen"@],
        inv@["kitchen"@].dom() == set!["socket 220V-5A"@],
        inv@["kitchen"@]["socket 220V-5A"@] == DeviceItem::PowerSocket(
            PowerSocket { tpe: SocketType::C, voltage: 220, current: 5, enabled: true },
        ),
{
    proof { lemma_kitchen_inventory_contents(); }
    let mut devices: Vec<(DeviceName, DeviceItem)> = Vec::new();
    devices.push((
        DeviceName("socket 220V-5A".to_owned()),
        DeviceItem::PowerSocket(PowerSocket { tpe: SocketType::C, voltage: 220, current: 5, enabled: true }),
    ));
    let mut rooms: Vec<(RoomName, Vec<(DeviceName, DeviceItem)>)> = Vec::new();
    rooms.push((RoomName("kitchen".to_owned()), devices));
    proof {
        assert(device_pairs(rooms@[0].1@) =~= seq![
            ("socket 220V-5A"@, DeviceItem::PowerSocket(PowerSocket { tpe: SocketType::C, voltage: 220, current: 5, enabled: true })),
        ]);
        assert(room_pairs(rooms@) =~= seq![("kitchen"@, to_map(device_pairs(rooms@[0].1@)))]);
    }
    MemoryDeviceInventory::new(rooms)
}

/// Switches the socket at that place on or off. Returns `NoError` when it is a socket,
/// and `InventoryError` when the room or the device is missing or the device is not a socket.
pub fn switch_socket(
    inventory: &mut MemoryDeviceInventory,
    room_name: &RoomName,
    device_name: &DeviceName,
    enabled: RawEnabled,
) -> (s: CallStatus)
    ensures
        match lookup(old(inventory)@, room_name@, device_name@) {
            Some(DeviceItem::PowerSocket(ps)) => s == CallStatus::NoError && final(inventory)@ == old(inventory)@.insert(
                room_name@,
                old(inventory)@[room_name@].insert(
                    device_name@,
                    DeviceItem::PowerSocket(PowerSocket { enabled: enabled == RawEnabled::Enabled, ..ps }),
                ),
            ),
            _ => s == CallStatus::InventoryError && final(inventory)@ == old(inventory)@,
        },
{
    let ps_enabled = enabled == RawEnabled::Enabled;
    let modify = |d: DeviceItem| -> (c: Result<DeviceItem, InventoryError>)
        ensures
            c == socket_switched(d, ps_enabled, *device_name, *room_name),
        { switch_socket_state(d, ps_enabled, device_name, room_name) };
    match inventory.change_device(room_name, device_name, modify) {
        Ok(()) => CallStatus::NoError,
        Err(_) => CallStatus::InventoryError,
    }
}

/// The description of the device at that place, or `error:` and the `{:?}` text of the
/// inventory's error.
pub fn get_socket_info(inventory: &MemoryDeviceInventory, room_name: &RoomName, device_name: &DeviceName) -> (info:
    String)
    requires
        info_defined_in(inventory@, room_name@, device_name@),
    ensures
        match lookup(inventory@, room_name@, device_name@) {
            Some(d) => info@ == device_info(d, device_name@),
            None => info@ == "error:"@ + inventory_error_debug(
                InventoryError::InventoryDeviceNotFound(*device_name, *room_name),
            ),
        },
{
    match inventory.get_info(room_name, device_name) {
        Ok(info) => info,
        Err(e) => {
            let mut s = String::new();
            s.append("error:");
            let d = e.debug_string();
            s.append(d.as_str());
            s
        },
    }
}

} // verus!
