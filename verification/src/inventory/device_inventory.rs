//! What a device inventory offers: its rooms and the devices of each room by name.
use vstd::prelude::*;

use crate::errors::intelligent_house_error::InventoryError;
use crate::house::domain::{DeviceName, RoomName};
use crate::inventory::domain::{device_info, device_info_defined, device_info_fits, DeviceItem};

verus! {

/// The devices of a room, by name.
pub type DeviceMap = Map<Seq<char>, DeviceItem>;

/// Rooms by name, each with its devices by name.
pub type InventoryMap = Map<Seq<char>, DeviceMap>;

/// The names of a list of rooms.
pub open spec fn room_names_view(v: Seq<RoomName>) -> Seq<Seq<char>> {
    v.map_values(|r: RoomName| r@)
}

/// The device named `device` in the room named `room` of an inventory, if there is one.
pub open spec fn lookup(m: InventoryMap, room: Seq<char>, device: Seq<char>) -> Option<DeviceItem> {
    if m.contains_key(room) && m[room].contains_key(device) {
        Some(m[room][device])
    } else {
        None
    }
}

/// Whether the description of the device at that place can be produced, where there is one.
pub open spec fn info_defined_in(m: InventoryMap, room: Seq<char>, device: Seq<char>) -> bool {
    lookup(m, room, device) matches Some(d) ==> device_info_defined(d)
}

/// A device inventory: rooms by name, each with its devices by name.
pub trait DeviceInventory {
    /// The rooms of the inventory by name, each with its devices by name.
    spec fn devices(&self) -> InventoryMap;

    /// The description of the device named `device_name` in the room named `room_name`.
    fn get_info(&self, room_name: &RoomName, device_name: &DeviceName) -> (r: Result<String, InventoryError>)
        requires
            info_defined_in(self.devices(), room_name@, device_name@),
        ensures
            match lookup(self.devices(), room_name@, device_name@) {
                Some(d) => r matches Ok(info) && info@ == device_info(d, device_name@),
                None => r == Err::<String, InventoryError>(
                    InventoryError::InventoryDeviceNotFound(*device_name, *room_name),
                ),
            },
    ;

    /// The device named `device_name` in the room named `room_name`.
    fn get_device(&self, room_name: &RoomName, device_name: &DeviceName) -> (r: Result<DeviceItem, InventoryError>)
        ensures
            match lookup(self.devices(), room_name@, device_name@) {
                Some(d) => r == Ok::<DeviceItem, InventoryError>(d),
                None => r == Err::<DeviceItem, InventoryError>(
                    InventoryError::InventoryDeviceNotFound(*device_name, *room_name),
                ),
            },
    ;

    /// Whether the description of the device at that place can be produced, where there is one.
    fn can_describe(&self, room_name: &RoomName, device_name: &DeviceName) -> (b: bool)
        ensures
            b == info_defined_in(self.devices(), room_name@, device_name@),
    {
        match self.get_device(room_name, device_name) {
            Ok(d) => device_info_fits(d),
            Err(_) => true,
        }
    }

    /// The names of the rooms, each once.
    fn get_rooms(&self) -> (r: Result<Vec<RoomName>, InventoryError>)
        ensures
            r matches Ok(names) && room_names_view(names@).no_duplicates()
                && room_names_view(names@).to_set() == self.devices().dom(),
    ;

    /// Adds an empty room, unless a room of that name is there.
    fn add_room(&mut self, room_name: &RoomName) -> (r: Result<(), InventoryError>)
        ensures
            old(self).devices().contains_key(room_name@) ==> r == Err::<(), InventoryError>(
                InventoryError::InventoryRoomAlreadyAdded(*room_name),
            ) && final(self).devices() == old(self).devices(),
            !old(self).devices().contains_key(room_name@) ==> r is Ok
                && final(self).devices() == old(self).devices().insert(room_name@, Map::empty()),
    ;

    /// Removes the room and its devices, if there is a room of that name.
    fn remove_room(&mut self, room_name: &RoomName) -> (r: Result<(), InventoryError>)
        ensures
            old(self).devices().contains_key(room_name@) ==> r is Ok && final(self).devices() == old(self).devices().remove(room_name@),
            !old(self).devices().contains_key(room_name@) ==> r == Err::<(), InventoryError>(
                InventoryError::InventoryRoomNotFound(*room_name),
            ) && final(self).devices() == old(self).devices(),
    ;

    /// Adds a device to a room, unless the room is missing or already has a device of that name.
    fn add_device(&mut self, room_name: &RoomName, device_name: &DeviceName, device: DeviceItem)
        -> (r: Result<(), InventoryError>)
        ensures
            !old(self).devices().contains_key(room_name@) ==> r == Err::<(), InventoryError>(
                InventoryError::InventoryRoomNotFound(*room_name),
            ) && final(self).devices() == old(self).devices(),
            old(self).devices().contains_key(room_name@) && old(self).devices()[room_name@].contains_key(device_name@)
                ==> r == Err::<(), InventoryError>(
                InventoryError::InventoryDeviceAlreadyAdded(*device_name, *room_name),
            ) && final(self).devices() == old(self).devices(),
            old(self).devices().contains_key(room_name@) && !old(self).devices()[room_name@].contains_key(device_name@)
                ==> r is Ok && final(self).devices() == old(self).devices().insert(
                room_name@,
                old(self).devices()[room_name@].insert(device_name@, device),
            ),
    ;

    /// Removes a device from a room, if both are there.
    fn remove_device(&mut self, room_name: &RoomName, device_name: &DeviceName) -> (r: Result<(), InventoryError>)
        ensures
            !old(self).devices().contains_key(room_name@) ==> r == Err::<(), InventoryError>(
                InventoryError::InventoryRoomNotFound(*room_name),
            ) && final(self).devices() == old(self).devices(),
            old(self).devices().contains_key(room_name@) && !old(self).devices()[room_name@].contains_key(device_name@)
                ==> r == Err::<(), InventoryError>(
                InventoryError::InventoryDeviceNotFound(*device_name, *room_name),
            ) && final(self).devices() == old(self).devices(),
            old(self).devices().contains_key(room_name@) && old(self).devices()[room_name@].contains_key(device_name@)
                ==> r is Ok && final(self).devices() == old(self).devices().insert(
                room_name@,
                old(self).devices()[room_name@].remove(device_name@),
            ),
    ;

    /// Replaces the device named `device_name` in the room named `room_name` by what
    /// `modify` makes of it. When `modify` fails, its error is returned and nothing changes.
    fn change_device<F: Fn(DeviceItem) -> Result<DeviceItem, InventoryError>>(
        &mut self,
        room_name: &RoomName,
        device_name: &DeviceName,
        modify: F,
    ) -> (r: Result<(), InventoryError>)
        requires
            lookup(old(self).devices(), room_name@, device_name@) matches Some(d) ==> modify.requires((d,)),
        ensures
            !old(self).devices().contains_key(room_name@) ==> r == Err::<(), InventoryError>(
                InventoryError::InventoryRoomNotFound(*room_name),
            ) && final(self).devices() == old(self).devices(),
            old(self).devices().contains_key(room_name@) && !old(self).devices()[room_name@].contains_key(device_name@)
                ==> r == Err::<(), InventoryError>(
                InventoryError::InventoryDeviceNotFound(*device_name, *room_name),
            ) && final(self).devices() == old(self).devices(),
            lookup(old(self).devices(), room_name@, device_name@) matches Some(d) ==> exists|out: Result<DeviceItem, InventoryError>|
                #[trigger] modify.ensures((d,), out) && match out {
                    Ok(n) => r is Ok && final(self).devices() == old(self).devices().insert(
                        room_name@,
                        old(self).devices()[room_name@].insert(device_name@, n),
                    ),
                    Err(e) => r == Err::<(), InventoryError>(e) && final(self).devices() == old(self).devices(),
                },
    ;
}

} // verus!
