//! What a house offers: its rooms, each with the names of its devices, and a report on them.
use vstd::prelude::*;

use crate::errors::intelligent_house_error::HouseError;
use crate::house::domain::{device_names_view, DeviceName, Room, RoomName};
use crate::house::memory_intelligent_house::{house_report, report_defined, room_names, room_position, rooms_view, RoomView};
use crate::inventory::device_inventory::DeviceInventory;
use crate::keyed::first_index_of;

verus! {

/// A house: a name, and rooms in order, each with the names of its devices in order.
pub trait IntelligentHouse {
    /// The rooms, in order, as names and device names.
    spec fn room_views(&self) -> Seq<RoomView>;

    /// The name of the house.
    spec fn house_name(&self) -> Seq<char>;

    /// Copies of all rooms, in order.
    fn get_rooms(&self) -> (r: Result<Vec<Room>, HouseError>)
        ensures
            r matches Ok(rooms) && rooms_view(rooms@) == self.room_views(),
    ;

    /// A copy of the first room named `room_name`.
    fn get_room(&self, room_name: &RoomName) -> (r: Result<Room, HouseError>)
        ensures
            match room_position(self.room_views(), room_name@) {
                Some(i) => r matches Ok(room) && room@ == self.room_views()[i],
                None => r == Err::<Room, HouseError>(HouseError::RoomNotFound(*room_name)),
            },
    ;

    /// Adds an empty room at the end, unless a room of that name is there.
    fn add_room(&mut self, room_name: &RoomName) -> (r: Result<(), HouseError>)
        ensures
            final(self).house_name() == old(self).house_name(),
            room_names(old(self).room_views()).contains(room_name@) ==> r == Err::<(), HouseError>(
                HouseError::RoomAlreadyAdded(*room_name),
            ) && final(self).room_views() == old(self).room_views(),
            !room_names(old(self).room_views()).contains(room_name@) ==> r is Ok
                && final(self).room_views() == old(self).room_views().push((room_name@, Seq::<Seq<char>>::empty())),
    ;

    /// Removes the first room named `room_name`; the last room takes its place.
    fn remove_room(&mut self, room_name: &RoomName) -> (r: Result<(), HouseError>)
        ensures
            final(self).house_name() == old(self).house_name(),
            match room_position(old(self).room_views(), room_name@) {
                Some(i) => r is Ok && final(self).room_views() == old(self).room_views().update(i, old(self).room_views().last()).drop_last(),
                None => r == Err::<(), HouseError>(HouseError::RoomNotFound(*room_name))
                    && final(self).room_views() == old(self).room_views(),
            },
    ;

    /// The device names of the first room named `room_name`.
    fn get_devices(&self, room_name: &RoomName) -> (r: Result<Vec<DeviceName>, HouseError>)
        ensures
            match room_position(self.room_views(), room_name@) {
                Some(i) => r matches Ok(devices) && device_names_view(devices@) == self.room_views()[i].1,
                None => r == Err::<Vec<DeviceName>, HouseError>(HouseError::RoomNotFound(*room_name)),
            },
    ;

    /// Adds a device name at the end of the first room named `room_name`, unless the room
    /// is missing or already lists that device.
    fn add_device(&mut self, room_name: &RoomName, device_name: &DeviceName) -> (r: Result<(), HouseError>)
        ensures
            final(self).house_name() == old(self).house_name(),
            match room_position(old(self).room_views(), room_name@) {
                Some(i) => if old(self).room_views()[i].1.contains(device_name@) {
                    r == Err::<(), HouseError>(HouseError::RoomDeviceAlreadyAdded(*device_name, *room_name))
                        && final(self).room_views() == old(self).room_views()
                } else {
                    r is Ok && final(self).room_views() == old(self).room_views().update(
                        i,
                        (old(self).room_views()[i].0, old(self).room_views()[i].1.push(device_name@)),
                    )
                },
                None => r == Err::<(), HouseError>(HouseError::RoomNotFound(*room_name))
                    && final(self).room_views() == old(self).room_views(),
            },
    ;

    /// Removes the first occurrence of a device name from the first room named `room_name`;
    /// the last device name of that room takes its place.
    fn remove_device(&mut self, room_name: &RoomName, device_name: &DeviceName) -> (r: Result<(), HouseError>)
        ensures
            final(self).house_name() == old(self).house_name(),
            match room_position(old(self).room_views(), room_name@) {
                Some(i) => match first_index_of(old(self).room_views()[i].1, device_name@) {
                    Some(j) => r is Ok && final(self).room_views() == old(self).room_views().update(
                        i,
                        (old(self).room_views()[i].0, old(self).room_views()[i].1.update(j, old(self).room_views()[i].1.last()).drop_last()),
                    ),
                    None => r == Err::<(), HouseError>(
                        HouseError::RoomDeviceNotFound(*device_name, *room_name),
                    ) && final(self).room_views() == old(self).room_views(),
                },
                None => r == Err::<(), HouseError>(HouseError::RoomNotFound(*room_name))
                    && final(self).room_views() == old(self).room_views(),
            },
    ;

    /// The report on the house: for each room in order, the description the inventory
    /// gives of each of its devices, or the inventory's message where it lacks one.
    fn generate_report<T: DeviceInventory>(&self, inventory: &T) -> (r: Result<String, HouseError>)
        requires
            report_defined(self.room_views(), inventory.devices()),
        ensures
            r matches Ok(report) && report@ == house_report(self.house_name(), self.room_views(), inventory.devices()),
    ;
}

} // verus!
