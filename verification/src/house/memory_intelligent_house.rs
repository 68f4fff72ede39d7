//! A house kept in memory: its name and its rooms, each with the names of its devices.
use vstd::prelude::*;

use crate::errors::intelligent_house_error::HouseError;
use crate::house::domain::{copy_device_names, device_names_view, DeviceName, HouseName, Room, RoomName};
use crate::inventory::domain::device_info;
use crate::inventory::device_inventory::{info_defined_in, lookup, DeviceInventory, InventoryMap};
use crate::keyed::{first_index_of, lemma_first_index_absent, lemma_first_index_of, lemma_first_index_some};
use crate::house::intelligent_house::IntelligentHouse;
use crate::text::{decimal, lemma_occurs_in_middle, lemma_occurs_in_self, occurs_in, push_decimal};

verus! {

/// A room as a name and the names of its devices, in order.
pub type RoomView = (Seq<char>, Seq<Seq<char>>);

/// The rooms of a list, as names and device names.
pub open spec fn rooms_view(rooms: Seq<Room>) -> Seq<RoomView> {
    rooms.map_values(|r: Room| r@)
}

/// The names of the rooms, in order.
pub open spec fn room_names(rv: Seq<RoomView>) -> Seq<Seq<char>> {
    rv.map_values(|r: RoomView| r.0)
}

/// The position of the first room named `name`, if there is one.
pub open spec fn room_position(rv: Seq<RoomView>, name: Seq<char>) -> Option<int> {
    first_index_of(room_names(rv), name)
}

/// The devices listed by the first room named `name`; none when there is no such room.
pub open spec fn room_devices_of(rv: Seq<RoomView>, name: Seq<char>) -> Seq<Seq<char>> {
    match room_position(rv, name) {
        Some(i) => rv[i].1,
        None => Seq::empty(),
    }
}

/// What the inventory says when it lacks a device.
pub open spec fn device_not_found_message(device: Seq<char>, room: Seq<char>) -> Seq<char> {
    "inventory device `"@ + device + "` not found into room "@ + room
}

/// The report line of a device: its description, or the inventory's message when it lacks it.
pub open spec fn device_line(inv: InventoryMap, room: Seq<char>, device: Seq<char>) -> Seq<char> {
    match lookup(inv, room, device) {
        Some(d) => device_info(d, device),
        None => device_not_found_message(device, room),
    }
}

/// The report lines of the devices of a room, each indented and ended by a newline.
pub open spec fn device_lines(inv: InventoryMap, room: Seq<char>, devices: Seq<Seq<char>>) -> Seq<char>
    decreases devices.len(),
{
    if devices.len() == 0 {
        Seq::empty()
    } else {
        device_lines(inv, room, devices.drop_last()) + "     "@ + device_line(inv, room, devices.last()) + "\n"@
    }
}

/// The part of the report on the room named `name`.
pub open spec fn room_block(inv: InventoryMap, rv: Seq<RoomView>, name: Seq<char>) -> Seq<char> {
    "   '"@ + name + "' has:\n"@ + device_lines(inv, name, room_devices_of(rv, name)) + "\n"@
}

/// The parts of the report on the rooms named in `names`, in order.
pub open spec fn room_blocks(inv: InventoryMap, rv: Seq<RoomView>, names: Seq<Seq<char>>) -> Seq<char>
    decreases names.len(),
{
    if names.len() == 0 {
        Seq::empty()
    } else {
        room_blocks(inv, rv, names.drop_last()) + room_block(inv, rv, names.last())
    }
}

/// The report on a house: a heading with the number of rooms, then each room in order
/// with the report lines of its devices.
pub open spec fn house_report(house_name: Seq<char>, rv: Seq<RoomView>, inv: InventoryMap) -> Seq<char> {
    "'"@ + house_name + "' contains "@ + decimal(rv.len()) + " rooms:\n"@ + room_blocks(inv, rv, room_names(rv))
}

/// Every device the report describes has a description that can be produced.
pub open spec fn report_defined(rv: Seq<RoomView>, inv: InventoryMap) -> bool {
    forall|i: int, j: int|
        0 <= i < rv.len() && 0 <= j < room_devices_of(rv, rv[i].0).len() ==> info_defined_in(
            inv,
            rv[i].0,
            #[trigger] room_devices_of(rv, rv[i].0)[j],
        )
}

/// A house kept in memory.
#[derive(Debug)]
pub struct MemoryIntelligentHouse {
    pub name: HouseName,
    pub rooms: Vec<Room>,
}

impl View for MemoryIntelligentHouse {
    type V = Seq<RoomView>;

    open spec fn view(&self) -> Seq<RoomView> {
        rooms_view(self.rooms@)
    }
}

fn find_room_index(rooms: &Vec<Room>, name: &RoomName) -> (r: Option<usize>)
    ensures
        match room_position(rooms_view(rooms@), name@) {
            Some(i) => r matches Some(k) && k == i && 0 <= i < rooms@.len(),
            None => r is None,
        },
        r matches Some(i) ==> i < rooms@.len() && rooms@[i as int].name@ == name@,
{
    let ghost names = room_names(rooms_view(rooms@));
    let mut i: usize = 0;
    while i < rooms.len()
        invariant
            i <= rooms@.len(),
            names == room_names(rooms_view(rooms@)),
            forall|j: int| 0 <= j < i ==> names[j] != name@,
        decreases rooms.len() - i,
    {
        if rooms[i].name.same_as(name) {
            proof {
                assert(names[i as int] == name@);
                lemma_first_index_of(names, name@, i as int);
            }
            return Some(i);
        }
        proof { assert(names[i as int] == rooms@[i as int].name@); }
        i = i + 1;
    }
    proof { lemma_first_index_absent(names, name@); }
    None
}

fn find_device_index(devices: &Vec<DeviceName>, name: &DeviceName) -> (r: Option<usize>)
    ensures
        match first_index_of(device_names_view(devices@), name@) {
            Some(i) => r matches Some(k) && k == i && 0 <= i < devices@.len(),
            None => r is None,
        },
        r matches Some(i) ==> i < devices@.len(),
{
    let ghost names = device_names_view(devices@);
    let mut i: usize = 0;
    while i < devices.len()
        invariant
            i <= devices@.len(),
            names == device_names_view(devices@),
            forall|j: int| 0 <= j < i ==> names[j] != name@,
        decreases devices.len() - i,
    {
        if devices[i].same_as(name) {
            proof {
                assert(names[i as int] == name@);
                lemma_first_index_of(names, name@, i as int);
            }
            return Some(i);
        }
        proof { assert(names[i as int] == devices@[i as int]@); }
        i = i + 1;
    }
    proof { lemma_first_index_absent(names, name@); }
    None
}

proof fn lemma_rooms_view_update(rooms: Seq<Room>, i: int, room: Room)
    requires
        0 <= i < rooms.len(),
    ensures
        rooms_view(rooms.update(i, room)) == rooms_view(rooms).update(i, room@),
{
    assert(rooms_view(rooms.update(i, room)) =~= rooms_view(rooms).update(i, room@));
}

impl MemoryIntelligentHouse {
    /// A house with the given name and rooms.
    pub fn create(name: &str, rooms: Vec<Room>) -> (house: MemoryIntelligentHouse)
        ensures
            house.name@ == name@,
            house@ == rooms_view(rooms@),
    {
        MemoryIntelligentHouse { name: HouseName(name.to_owned()), rooms }
    }

}

impl IntelligentHouse for MemoryIntelligentHouse {
    open spec fn room_views(&self) -> Seq<RoomView> {
        self@
    }

    open spec fn house_name(&self) -> Seq<char> {
        self.name@
    }

    fn get_rooms(&self) -> (r: Result<Vec<Room>, HouseError>)
    {
        let mut rooms: Vec<Room> = Vec::new();
        let mut i: usize = 0;
        while i < self.rooms.len()
            invariant
                i <= self.rooms@.len(),
                rooms_view(rooms@) == self@.subrange(0, i as int),
            decreases self.rooms.len() - i,
        {
            let ghost before = rooms@;
            let room = self.rooms[i].copied();
            rooms.push(room);
            proof {
                assert(rooms_view(rooms@) =~= rooms_view(before).push(room@));
                assert(self@.subrange(0, i + 1) =~= self@.subrange(0, i as int).push(self@[i as int]));
            }
            i = i + 1;
        }
        proof { assert(self@.subrange(0, i as int) =~= self@); }
        Ok(rooms)
    }

    fn get_room(&self, room_name: &RoomName) -> (r: Result<Room, HouseError>)
    {
        match find_room_index(&self.rooms, room_name) {
            Some(i) => {
                proof { assert(self@[i as int] == self.rooms@[i as int]@); }
                Ok(self.rooms[i].copied())
            },
            None => Err(HouseError::RoomNotFound(room_name.copied())),
        }
    }

    fn add_room(&mut self, room_name: &RoomName) -> (r: Result<(), HouseError>)
    {
        match find_room_index(&self.rooms, room_name) {
            Some(i) => {
                proof { assert(room_names(self@)[i as int] == room_name@); }
                Err(HouseError::RoomAlreadyAdded(room_name.copied()))
            },
            None => {
                proof {
                    lemma_first_index_some(room_names(self@), room_name@);
                }
                let ghost before = self.rooms@;
                let room = Room { name: room_name.copied(), devices: Vec::new() };
                proof { assert(device_names_view(room.devices@) =~= Seq::<Seq<char>>::empty()); }
                self.rooms.push(room);
                proof { assert(rooms_view(self.rooms@) =~= rooms_view(before).push(room@)); }
                Ok(())
            },
        }
    }

    fn remove_room(&mut self, room_name: &RoomName) -> (r: Result<(), HouseError>)
    {
        match find_room_index(&self.rooms, room_name) {
            Some(i) => {
                let ghost before = self.rooms@;
                self.rooms.swap_remove(i);
                proof {
                    assert(rooms_view(self.rooms@) =~= rooms_view(before).update(
                        i as int,
                        rooms_view(before).last(),
                    ).drop_last());
                }
                Ok(())
            },
            None => Err(HouseError::RoomNotFound(room_name.copied())),
        }
    }

    fn get_devices(&self, room_name: &RoomName) -> (r: Result<Vec<DeviceName>, HouseError>)
    {
        match find_room_index(&self.rooms, room_name) {
            Some(i) => {
                proof { assert(self@[i as int] == self.rooms@[i as int]@); }
                Ok(copy_device_names(&self.rooms[i].devices))
            },
            None => Err(HouseError::RoomNotFound(room_name.copied())),
        }
    }

    fn add_device(&mut self, room_name: &RoomName, device_name: &DeviceName) -> (r: Result<(), HouseError>)
    {
        match find_room_index(&self.rooms, room_name) {
            Some(i) => {
                proof {
                    assert(self@[i as int] == self.rooms@[i as int]@);
                    lemma_first_index_some(self@[i as int].1, device_name@);
                }
                match find_device_index(&self.rooms[i].devices, device_name) {
                    Some(_) => Err(HouseError::RoomDeviceAlreadyAdded(device_name.copied(), room_name.copied())),
                    None => {
                        let ghost before = self.rooms@;
                        let mut room = self.rooms.remove(i);
                        let ghost before_devices = room.devices@;
                        room.devices.push(device_name.copied());
                        proof {
                            assert(device_names_view(room.devices@) =~= device_names_view(before_devices).push(
                                device_name@,
                            ));
                        }
                        self.rooms.insert(i, room);
                        proof {
                            assert(self.rooms@ =~= before.update(i as int, room));
                            lemma_rooms_view_update(before, i as int, room);
                        }
                        Ok(())
                    },
                }
            },
            None => Err(HouseError::RoomNotFound(room_name.copied())),
        }
    }

    fn remove_device(&mut self, room_name: &RoomName, device_name: &DeviceName) -> (r: Result<(), HouseError>)
    {
        match find_room_index(&self.rooms, room_name) {
            Some(i) => {
                proof { assert(self@[i as int] == self.rooms@[i as int]@); }
                match find_device_index(&self.rooms[i].devices, device_name) {
                    Some(j) => {
                        let ghost before = self.rooms@;
                        let mut room = self.rooms.remove(i);
                        let ghost before_devices = room.devices@;
                        room.devices.swap_remove(j);
                        proof {
                            assert(device_names_view(room.devices@) =~= device_names_view(before_devices).update(
                                j as int,
                                device_names_view(before_devices).last(),
                            ).drop_last());
                        }
                        self.rooms.insert(i, room);
                        proof {
                            assert(self.rooms@ =~= before.update(i as int, room));
                            lemma_rooms_view_update(before, i as int, room);
                        }
                        Ok(())
                    },
                    None => Err(HouseError::RoomDeviceNotFound(device_name.copied(), room_name.copied())),
                }
            },
            None => Err(HouseError::RoomNotFound(room_name.copied())),
        }
    }
    fn generate_report<T: DeviceInventory>(&self, inventory: &T) -> (r: Result<String, HouseError>)
    {
        let ghost rv = self@;
        let ghost inv = inventory.devices();
        let ghost names = room_names(rv);
        let mut report = String::new();
        report.append("'");
        report.append(self.name.0.as_str());
        report.append("' contains ");
        push_decimal(&mut report, self.rooms.len() as u64);
        report.append(" rooms:\n");
        let ghost heading = report@;
        proof {
            assert(names.subrange(0, 0) =~= Seq::<Seq<char>>::empty());
            assert(report@ =~= heading + room_blocks(inv, rv, names.subrange(0, 0)));
        }
        let mut i: usize = 0;
        while i < self.rooms.len()
            invariant
                rv == self@,
                inv == inventory.devices(),
                names == room_names(rv),
                report_defined(rv, inv),
                i <= self.rooms@.len(),
                heading == "'"@ + self.name@ + "' contains "@ + decimal(rv.len()) + " rooms:\n"@,
                report@ == heading + room_blocks(inv, rv, names.subrange(0, i as int)),
            decreases self.rooms.len() - i,
        {
            let room_name = &self.rooms[i].name;
            proof {
                assert(names[i as int] == room_name@);
                assert(rv[i as int].0 == room_name@);
                assert(names.contains(room_name@));
                lemma_first_index_some(names, room_name@);
            }
            let devices = match self.get_devices(room_name) {
                Ok(d) => d,
                Err(_) => Vec::new(),
            };
            let ghost dv = room_devices_of(rv, room_name@);
            proof {
                assert(crate::house::domain::device_names_view(devices@) == dv);
            }
            let mut lines = String::new();
            proof {
                assert(dv.subrange(0, 0) =~= Seq::<Seq<char>>::empty());
                assert(lines@ =~= device_lines(inv, room_name@, dv.subrange(0, 0)));
            }
            let mut j: usize = 0;
            while j < devices.len()
                invariant
                    rv == self@,
                    inv == inventory.devices(),
                    report_defined(rv, inv),
                    i < self.rooms@.len(),
                    room_name@ == rv[i as int].0,
                    dv == room_devices_of(rv, room_name@),
                    crate::house::domain::device_names_view(devices@) == dv,
                    j <= devices@.len(),
                    lines@ == device_lines(inv, room_name@, dv.subrange(0, j as int)),
                decreases devices.len() - j,
            {
                let ghost before = lines@;
                proof {
                    assert(dv[j as int] == devices@[j as int]@);
                    assert(info_defined_in(inv, rv[i as int].0, room_devices_of(rv, rv[i as int].0)[j as int]));
                }
                lines.append("     ");
                match inventory.get_info(room_name, &devices[j]) {
                    Ok(info) => lines.append(info.as_str()),
                    Err(e) => {
                        let m = e.message();
                        lines.append(m.as_str());
                    },
                }
                lines.append("\n");
                proof {
                    assert(dv.subrange(0, j + 1).drop_last() =~= dv.subrange(0, j as int));
                    assert(lines@ =~= device_lines(inv, room_name@, dv.subrange(0, j + 1)));
                }
                j = j + 1;
            }
            proof {
                assert(dv.subrange(0, j as int) =~= dv);
            }
            let ghost before_report = report@;
            report.append("   '");
            report.append(room_name.0.as_str());
            report.append("' has:\n");
            report.append(lines.as_str());
            report.append("\n");
            proof {
                assert(names.subrange(0, i + 1).drop_last() =~= names.subrange(0, i as int));
                assert(report@ =~= heading + room_blocks(inv, rv, names.subrange(0, i + 1)));
            }
            i = i + 1;
        }
        proof {
            assert(names.subrange(0, i as int) =~= names);
        }
        Ok(report)
    }
}

impl MemoryIntelligentHouse {
    /// Whether every device the report would describe has a description that can be produced.
    pub fn can_report<T: DeviceInventory>(&self, inventory: &T) -> (b: bool)
        ensures
            b == report_defined(self@, inventory.devices()),
    {
        let ghost rv = self@;
        let mut i: usize = 0;
        while i < self.rooms.len()
            invariant
                rv == self@,
                i <= self.rooms@.len(),
                forall|a: int, j: int|
                    0 <= a < i && 0 <= j < room_devices_of(rv, rv[a].0).len() ==> info_defined_in(
                        inventory.devices(),
                        rv[a].0,
                        #[trigger] room_devices_of(rv, rv[a].0)[j],
                    ),
            decreases self.rooms.len() - i,
        {
            let room_name = &self.rooms[i].name;
            proof {
                assert(rv[i as int].0 == room_name@);
                assert(room_names(rv)[i as int] == room_name@);
                lemma_first_index_some(room_names(rv), room_name@);
            }
            let devices = match self.get_devices(room_name) {
                Ok(d) => d,
                Err(_) => Vec::new(),
            };
            let ghost dv = room_devices_of(rv, room_name@);
            let mut j: usize = 0;
            while j < devices.len()
                invariant
                    rv == self@,
                    i < self.rooms@.len(),
                    room_name@ == rv[i as int].0,
                    dv == room_devices_of(rv, room_name@),
                    crate::house::domain::device_names_view(devices@) == dv,
                    j <= devices@.len(),
                    forall|k: int| 0 <= k < j ==> info_defined_in(inventory.devices(), room_name@, #[trigger] dv[k]),
                decreases devices.len() - j,
            {
                proof { assert(dv[j as int] == devices@[j as int]@); }
                if !inventory.can_describe(room_name, &devices[j]) {
                    return false;
                }
                j = j + 1;
            }
            i = i + 1;
        }
        true
    }
}

/// Removing a room that was just added, under a name the house did not use, gives back
/// the rooms as they were (the added room is the last one, so nothing moves).
pub proof fn lemma_remove_room_undoes_add(rv: Seq<RoomView>, name: Seq<char>)
    requires
        !room_names(rv).contains(name),
    ensures
        ({
            let added = rv.push((name, Seq::<Seq<char>>::empty()));
            room_position(added, name) == Some(rv.len() as int) && added.update(rv.len() as int, added.last()).drop_last()
                == rv
        }),
{
    let added = rv.push((name, Seq::<Seq<char>>::empty()));
    let names = room_names(added);
    assert(names[rv.len() as int] == name);
    assert forall|j: int| 0 <= j < rv.len() implies names[j] != name by {
        assert(names[j] == room_names(rv)[j]);
    }
    lemma_first_index_of(names, name, rv.len() as int);
    assert(added.update(rv.len() as int, added.last()).drop_last() =~= rv);
}

/// Removing a device name that was just added to a room that did not list it gives back
/// the rooms as they were.
pub proof fn lemma_remove_device_undoes_add(rv: Seq<RoomView>, i: int, device: Seq<char>)
    requires
        0 <= i < rv.len(),
        !rv[i].1.contains(device),
    ensures
        ({
            let added = rv.update(i, (rv[i].0, rv[i].1.push(device)));
            let j = rv[i].1.len() as int;
            &&& room_names(added) == room_names(rv)
            &&& first_index_of(added[i].1, device) == Some(j)
            &&& added.update(i, (added[i].0, added[i].1.update(j, added[i].1.last()).drop_last())) == rv
        }),
{
    let added = rv.update(i, (rv[i].0, rv[i].1.push(device)));
    let j = rv[i].1.len() as int;
    assert(room_names(added) =~= room_names(rv));
    assert forall|k: int| 0 <= k < j implies added[i].1[k] != device by {
        assert(added[i].1[k] == rv[i].1[k]);
    }
    lemma_first_index_of(added[i].1, device, j);
    assert(added[i].1.update(j, added[i].1.last()).drop_last() =~= rv[i].1);
    assert(added.update(i, (added[i].0, added[i].1.update(j, added[i].1.last()).drop_last())) =~= rv);
}


/// The report lines of a list of devices are one line per device, in the order of the
/// list: taking any device of the list, its line stands between the lines of the devices
/// before it and the lines of the devices after it.
pub proof fn lemma_device_lines_split(inv: InventoryMap, room: Seq<char>, dv: Seq<Seq<char>>, k: int)
    requires
        0 <= k < dv.len(),
    ensures
        device_lines(inv, room, dv) == device_lines(inv, room, dv.take(k)) + ("     "@ + device_line(inv, room, dv[k])
            + "\n"@) + device_lines(inv, room, dv.skip(k + 1)),
    decreases dv.len(),
{
    let line = "     "@ + device_line(inv, room, dv[k]) + "\n"@;
    if k == dv.len() - 1 {
        assert(dv.drop_last() =~= dv.take(k));
        assert(dv.skip(k + 1) =~= Seq::<Seq<char>>::empty());
        assert(device_lines(inv, room, dv) =~= device_lines(inv, room, dv.take(k)) + line + device_lines(
            inv,
            room,
            dv.skip(k + 1),
        ));
    } else {
        let d = dv.drop_last();
        lemma_device_lines_split(inv, room, d, k);
        assert(d.take(k) =~= dv.take(k));
        let rest = dv.skip(k + 1);
        assert(rest.drop_last() =~= d.skip(k + 1));
        assert(rest.last() == dv.last());
        assert(device_lines(inv, room, dv) =~= device_lines(inv, room, dv.take(k)) + line + device_lines(
            inv,
            room,
            dv.skip(k + 1),
        ));
    }
}

/// Whatever occurs in the part of the report on one of the named rooms occurs in the parts
/// on all of them.
proof fn lemma_room_blocks_contain(inv: InventoryMap, rv: Seq<RoomView>, names: Seq<Seq<char>>, i: int, t: Seq<char>)
    requires
        0 <= i < names.len(),
        occurs_in(room_block(inv, rv, names[i]), t),
    ensures
        occurs_in(room_blocks(inv, rv, names), t),
    decreases names.len(),
{
    let before = room_blocks(inv, rv, names.drop_last());
    let last = room_block(inv, rv, names.last());
    if i == names.len() - 1 {
        lemma_occurs_in_middle(before, last, Seq::empty(), t);
        assert(before + last + Seq::<char>::empty() =~= room_blocks(inv, rv, names));
    } else {
        lemma_room_blocks_contain(inv, rv, names.drop_last(), i, t);
        lemma_occurs_in_middle(Seq::empty(), before, last, t);
        assert(Seq::<char>::empty() + before + last =~= room_blocks(inv, rv, names));
    }
}

/// The report heads each room of the house with its name, and under it lists every device
/// the room names, each on a line of its own: the description the inventory gives of it, or
/// the inventory's message where it lacks the device. The heading gives the number of rooms.
pub proof fn lemma_report_lists_every_device(house_name: Seq<char>, rv: Seq<RoomView>, inv: InventoryMap, i: int, k: int)
    requires
        0 <= i < rv.len(),
        0 <= k < room_devices_of(rv, rv[i].0).len(),
    ensures
        ({
            let report = house_report(house_name, rv, inv);
            let heading = "'"@ + house_name + "' contains "@ + decimal(rv.len()) + " rooms:\n"@;
            let room = rv[i].0;
            let device = room_devices_of(rv, room)[k];
            &&& heading.len() <= report.len()
            &&& report.subrange(0, heading.len() as int) == heading
            &&& occurs_in(report, "   '"@ + room + "' has:\n"@)
            &&& occurs_in(report, "     "@ + device_line(inv, room, device) + "\n"@)
        }),
{
    let report = house_report(house_name, rv, inv);
    let heading = "'"@ + house_name + "' contains "@ + decimal(rv.len()) + " rooms:\n"@;
    let names = room_names(rv);
    let room = rv[i].0;
    let dv = room_devices_of(rv, room);
    let device = dv[k];
    let line = "     "@ + device_line(inv, room, device) + "\n"@;
    let head = "   '"@ + room + "' has:\n"@;
    let blocks = room_blocks(inv, rv, names);
    assert(names[i] == room);
    assert(report.subrange(0, heading.len() as int) =~= heading);
    // the line of the device, within the lines of the room
    lemma_device_lines_split(inv, room, dv, k);
    let lines = device_lines(inv, room, dv);
    lemma_occurs_in_self(line);
    lemma_occurs_in_middle(device_lines(inv, room, dv.take(k)), line, device_lines(inv, room, dv.skip(k + 1)), line);
    // within the part on the room
    lemma_occurs_in_middle(head, lines, "\n"@, line);
    lemma_room_blocks_contain(inv, rv, names, i, line);
    lemma_occurs_in_middle(heading, blocks, Seq::empty(), line);
    assert(heading + blocks + Seq::<char>::empty() =~= report);
    // the name of the room
    lemma_occurs_in_self(head);
    lemma_occurs_in_middle(Seq::empty(), head, lines + "\n"@, head);
    assert(Seq::<char>::empty() + head + (lines + "\n"@) =~= room_block(inv, rv, room));
    lemma_room_blocks_contain(inv, rv, names, i, head);
    lemma_occurs_in_middle(heading, blocks, Seq::empty(), head);
}


/// The parts of the report on rooms follow the order of the rooms: the part on any room
/// stands between the parts on the rooms before it and those on the rooms after it.
pub proof fn lemma_room_blocks_split(inv: InventoryMap, rv: Seq<RoomView>, names: Seq<Seq<char>>, k: int)
    requires
        0 <= k < names.len(),
    ensures
        room_blocks(inv, rv, names) == room_blocks(inv, rv, names.take(k)) + room_block(inv, rv, names[k])
            + room_blocks(inv, rv, names.skip(k + 1)),
    decreases names.len(),
{
    if k == names.len() - 1 {
        assert(names.drop_last() =~= names.take(k));
        assert(names.skip(k + 1) =~= Seq::<Seq<char>>::empty());
        assert(room_blocks(inv, rv, names) =~= room_blocks(inv, rv, names.take(k)) + room_block(inv, rv, names[k])
            + room_blocks(inv, rv, names.skip(k + 1)));
    } else {
        let d = names.drop_last();
        lemma_room_blocks_split(inv, rv, d, k);
        assert(d.take(k) =~= names.take(k));
        let rest = names.skip(k + 1);
        assert(rest.drop_last() =~= d.skip(k + 1));
        assert(rest.last() == names.last());
        assert(room_blocks(inv, rv, names) =~= room_blocks(inv, rv, names.take(k)) + room_block(inv, rv, names[k])
            + room_blocks(inv, rv, names.skip(k + 1)));
    }
}

} // verus!
