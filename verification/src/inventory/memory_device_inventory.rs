//! An inventory of devices kept in memory: rooms, and the devices of each room by name.
use vstd::prelude::*;

use crate::errors::intelligent_house_error::InventoryError;
use crate::house::domain::{DeviceName, RoomName};
use crate::inventory::domain::{device_info, device_info_defined, get_info};
use crate::keyed::{has_key, keys, lemma_dom, lemma_index, lemma_keys, lemma_push, lemma_push_unique, lemma_remove, lemma_update, to_map, unique_keys};

use crate::inventory::device_inventory::{info_defined_in, lookup, room_names_view, DeviceInventory, DeviceMap, InventoryMap};
pub use crate::inventory::domain::DeviceItem;

verus! {

/// The devices of a room as entries keyed by name.
pub open spec fn device_pairs(v: Seq<(DeviceName, DeviceItem)>) -> Seq<(Seq<char>, DeviceItem)> {
    v.map_values(|e: (DeviceName, DeviceItem)| (e.0@, e.1))
}

/// The rooms as entries keyed by name, each with the map of its devices.
pub open spec fn room_pairs(v: Seq<(RoomName, Vec<(DeviceName, DeviceItem)>)>) -> Seq<(Seq<char>, DeviceMap)> {
    v.map_values(|e: (RoomName, Vec<(DeviceName, DeviceItem)>)| (e.0@, to_map(device_pairs(e.1@))))
}

/// The map that a list of rooms with their devices stands for (a later entry wins).
pub open spec fn rooms_map(v: Seq<(RoomName, Vec<(DeviceName, DeviceItem)>)>) -> InventoryMap {
    to_map(room_pairs(v))
}

/// No room name occurs twice, and no device name occurs twice within a room.
pub open spec fn rooms_wf(v: Seq<(RoomName, Vec<(DeviceName, DeviceItem)>)>) -> bool {
    &&& unique_keys(room_pairs(v))
    &&& forall|i: int| 0 <= i < v.len() ==> unique_keys(#[trigger] device_pairs(v[i].1@))
}

/// An inventory of devices kept in memory.
pub struct MemoryDeviceInventory {
    room_devices: Vec<(RoomName, Vec<(DeviceName, DeviceItem)>)>,
}

impl View for MemoryDeviceInventory {
    type V = InventoryMap;

    closed spec fn view(&self) -> InventoryMap {
        rooms_map(self.room_devices@)
    }
}

fn find_device(devices: &Vec<(DeviceName, DeviceItem)>, name: &DeviceName) -> (r: Option<usize>)
    ensures
        match r {
            Some(i) => i < devices@.len() && devices@[i as int].0@ == name@,
            None => !has_key(device_pairs(devices@), name@),
        },
{
    let mut i: usize = 0;
    while i < devices.len()
        invariant
            i <= devices@.len(),
            forall|j: int| 0 <= j < i ==> devices@[j].0@ != name@,
        decreases devices.len() - i,
    {
        if devices[i].0.same_as(name) {
            return Some(i);
        }
        i = i + 1;
    }
    proof {
        if has_key(device_pairs(devices@), name@) {
            let j = choose|j: int| 0 <= j < device_pairs(devices@).len() && device_pairs(devices@)[j].0 == name@;
            assert(devices@[j].0@ == name@);
        }
    }
    None
}

fn find_room(rooms: &Vec<(RoomName, Vec<(DeviceName, DeviceItem)>)>, name: &RoomName) -> (r: Option<usize>)
    ensures
        match r {
            Some(i) => i < rooms@.len() && rooms@[i as int].0@ == name@,
            None => !has_key(room_pairs(rooms@), name@),
        },
{
    let mut i: usize = 0;
    while i < rooms.len()
        invariant
            i <= rooms@.len(),
            forall|j: int| 0 <= j < i ==> rooms@[j].0@ != name@,
        decreases rooms.len() - i,
    {
        if rooms[i].0.same_as(name) {
            return Some(i);
        }
        i = i + 1;
    }
    proof {
        if has_key(room_pairs(rooms@), name@) {
            let j = choose|j: int| 0 <= j < room_pairs(rooms@).len() && room_pairs(rooms@)[j].0 == name@;
            assert(rooms@[j].0@ == name@);
        }
    }
    None
}

/// What a room with unique entries holds at a found index, and that a missing key is missing.
proof fn lemma_room_lookup(v: Seq<(RoomName, Vec<(DeviceName, DeviceItem)>)>, i: int)
    requires
        rooms_wf(v),
        0 <= i < v.len(),
    ensures
        rooms_map(v).dom().contains(v[i].0@),
        rooms_map(v)[v[i].0@] == to_map(device_pairs(v[i].1@)),
{
    assert(room_pairs(v)[i] == (v[i].0@, to_map(device_pairs(v[i].1@))));
    lemma_index(room_pairs(v), i);
}

proof fn lemma_device_lookup(d: Seq<(DeviceName, DeviceItem)>, i: int)
    requires
        unique_keys(device_pairs(d)),
        0 <= i < d.len(),
    ensures
        to_map(device_pairs(d)).dom().contains(d[i].0@),
        to_map(device_pairs(d))[d[i].0@] == d[i].1,
{
    assert(device_pairs(d)[i] == (d[i].0@, d[i].1));
    lemma_index(device_pairs(d), i);
}

/// Inserts `item` under `name`, replacing an entry of the same name.
fn put_device(devices: &mut Vec<(DeviceName, DeviceItem)>, name: DeviceName, item: DeviceItem)
    requires
        unique_keys(device_pairs(old(devices)@)),
    ensures
        unique_keys(device_pairs(final(devices)@)),
        to_map(device_pairs(final(devices)@)) == to_map(device_pairs(old(devices)@)).insert(name@, item),
{
    match find_device(devices, &name) {
        Some(i) => {
            let ghost before = device_pairs(devices@);
            devices.set(i, (name, item));
            proof {
                assert(device_pairs(devices@) =~= before.update(i as int, (before[i as int].0, item)));
                lemma_update(before, i as int, item);
            }
        },
        None => {
            let ghost before = device_pairs(devices@);
            let ghost key = name@;
            devices.push((name, item));
            proof {
                assert(device_pairs(devices@) =~= before.push((key, item)));
                lemma_push_unique(before, key, item);
            }
        },
    }
}

proof fn lemma_room_pairs_update(
    v: Seq<(RoomName, Vec<(DeviceName, DeviceItem)>)>,
    i: int,
    e: (RoomName, Vec<(DeviceName, DeviceItem)>),
)
    requires
        rooms_wf(v),
        0 <= i < v.len(),
        e.0@ == v[i].0@,
        unique_keys(device_pairs(e.1@)),
    ensures
        rooms_wf(v.update(i, e)),
        rooms_map(v.update(i, e)) == rooms_map(v).insert(v[i].0@, to_map(device_pairs(e.1@))),
{
    let w = v.update(i, e);
    let before = room_pairs(v);
    assert(room_pairs(w) =~= before.update(i, (before[i].0, to_map(device_pairs(e.1@)))));
    lemma_update(before, i, to_map(device_pairs(e.1@)));
    assert forall|j: int| 0 <= j < w.len() implies unique_keys(#[trigger] device_pairs(w[j].1@)) by {
        if j != i {
            assert(w[j] == v[j]);
        }
    }
}

proof fn lemma_room_pairs_push(
    v: Seq<(RoomName, Vec<(DeviceName, DeviceItem)>)>,
    e: (RoomName, Vec<(DeviceName, DeviceItem)>),
)
    requires
        rooms_wf(v),
        !has_key(room_pairs(v), e.0@),
        unique_keys(device_pairs(e.1@)),
    ensures
        rooms_wf(v.push(e)),
        rooms_map(v.push(e)) == rooms_map(v).insert(e.0@, to_map(device_pairs(e.1@))),
{
    let w = v.push(e);
    let before = room_pairs(v);
    assert(room_pairs(w) =~= before.push((e.0@, to_map(device_pairs(e.1@)))));
    lemma_push_unique(before, e.0@, to_map(device_pairs(e.1@)));
    assert forall|j: int| 0 <= j < w.len() implies unique_keys(#[trigger] device_pairs(w[j].1@)) by {
        if j < v.len() {
            assert(w[j] == v[j]);
        }
    }
}

proof fn lemma_room_pairs_remove(v: Seq<(RoomName, Vec<(DeviceName, DeviceItem)>)>, i: int)
    requires
        rooms_wf(v),
        0 <= i < v.len(),
    ensures
        rooms_wf(v.remove(i)),
        rooms_map(v.remove(i)) == rooms_map(v).remove(v[i].0@),
{
    let w = v.remove(i);
    let before = room_pairs(v);
    assert(room_pairs(w) =~= before.remove(i));
    lemma_remove(before, i);
    assert forall|j: int| 0 <= j < w.len() implies unique_keys(#[trigger] device_pairs(w[j].1@)) by {
        if j < i {
            assert(w[j] == v[j]);
        } else {
            assert(w[j] == v[j + 1]);
        }
    }
}

proof fn lemma_empty_devices()
    ensures
        unique_keys(device_pairs(Seq::<(DeviceName, DeviceItem)>::empty())),
        to_map(device_pairs(Seq::<(DeviceName, DeviceItem)>::empty())) == Map::<Seq<char>, DeviceItem>::empty(),
{
    assert(device_pairs(Seq::<(DeviceName, DeviceItem)>::empty()) =~= Seq::empty());
}

/// Inserts the devices of a room under its name, replacing a room of the same name.
fn put_room(
    rooms: &mut Vec<(RoomName, Vec<(DeviceName, DeviceItem)>)>,
    name: RoomName,
    devices: Vec<(DeviceName, DeviceItem)>,
)
    requires
        rooms_wf(old(rooms)@),
        unique_keys(device_pairs(devices@)),
    ensures
        rooms_wf(final(rooms)@),
        rooms_map(final(rooms)@) == rooms_map(old(rooms)@).insert(name@, to_map(device_pairs(devices@))),
{
    match find_room(rooms, &name) {
        Some(i) => {
            let ghost before = rooms@;
            let ghost dm = to_map(device_pairs(devices@));
            rooms.set(i, (name, devices));
            proof {
                lemma_room_pairs_update(before, i as int, rooms@[i as int]);
            }
        },
        None => {
            let ghost before = rooms@;
            rooms.push((name, devices));
            proof {
                lemma_room_pairs_push(before, rooms@.last());
                assert(rooms@ =~= before.push(rooms@.last()));
            }
        },
    }
}

impl MemoryDeviceInventory {
    #[verifier::type_invariant]
    spec fn inv(self) -> bool {
        rooms_wf(self.room_devices@)
    }

    /// An inventory without rooms.
    pub fn empty() -> (inv: MemoryDeviceInventory)
        ensures
            inv@ == InventoryMap::empty(),
    {
        let rooms: Vec<(RoomName, Vec<(DeviceName, DeviceItem)>)> = Vec::new();
        proof {
            assert(room_pairs(rooms@) =~= Seq::empty());
        }
        MemoryDeviceInventory { room_devices: rooms }
    }

    /// An inventory holding the given rooms and devices. Where a room name or, within a
    /// room, a device name occurs twice, the later entry wins, as in building a map.
    pub fn new(room_devices: Vec<(RoomName, Vec<(DeviceName, DeviceItem)>)>) -> (inv: MemoryDeviceInventory)
        ensures
            inv@ == rooms_map(room_devices@),
    {
        let mut rooms: Vec<(RoomName, Vec<(DeviceName, DeviceItem)>)> = Vec::new();
        let ghost all = room_devices@;
        proof {
            assert(room_pairs(rooms@) =~= Seq::empty());
            assert(room_pairs(all.subrange(0, 0)) =~= Seq::empty());
        }
        let mut n: usize = 0;
        while n < room_devices.len()
            invariant
                all == room_devices@,
                n <= all.len(),
                rooms_wf(rooms@),
                rooms_map(rooms@) == rooms_map(all.subrange(0, n as int)),
            decreases room_devices.len() - n,
        {
            let entry = &room_devices[n];
            let ghost dall = entry.1@;
            let mut devices: Vec<(DeviceName, DeviceItem)> = Vec::new();
            proof {
                assert(device_pairs(devices@) =~= Seq::empty());
                assert(device_pairs(dall.subrange(0, 0)) =~= Seq::empty());
            }
            let mut m: usize = 0;
            while m < entry.1.len()
                invariant
                    dall == entry.1@,
                    m <= dall.len(),
                    unique_keys(device_pairs(devices@)),
                    to_map(device_pairs(devices@)) == to_map(device_pairs(dall.subrange(0, m as int))),
                decreases entry.1.len() - m,
            {
                proof {
                    assert(dall.subrange(0, m + 1) =~= dall.subrange(0, m as int).push(dall[m as int]));
                    assert(device_pairs(dall.subrange(0, m + 1)) =~= device_pairs(dall.subrange(0, m as int)).push(
                        (dall[m as int].0@, dall[m as int].1),
                    ));
                    lemma_push(device_pairs(dall.subrange(0, m as int)), dall[m as int].0@, dall[m as int].1);
                }
                put_device(&mut devices, entry.1[m].0.copied(), entry.1[m].1);
                m = m + 1;
            }
            proof {
                assert(dall.subrange(0, m as int) =~= dall);
                assert(all.subrange(0, n + 1) =~= all.subrange(0, n as int).push(all[n as int]));
                assert(room_pairs(all.subrange(0, n + 1)) =~= room_pairs(all.subrange(0, n as int)).push(
                    (all[n as int].0@, to_map(device_pairs(dall))),
                ));
                lemma_push(room_pairs(all.subrange(0, n as int)), all[n as int].0@, to_map(device_pairs(dall)));
            }
            put_room(&mut rooms, entry.0.copied(), devices);
            n = n + 1;
        }
        proof {
            assert(all.subrange(0, n as int) =~= all);
        }
        MemoryDeviceInventory { room_devices: rooms }
    }

}

impl DeviceInventory for MemoryDeviceInventory {
    open spec fn devices(&self) -> InventoryMap {
        self@
    }

    fn get_info(&self, room_name: &RoomName, device_name: &DeviceName) -> (r: Result<String, InventoryError>)
    {
        match self.get_device(room_name, device_name) {
            Ok(d) => Ok(get_info(d, device_name)),
            Err(e) => Err(e),
        }
    }

    fn get_device(&self, room_name: &RoomName, device_name: &DeviceName) -> (r: Result<DeviceItem, InventoryError>)
    {
        proof { use_type_invariant(self); }
        match find_room(&self.room_devices, room_name) {
            Some(i) => {
                proof { lemma_room_lookup(self.room_devices@, i as int); }
                let devices = &self.room_devices[i].1;
                match find_device(devices, device_name) {
                    Some(j) => {
                        proof {
                            assert(unique_keys(device_pairs(self.room_devices@[i as int].1@)));
                            lemma_device_lookup(devices@, j as int);
                        }
                        Ok(devices[j].1)
                    },
                    None => {
                        proof { lemma_dom(device_pairs(devices@), device_name@); }
                        Err(InventoryError::InventoryDeviceNotFound(device_name.copied(), room_name.copied()))
                    },
                }
            },
            None => {
                proof { lemma_dom(room_pairs(self.room_devices@), room_name@); }
                Err(InventoryError::InventoryDeviceNotFound(device_name.copied(), room_name.copied()))
            },
        }
    }

    fn get_rooms(&self) -> (r: Result<Vec<RoomName>, InventoryError>)
    {
        proof { use_type_invariant(self); }
        let mut names: Vec<RoomName> = Vec::new();
        let mut i: usize = 0;
        while i < self.room_devices.len()
            invariant
                i <= self.room_devices@.len(),
                room_names_view(names@) == keys(room_pairs(self.room_devices@)).subrange(0, i as int),
            decreases self.room_devices.len() - i,
        {
            let ghost before = names@;
            names.push(self.room_devices[i].0.copied());
            proof {
                let ks = keys(room_pairs(self.room_devices@));
                assert(ks[i as int] == self.room_devices@[i as int].0@);
                assert(room_names_view(names@) =~= room_names_view(before).push(self.room_devices@[i as int].0@));
                assert(ks.subrange(0, i + 1) =~= ks.subrange(0, i as int).push(ks[i as int]));
            }
            i = i + 1;
        }
        proof {
            assert(keys(room_pairs(self.room_devices@)).subrange(0, i as int) =~= keys(room_pairs(self.room_devices@)));
            lemma_keys(room_pairs(self.room_devices@));
        }
        Ok(names)
    }

    fn add_room(&mut self, room_name: &RoomName) -> (r: Result<(), InventoryError>)
    {
        proof { use_type_invariant(&*self); }
        match find_room(&self.room_devices, room_name) {
            Some(i) => {
                proof { lemma_room_lookup(self.room_devices@, i as int); }
                Err(InventoryError::InventoryRoomAlreadyAdded(room_name.copied()))
            },
            None => {
                proof {
                    lemma_dom(room_pairs(self.room_devices@), room_name@);
                    lemma_empty_devices();
                }
                let mut rooms: Vec<(RoomName, Vec<(DeviceName, DeviceItem)>)> = Vec::new();
                std::mem::swap(&mut rooms, &mut self.room_devices);
                let ghost before = rooms@;
                rooms.push((room_name.copied(), Vec::new()));
                proof {
                    assert(rooms@ =~= before.push(rooms@.last()));
                    lemma_room_pairs_push(before, rooms@.last());
                    assert(device_pairs(rooms@.last().1@) =~= Seq::empty());
                }
                self.room_devices = rooms;
                Ok(())
            },
        }
    }

    fn remove_room(&mut self, room_name: &RoomName) -> (r: Result<(), InventoryError>)
    {
        proof { use_type_invariant(&*self); }
        match find_room(&self.room_devices, room_name) {
            Some(i) => {
                proof { lemma_room_lookup(self.room_devices@, i as int); }
                let mut rooms: Vec<(RoomName, Vec<(DeviceName, DeviceItem)>)> = Vec::new();
                std::mem::swap(&mut rooms, &mut self.room_devices);
                let ghost before = rooms@;
                rooms.remove(i);
                proof { lemma_room_pairs_remove(before, i as int); }
                self.room_devices = rooms;
                Ok(())
            },
            None => {
                proof { lemma_dom(room_pairs(self.room_devices@), room_name@); }
                Err(InventoryError::InventoryRoomNotFound(room_name.copied()))
            },
        }
    }

    fn add_device(&mut self, room_name: &RoomName, device_name: &DeviceName, device: DeviceItem)
        -> (r: Result<(), InventoryError>)
    {
        proof { use_type_invariant(&*self); }
        match find_room(&self.room_devices, room_name) {
            Some(i) => {
                proof {
                    lemma_room_lookup(self.room_devices@, i as int);
                    assert(unique_keys(device_pairs(self.room_devices@[i as int].1@)));
                }
                match find_device(&self.room_devices[i].1, device_name) {
                    Some(j) => {
                        proof { lemma_device_lookup(self.room_devices@[i as int].1@, j as int); }
                        Err(InventoryError::InventoryDeviceAlreadyAdded(device_name.copied(), room_name.copied()))
                    },
                    None => {
                        proof { lemma_dom(device_pairs(self.room_devices@[i as int].1@), device_name@); }
                        let mut rooms: Vec<(RoomName, Vec<(DeviceName, DeviceItem)>)> = Vec::new();
                        std::mem::swap(&mut rooms, &mut self.room_devices);
                        let ghost before = rooms@;
                        let (name, mut devices) = rooms.remove(i);
                        let ghost before_devices = device_pairs(devices@);
                        let ghost key = device_name@;
                        devices.push((device_name.copied(), device));
                        proof {
                            assert(device_pairs(devices@) =~= before_devices.push((key, device)));
                            lemma_push_unique(before_devices, key, device);
                        }
                        rooms.insert(i, (name, devices));
                        proof {
                            assert(rooms@ =~= before.update(i as int, rooms@[i as int]));
                            lemma_room_pairs_update(before, i as int, rooms@[i as int]);
                        }
                        self.room_devices = rooms;
                        Ok(())
                    },
                }
            },
            None => {
                proof { lemma_dom(room_pairs(self.room_devices@), room_name@); }
                Err(InventoryError::InventoryRoomNotFound(room_name.copied()))
            },
        }
    }

    fn remove_device(&mut self, room_name: &RoomName, device_name: &DeviceName) -> (r: Result<(), InventoryError>)
    {
        proof { use_type_invariant(&*self); }
        match find_room(&self.room_devices, room_name) {
            Some(i) => {
                proof {
                    lemma_room_lookup(self.room_devices@, i as int);
                    assert(unique_keys(device_pairs(self.room_devices@[i as int].1@)));
                }
                match find_device(&self.room_devices[i].1, device_name) {
                    Some(j) => {
                        proof { lemma_device_lookup(self.room_devices@[i as int].1@, j as int); }
                        let mut rooms: Vec<(RoomName, Vec<(DeviceName, DeviceItem)>)> = Vec::new();
                        std::mem::swap(&mut rooms, &mut self.room_devices);
                        let ghost before = rooms@;
                        let (name, mut devices) = rooms.remove(i);
                        let ghost before_devices = device_pairs(devices@);
                        devices.remove(j);
                        proof {
                            assert(device_pairs(devices@) =~= before_devices.remove(j as int));
                            lemma_remove(before_devices, j as int);
                        }
                        rooms.insert(i, (name, devices));
                        proof {
                            assert(rooms@ =~= before.update(i as int, rooms@[i as int]));
                            lemma_room_pairs_update(before, i as int, rooms@[i as int]);
                        }
                        self.room_devices = rooms;
                        Ok(())
                    },
                    None => {
                        proof { lemma_dom(device_pairs(self.room_devices@[i as int].1@), device_name@); }
                        Err(InventoryError::InventoryDeviceNotFound(device_name.copied(), room_name.copied()))
                    },
                }
            },
            None => {
                proof { lemma_dom(room_pairs(self.room_devices@), room_name@); }
                Err(InventoryError::InventoryRoomNotFound(room_name.copied()))
            },
        }
    }

    fn change_device<F: Fn(DeviceItem) -> Result<DeviceItem, InventoryError>>(
        &mut self,
        room_name: &RoomName,
        device_name: &DeviceName,
        modify: F,
    ) -> (r: Result<(), InventoryError>)
    {
        proof { use_type_invariant(&*self); }
        match find_room(&self.room_devices, room_name) {
            Some(i) => {
                proof {
                    lemma_room_lookup(self.room_devices@, i as int);
                    assert(unique_keys(device_pairs(self.room_devices@[i as int].1@)));
                }
                match find_device(&self.room_devices[i].1, device_name) {
                    Some(j) => {
                        proof { lemma_device_lookup(self.room_devices@[i as int].1@, j as int); }
                        let item = self.room_devices[i].1[j].1;
                        let out = modify(item);
                        match out {
                            Ok(changed) => {
                                let mut rooms: Vec<(RoomName, Vec<(DeviceName, DeviceItem)>)> = Vec::new();
                                std::mem::swap(&mut rooms, &mut self.room_devices);
                                let ghost before = rooms@;
                                let (name, mut devices) = rooms.remove(i);
                                let ghost before_devices = device_pairs(devices@);
                                let (dn, _) = devices.remove(j);
                                devices.insert(j, (dn, changed));
                                proof {
                                    assert(device_pairs(devices@) =~= before_devices.update(
                                        j as int,
                                        (before_devices[j as int].0, changed),
                                    ));
                                    lemma_update(before_devices, j as int, changed);
                                }
                                rooms.insert(i, (name, devices));
                                proof {
                                    assert(rooms@ =~= before.update(i as int, rooms@[i as int]));
                                    lemma_room_pairs_update(before, i as int, rooms@[i as int]);
                                }
                                self.room_devices = rooms;
                                Ok(())
                            },
                            Err(e) => Err(e),
                        }
                    },
                    None => {
                        proof { lemma_dom(device_pairs(self.room_devices@[i as int].1@), device_name@); }
                        Err(InventoryError::InventoryDeviceNotFound(device_name.copied(), room_name.copied()))
                    },
                }
            },
            None => {
                proof { lemma_dom(room_pairs(self.room_devices@), room_name@); }
                Err(InventoryError::InventoryRoomNotFound(room_name.copied()))
            },
        }
    }
}

impl Default for MemoryDeviceInventory {
    fn default() -> (inv: Self)
        ensures
            inv@ == InventoryMap::empty(),
    {
        MemoryDeviceInventory::empty()
    }
}

/// A device added to a room that lacked it is found there afterwards, and every other
/// place of the inventory holds what it held before (the inventory `add_device` leaves).
pub proof fn lemma_added_device_found(
    m: InventoryMap,
    room: Seq<char>,
    device: Seq<char>,
    d: DeviceItem,
    other_room: Seq<char>,
    other_device: Seq<char>,
)
    requires
        m.contains_key(room),
        !m[room].contains_key(device),
    ensures
        lookup(m.insert(room, m[room].insert(device, d)), room, device) == Some(d),
        other_room != room || other_device != device ==> lookup(
            m.insert(room, m[room].insert(device, d)),
            other_room,
            other_device,
        ) == lookup(m, other_room, other_device),
{
}

/// Removing a device that was just added to a room gives back the inventory as it was.
pub proof fn lemma_remove_undoes_add(m: InventoryMap, room: Seq<char>, device: Seq<char>, d: DeviceItem)
    requires
        m.contains_key(room),
        !m[room].contains_key(device),
    ensures
        ({
            let added = m.insert(room, m[room].insert(device, d));
            added.insert(room, added[room].remove(device))
        }) == m,
{
    let added = m.insert(room, m[room].insert(device, d));
    assert(added[room].remove(device) =~= m[room]);
    assert(added.insert(room, added[room].remove(device)) =~= m);
}

/// Removing a room that was just added gives back the inventory as it was.
pub proof fn lemma_remove_room_undoes_add(m: InventoryMap, room: Seq<char>)
    requires
        !m.contains_key(room),
    ensures
        m.insert(room, Map::empty()).remove(room) == m,
{
    assert(m.insert(room, Map::empty()).remove(room) =~= m);
}

/// A changed device is found changed afterwards, and nothing else changes
/// (the inventory `change_device` leaves when the change succeeds).
pub proof fn lemma_changed_device_found(
    m: InventoryMap,
    room: Seq<char>,
    device: Seq<char>,
    d: DeviceItem,
    other_room: Seq<char>,
    other_device: Seq<char>,
)
    requires
        lookup(m, room, device) is Some,
    ensures
        lookup(m.insert(room, m[room].insert(device, d)), room, device) == Some(d),
        m.insert(room, m[room].insert(device, d)).dom() == m.dom(),
        m.insert(room, m[room].insert(device, d))[room].dom() == m[room].dom(),
        other_room != room || other_device != device ==> lookup(
            m.insert(room, m[room].insert(device, d)),
            other_room,
            other_device,
        ) == lookup(m, other_room, other_device),
{
    assert(m.insert(room, m[room].insert(device, d)).dom() =~= m.dom());
    assert(m.insert(room, m[room].insert(device, d))[room].dom() =~= m[room].dom());
}

} // verus!
