//! Changes applied to a house and to its device inventory together.
use vstd::prelude::*;

use crate::errors::intelligent_house_error::{HouseError, IntelligentHouseError, InventoryError};
use crate::house::domain::{DeviceName, RoomName};
use crate::house::intelligent_house::IntelligentHouse;
use crate::house::memory_intelligent_house::{room_names, room_position, MemoryIntelligentHouse, RoomView};
use crate::inventory::device_inventory::{DeviceInventory, InventoryMap};
use crate::inventory::domain::DeviceItem;
use crate::keyed::{first_index_of, lemma_first_index_of, lemma_first_index_some};

verus! {

/// The house and the inventory describe the same rooms and devices: each room name occurs
/// once in the house and is a room of the inventory, the inventory has no other room, and
/// each room lists each of its devices once, exactly those the inventory holds for it.
pub open spec fn synced(house: Seq<RoomView>, inventory: InventoryMap) -> bool {
    &&& room_names(house).no_duplicates()
    &&& room_names(house).to_set() == inventory.dom()
    &&& forall|i: int|
        0 <= i < house.len() ==> (#[trigger] house[i]).1.no_duplicates() && house[i].1.to_set()
            == inventory[house[i].0].dom()
}

/// Removing the element at `i` by moving the last one there removes it from the set.
proof fn lemma_swap_remove_set<A>(s: Seq<A>, i: int)
    requires
        s.no_duplicates(),
        0 <= i < s.len(),
    ensures
        s.update(i, s.last()).drop_last().no_duplicates(),
        s.update(i, s.last()).drop_last().to_set() == s.to_set().remove(s[i]),
{
    let r = s.update(i, s.last()).drop_last();
    let last = s.len() - 1;
    assert forall|a: int, b: int| 0 <= a < r.len() && 0 <= b < r.len() && a != b implies r[a] != r[b] by {
        let sa = if a == i { last } else { a };
        let sb = if b == i { last } else { b };
        assert(r[a] == s[sa] && r[b] == s[sb]);
    }
    assert forall|x: A| r.to_set().contains(x) <==> s.to_set().remove(s[i]).contains(x) by {
        if r.contains(x) {
            let a = choose|a: int| 0 <= a < r.len() && r[a] == x;
            let sa = if a == i { last } else { a };
            assert(s[sa] == x);
            assert(sa != i);
        }
        if s.contains(x) && x != s[i] {
            let k = choose|k: int| 0 <= k < s.len() && s[k] == x;
            assert(k != i);
            if k == last {
                assert(r[i] == x);
            } else {
                assert(r[k] == x);
            }
        }
    }
    assert(r.to_set() =~= s.to_set().remove(s[i]));
}

/// Appending an element that is not there adds it to the set.
proof fn lemma_push_set<A>(s: Seq<A>, x: A)
    requires
        s.no_duplicates(),
        !s.contains(x),
    ensures
        s.push(x).no_duplicates(),
        s.push(x).to_set() == s.to_set().insert(x),
{
    let r = s.push(x);
    assert forall|a: int, b: int| 0 <= a < r.len() && 0 <= b < r.len() && a != b implies r[a] != r[b] by {
        if a < s.len() && b < s.len() {
            assert(r[a] == s[a] && r[b] == s[b]);
        } else if a < s.len() {
            assert(r[a] == s[a]);
        } else {
            assert(r[b] == s[b]);
        }
    }
    assert forall|y: A| r.to_set().contains(y) <==> s.to_set().insert(x).contains(y) by {
        if r.contains(y) {
            let a = choose|a: int| 0 <= a < r.len() && r[a] == y;
            if a < s.len() {
                assert(s[a] == y);
            }
        }
        if s.contains(y) {
            let k = choose|k: int| 0 <= k < s.len() && s[k] == y;
            assert(r[k] == y);
        }
        if y == x {
            assert(r[s.len() as int] == y);
        }
    }
    assert(r.to_set() =~= s.to_set().insert(x));
}

/// Without duplicates, the first position of an element is its only one.
proof fn lemma_unique_position<A>(s: Seq<A>, i: int)
    requires
        s.no_duplicates(),
        0 <= i < s.len(),
    ensures
        first_index_of(s, s[i]) == Some(i),
{
    lemma_first_index_of(s, s[i], i);
}

/// Changes applied to a house and to its device inventory together.
pub trait DeviceSynchronizer {
    /// The rooms of the house, in order, as names and device names.
    spec fn house_rooms(&self) -> Seq<RoomView>;

    /// The name of the house.
    spec fn house_name(&self) -> Seq<char>;

    /// The rooms of the inventory by name, each with its devices by name.
    spec fn inventory_devices(&self) -> InventoryMap;

    /// Adds an empty room to the house, then to the inventory; stops at the first error.
    fn add_room(&mut self, room_name: &RoomName) -> (r: Result<(), IntelligentHouseError>)
        ensures
            final(self).house_name() == old(self).house_name(),
            room_names(old(self).house_rooms()).contains(room_name@) ==> r == Err::<(), IntelligentHouseError>(
                IntelligentHouseError::HouseErr(HouseError::RoomAlreadyAdded(*room_name)),
            ) && final(self).house_rooms() == old(self).house_rooms() && final(self).inventory_devices() == old(self).inventory_devices(),
            !room_names(old(self).house_rooms()).contains(room_name@) ==> final(self).house_rooms() == old(self).house_rooms().push(
                (room_name@, Seq::<Seq<char>>::empty()),
            ) && if old(self).inventory_devices().contains_key(room_name@) {
                r == Err::<(), IntelligentHouseError>(
                    IntelligentHouseError::InventoryErr(InventoryError::InventoryRoomAlreadyAdded(*room_name)),
                ) && final(self).inventory_devices() == old(self).inventory_devices()
            } else {
                r is Ok && final(self).inventory_devices() == old(self).inventory_devices().insert(room_name@, Map::empty())
            },
            synced(old(self).house_rooms(), old(self).inventory_devices()) ==> synced(final(self).house_rooms(), final(self).inventory_devices()),
            synced(old(self).house_rooms(), old(self).inventory_devices()) ==> (r is Ok <==> !old(self).inventory_devices().contains_key(
                room_name@,
            )),
    ;

    /// Removes a room from the house, then from the inventory; stops at the first error.
    fn remove_room(&mut self, room_name: &RoomName) -> (r: Result<(), IntelligentHouseError>)
        ensures
            final(self).house_name() == old(self).house_name(),
            match room_position(old(self).house_rooms(), room_name@) {
                None => r == Err::<(), IntelligentHouseError>(
                    IntelligentHouseError::HouseErr(HouseError::RoomNotFound(*room_name)),
                ) && final(self).house_rooms() == old(self).house_rooms() && final(self).inventory_devices() == old(self).inventory_devices(),
                Some(i) => final(self).house_rooms() == old(self).house_rooms().update(i, old(self).house_rooms().last()).drop_last()
                    && if old(self).inventory_devices().contains_key(room_name@) {
                    r is Ok && final(self).inventory_devices() == old(self).inventory_devices().remove(room_name@)
                } else {
                    r == Err::<(), IntelligentHouseError>(
                        IntelligentHouseError::InventoryErr(InventoryError::InventoryRoomNotFound(*room_name)),
                    ) && final(self).inventory_devices() == old(self).inventory_devices()
                },
            },
            synced(old(self).house_rooms(), old(self).inventory_devices()) ==> synced(final(self).house_rooms(), final(self).inventory_devices()),
            synced(old(self).house_rooms(), old(self).inventory_devices()) ==> (r is Ok <==> old(self).inventory_devices().contains_key(
                room_name@,
            )),
    ;

    /// Adds a device name to a room of the house, then the device to the inventory;
    /// stops at the first error.
    fn add_device(&mut self, room_name: &RoomName, device_name: &DeviceName, device: DeviceItem)
        -> (r: Result<(), IntelligentHouseError>)
        ensures
            final(self).house_name() == old(self).house_name(),
            match room_position(old(self).house_rooms(), room_name@) {
                None => r == Err::<(), IntelligentHouseError>(
                    IntelligentHouseError::HouseErr(HouseError::RoomNotFound(*room_name)),
                ) && final(self).house_rooms() == old(self).house_rooms() && final(self).inventory_devices() == old(self).inventory_devices(),
                Some(i) => if old(self).house_rooms()[i].1.contains(device_name@) {
                    r == Err::<(), IntelligentHouseError>(
                        IntelligentHouseError::HouseErr(HouseError::RoomDeviceAlreadyAdded(*device_name, *room_name)),
                    ) && final(self).house_rooms() == old(self).house_rooms() && final(self).inventory_devices() == old(self).inventory_devices()
                } else {
                    &&& final(self).house_rooms() == old(self).house_rooms().update(
                        i,
                        (old(self).house_rooms()[i].0, old(self).house_rooms()[i].1.push(device_name@)),
                    )
                    &&& !old(self).inventory_devices().contains_key(room_name@) ==> r == Err::<(), IntelligentHouseError>(
                        IntelligentHouseError::InventoryErr(InventoryError::InventoryRoomNotFound(*room_name)),
                    ) && final(self).inventory_devices() == old(self).inventory_devices()
                    &&& old(self).inventory_devices().contains_key(room_name@) && old(self).inventory_devices()[room_name@].contains_key(
                        device_name@,
                    ) ==> r == Err::<(), IntelligentHouseError>(
                        IntelligentHouseError::InventoryErr(
                            InventoryError::InventoryDeviceAlreadyAdded(*device_name, *room_name),
                        ),
                    ) && final(self).inventory_devices() == old(self).inventory_devices()
                    &&& old(self).inventory_devices().contains_key(room_name@) && !old(self).inventory_devices()[room_name@].contains_key(
                        device_name@,
                    ) ==> r is Ok && final(self).inventory_devices() == old(self).inventory_devices().insert(
                        room_name@,
                        old(self).inventory_devices()[room_name@].insert(device_name@, device),
                    )
                },
            },
            synced(old(self).house_rooms(), old(self).inventory_devices()) ==> synced(final(self).house_rooms(), final(self).inventory_devices()),
    ;

    /// Removes a device name from a room of the house, then the device from the inventory;
    /// stops at the first error.
    fn remove_device(&mut self, room_name: &RoomName, device_name: &DeviceName) -> (r: Result<(), IntelligentHouseError>)
        ensures
            final(self).house_name() == old(self).house_name(),
            match room_position(old(self).house_rooms(), room_name@) {
                None => r == Err::<(), IntelligentHouseError>(
                    IntelligentHouseError::HouseErr(HouseError::RoomNotFound(*room_name)),
                ) && final(self).house_rooms() == old(self).house_rooms() && final(self).inventory_devices() == old(self).inventory_devices(),
                Some(i) => match first_index_of(old(self).house_rooms()[i].1, device_name@) {
                    None => r == Err::<(), IntelligentHouseError>(
                        IntelligentHouseError::HouseErr(HouseError::RoomDeviceNotFound(*device_name, *room_name)),
                    ) && final(self).house_rooms() == old(self).house_rooms() && final(self).inventory_devices() == old(self).inventory_devices(),
                    Some(j) => {
                        &&& final(self).house_rooms() == old(self).house_rooms().update(
                            i,
                            (old(self).house_rooms()[i].0, old(self).house_rooms()[i].1.update(j, old(self).house_rooms()[i].1.last()).drop_last()),
                        )
                        &&& !old(self).inventory_devices().contains_key(room_name@) ==> r == Err::<(), IntelligentHouseError>(
                            IntelligentHouseError::InventoryErr(InventoryError::InventoryRoomNotFound(*room_name)),
                        ) && final(self).inventory_devices() == old(self).inventory_devices()
                        &&& old(self).inventory_devices().contains_key(room_name@) && !old(self).inventory_devices()[room_name@].contains_key(
                            device_name@,
                        ) ==> r == Err::<(), IntelligentHouseError>(
                            IntelligentHouseError::InventoryErr(
                                InventoryError::InventoryDeviceNotFound(*device_name, *room_name),
                            ),
                        ) && final(self).inventory_devices() == old(self).inventory_devices()
                        &&& old(self).inventory_devices().contains_key(room_name@) && old(self).inventory_devices()[room_name@].contains_key(
                            device_name@,
                        ) ==> r is Ok && final(self).inventory_devices() == old(self).inventory_devices().insert(
                            room_name@,
                            old(self).inventory_devices()[room_name@].remove(device_name@),
                        )
                    },
                },
            },
            synced(old(self).house_rooms(), old(self).inventory_devices()) ==> synced(final(self).house_rooms(), final(self).inventory_devices()),
    ;
}

/// A house and an inventory that are changed together.
pub struct HouseDeviceSynchronizer<T: DeviceInventory> {
    pub house: MemoryIntelligentHouse,
    pub inventory: T,
}

impl<T: DeviceInventory> HouseDeviceSynchronizer<T> {
    /// A synchronizer over the given house and inventory.
    pub fn new(house: MemoryIntelligentHouse, inventory: T) -> (s: HouseDeviceSynchronizer<T>)
        ensures
            s.house == house,
            s.inventory == inventory,
    {
        HouseDeviceSynchronizer { house, inventory }
    }

}

impl<T: DeviceInventory> DeviceSynchronizer for HouseDeviceSynchronizer<T> {
    open spec fn house_rooms(&self) -> Seq<RoomView> {
        self.house@
    }

    open spec fn house_name(&self) -> Seq<char> {
        self.house.name@
    }

    open spec fn inventory_devices(&self) -> InventoryMap {
        self.inventory.devices()
    }

    fn add_room(&mut self, room_name: &RoomName) -> (r: Result<(), IntelligentHouseError>)
    {
        let ghost h0 = self.house@;
        let ghost i0 = self.inventory.devices();
        match self.house.add_room(room_name) {
            Ok(()) => {},
            Err(e) => return Err(IntelligentHouseError::HouseErr(e)),
        }
        let r = match self.inventory.add_room(room_name) {
            Ok(()) => Ok(()),
            Err(e) => Err(IntelligentHouseError::InventoryErr(e)),
        };
        proof {
            if synced(h0, i0) {
                assert(!room_names(h0).contains(room_name@));
                assert(!i0.contains_key(room_name@));
                let h1 = self.house@;
                let i1 = self.inventory.devices();
                assert(room_names(h1) =~= room_names(h0).push(room_name@));
                lemma_push_set(room_names(h0), room_name@);
                assert(i1.dom() =~= i0.dom().insert(room_name@));
                assert forall|k: int| 0 <= k < h1.len() implies (#[trigger] h1[k]).1.no_duplicates()
                    && h1[k].1.to_set() == i1[h1[k].0].dom() by {
                    if k < h0.len() {
                        assert(h1[k] == h0[k]);
                        assert(room_names(h0)[k] == h0[k].0);
                        assert(h0[k].0 != room_name@);
                    } else {
                        assert(h1[k].1 =~= Seq::<Seq<char>>::empty());
                        assert(h1[k].1.to_set() =~= Set::empty());
                        assert(i1[h1[k].0].dom() =~= Set::empty());
                    }
                }
            }
        }
        r
    }

    fn remove_room(&mut self, room_name: &RoomName) -> (r: Result<(), IntelligentHouseError>)
    {
        let ghost h0 = self.house@;
        let ghost i0 = self.inventory.devices();
        match self.house.remove_room(room_name) {
            Ok(()) => {},
            Err(e) => {
                proof {
                    if synced(h0, i0) {
                        lemma_first_index_some(room_names(h0), room_name@);
                        assert(!room_names(h0).to_set().contains(room_name@));
                    }
                }
                return Err(IntelligentHouseError::HouseErr(e));
            },
        }
        let r = match self.inventory.remove_room(room_name) {
            Ok(()) => Ok(()),
            Err(e) => Err(IntelligentHouseError::InventoryErr(e)),
        };
        proof {
            lemma_first_index_some(room_names(h0), room_name@);
            let i = room_position(h0, room_name@).unwrap();
            if synced(h0, i0) {
                assert(room_names(h0)[i] == room_name@);
                assert(room_names(h0).to_set().contains(room_name@));
                assert(i0.contains_key(room_name@));
                let h1 = self.house@;
                let i1 = self.inventory.devices();
                let last = h0.len() - 1;
                assert(room_names(h1) =~= room_names(h0).update(i, room_names(h0).last()).drop_last());
                lemma_swap_remove_set(room_names(h0), i);
                assert(i1.dom() =~= i0.dom().remove(room_name@));
                assert forall|k: int| 0 <= k < h1.len() implies (#[trigger] h1[k]).1.no_duplicates()
                    && h1[k].1.to_set() == i1[h1[k].0].dom() by {
                    let sk = if k == i { last } else { k };
                    assert(h1[k] == h0[sk]);
                    assert(room_names(h0)[sk] == h0[sk].0);
                    assert(sk != i);
                    assert(h0[sk].0 != room_name@);
                }
            }
        }
        r
    }

    fn add_device(&mut self, room_name: &RoomName, device_name: &DeviceName, device: DeviceItem)
        -> (r: Result<(), IntelligentHouseError>)
    {
        let ghost h0 = self.house@;
        let ghost i0 = self.inventory.devices();
        match self.house.add_device(room_name, device_name) {
            Ok(()) => {},
            Err(e) => return Err(IntelligentHouseError::HouseErr(e)),
        }
        let r = match self.inventory.add_device(room_name, device_name, device) {
            Ok(()) => Ok(()),
            Err(e) => Err(IntelligentHouseError::InventoryErr(e)),
        };
        proof {
            lemma_first_index_some(room_names(h0), room_name@);
            let i = room_position(h0, room_name@).unwrap();
            if synced(h0, i0) {
                assert(room_names(h0)[i] == room_name@);
                assert(h0[i].0 == room_name@);
                assert(room_names(h0).to_set().contains(room_name@));
                assert(i0.contains_key(room_name@));
                assert(h0[i].1.to_set() == i0[room_name@].dom());
                assert(!h0[i].1.to_set().contains(device_name@));
                let h1 = self.house@;
                let i1 = self.inventory.devices();
                assert(room_names(h1) =~= room_names(h0)) by {
                    assert forall|k: int| 0 <= k < h1.len() implies room_names(h1)[k] == room_names(h0)[k] by {
                        if k != i {
                            assert(h1[k] == h0[k]);
                        }
                    }
                }
                lemma_push_set(h0[i].1, device_name@);
                assert(i1.dom() =~= i0.dom());
                assert forall|k: int| 0 <= k < h1.len() implies (#[trigger] h1[k]).1.no_duplicates()
                    && h1[k].1.to_set() == i1[h1[k].0].dom() by {
                    if k == i {
                        assert(i1[room_name@].dom() =~= i0[room_name@].dom().insert(device_name@));
                    } else {
                        assert(h1[k] == h0[k]);
                        assert(room_names(h0)[k] == h0[k].0);
                        lemma_unique_position(room_names(h0), k);
                        assert(h0[k].0 != room_name@);
                    }
                }
            }
        }
        r
    }

    fn remove_device(&mut self, room_name: &RoomName, device_name: &DeviceName) -> (r: Result<(), IntelligentHouseError>)
    {
        let ghost h0 = self.house@;
        let ghost i0 = self.inventory.devices();
        match self.house.remove_device(room_name, device_name) {
            Ok(()) => {},
            Err(e) => return Err(IntelligentHouseError::HouseErr(e)),
        }
        let r = match self.inventory.remove_device(room_name, device_name) {
            Ok(()) => Ok(()),
            Err(e) => Err(IntelligentHouseError::InventoryErr(e)),
        };
        proof {
            lemma_first_index_some(room_names(h0), room_name@);
            let i = room_position(h0, room_name@).unwrap();
            lemma_first_index_some(h0[i].1, device_name@);
            let j = first_index_of(h0[i].1, device_name@).unwrap();
            if synced(h0, i0) {
                assert(room_names(h0)[i] == room_name@);
                assert(h0[i].0 == room_name@);
                assert(room_names(h0).to_set().contains(room_name@));
                assert(i0.contains_key(room_name@));
                assert(h0[i].1.to_set() == i0[room_name@].dom());
                assert(h0[i].1.to_set().contains(device_name@));
                let h1 = self.house@;
                let i1 = self.inventory.devices();
                assert(room_names(h1) =~= room_names(h0)) by {
                    assert forall|k: int| 0 <= k < h1.len() implies room_names(h1)[k] == room_names(h0)[k] by {
                        if k != i {
                            assert(h1[k] == h0[k]);
                        }
                    }
                }
                lemma_swap_remove_set(h0[i].1, j);
                assert(i1.dom() =~= i0.dom());
                assert forall|k: int| 0 <= k < h1.len() implies (#[trigger] h1[k]).1.no_duplicates()
                    && h1[k].1.to_set() == i1[h1[k].0].dom() by {
                    if k == i {
                        assert(i1[room_name@].dom() =~= i0[room_name@].dom().remove(device_name@));
                    } else {
                        assert(h1[k] == h0[k]);
                        assert(room_names(h0)[k] == h0[k].0);
                        lemma_unique_position(room_names(h0), k);
                        assert(h0[k].0 != room_name@);
                    }
                }
            }
        }
        r
    }
}

} // verus!
