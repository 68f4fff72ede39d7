//! Intelligent house: devices, their inventory, the house layout, the synchronizer that
//! changes both together, and the framing used to exchange messages with a house server.

pub mod devices;
pub mod errors;
pub mod exchange_protocol;
pub mod framing;
pub mod house;
pub mod house_library;
pub mod house_server;
pub mod inventory;
pub mod keyed;
pub mod synchronizer;
pub mod tcp;
pub mod tcp_exchange;
pub mod text;

use vstd::prelude::*;

use crate::devices::power_socket::{PowerSocket, SocketType};
use crate::devices::temperature_sensor::{SensorRange, TemperatureSensor};
use crate::house::domain::{device_names_view, DeviceName, Room, RoomName};
use crate::house::memory_intelligent_house::{room_names, rooms_view, MemoryIntelligentHouse, RoomView};
use crate::inventory::device_inventory::InventoryMap;
use crate::inventory::memory_device_inventory::{device_pairs, room_pairs, DeviceItem, MemoryDeviceInventory};
use crate::keyed::to_map;
use crate::synchronizer::device_synchronizer::synced;

verus! {

/// The names used by the predefined three-room house.
#[derive(Debug, Clone)]
pub struct ThreeRoomNames {
    pub lounge: RoomName,
    pub bedroom: RoomName,
    pub kitchen: RoomName,
    pub socket1: DeviceName,
    pub socket2: DeviceName,
    pub socket3: DeviceName,
    pub socket4: DeviceName,
    pub sensor1: DeviceName,
}

impl Default for ThreeRoomNames {
    fn default() -> (names: Self)
        ensures
            names.lounge@ == "lounge"@,
            names.bedroom@ == "bedroom"@,
            names.kitchen@ == "kitchen"@,
            names.socket1@ == "socket1"@,
            names.socket2@ == "socket2"@,
            names.socket3@ == "socket3"@,
            names.socket4@ == "socket4"@,
            names.sensor1@ == "sensor1"@,
    {
        ThreeRoomNames {
            lounge: RoomName("lounge".to_owned()),
            bedroom: RoomName("bedroom".to_owned()),
            kitchen: RoomName("kitchen".to_owned()),
            socket1: DeviceName("socket1".to_owned()),
            socket2: DeviceName("socket2".to_owned()),
            socket3: DeviceName("socket3".to_owned()),
            socket4: DeviceName("socket4".to_owned()),
            sensor1: DeviceName("sensor1".to_owned()),
        }
    }
}

/// The devices of the predefined inventory: one socket in the bedroom, two in the lounge,
/// and a socket and a temperature sensor in the kitchen. Where names coincide, a later
/// entry wins (bedroom, then lounge, then kitchen).
pub open spec fn three_rooms_inventory(names: ThreeRoomNames) -> InventoryMap {
    to_map(
        seq![
            (names.bedroom@, to_map(seq![
                (names.socket1@, DeviceItem::PowerSocket(PowerSocket { tpe: SocketType::C, voltage: 220, current: 15, enabled: true })),
            ])),
            (names.lounge@, to_map(seq![
                (names.socket2@, DeviceItem::PowerSocket(PowerSocket { tpe: SocketType::B, voltage: 220, current: 15, enabled: true })),
                (names.socket3@, DeviceItem::PowerSocket(PowerSocket { tpe: SocketType::A, voltage: 230, current: 10, enabled: true })),
            ])),
            (names.kitchen@, to_map(seq![
                (names.socket4@, DeviceItem::PowerSocket(PowerSocket { tpe: SocketType::B, voltage: 250, current: 20, enabled: true })),
                (names.sensor1@, DeviceItem::TemperatureSensor(TemperatureSensor {
                    temperature: 26,
                    range: SensorRange { min: 10, max: 40 },
                    accuracy: 1,
                })),
            ])),
        ],
    )
}

/// The rooms of the predefined house, in order: bedroom, kitchen, lounge.
pub open spec fn three_rooms_house(names: ThreeRoomNames) -> Seq<RoomView> {
    seq![
        (names.bedroom@, seq![names.socket1@]),
        (names.kitchen@, seq![names.socket4@, names.sensor1@]),
        (names.lounge@, seq![names.socket2@, names.socket3@]),
    ]
}

/// The predefined inventory of three rooms.
pub fn mk_three_rooms_inventory(names: ThreeRoomNames) -> (inv: MemoryDeviceInventory)
    ensures
        inv@ == three_rooms_inventory(names),
{
    let ghost n = names;
    let mut bedroom: Vec<(DeviceName, DeviceItem)> = Vec::new();
    bedroom.push((names.socket1, DeviceItem::PowerSocket(PowerSocket { tpe: SocketType::C, voltage: 220, current: 15, enabled: true })));
    let mut lounge: Vec<(DeviceName, DeviceItem)> = Vec::new();
    lounge.push((names.socket2, DeviceItem::PowerSocket(PowerSocket { tpe: SocketType::B, voltage: 220, current: 15, enabled: true })));
    lounge.push((names.socket3, DeviceItem::PowerSocket(PowerSocket { tpe: SocketType::A, voltage: 230, current: 10, enabled: true })));
    let mut kitchen: Vec<(DeviceName, DeviceItem)> = Vec::new();
    kitchen.push((names.socket4, DeviceItem::PowerSocket(PowerSocket { tpe: SocketType::B, voltage: 250, current: 20, enabled: true })));
    kitchen.push((
        names.sensor1,
        DeviceItem::TemperatureSensor(TemperatureSensor { temperature: 26, range: SensorRange { min: 10, max: 40 }, accuracy: 1 }),
    ));
    let mut devices: Vec<(RoomName, Vec<(DeviceName, DeviceItem)>)> = Vec::new();
    devices.push((names.bedroom, bedroom));
    devices.push((names.lounge, lounge));
    devices.push((names.kitchen, kitchen));
    proof {
        assert(device_pairs(devices@[0].1@) =~= three_rooms_devices_bedroom(n));
        assert(device_pairs(devices@[1].1@) =~= three_rooms_devices_lounge(n));
        assert(device_pairs(devices@[2].1@) =~= three_rooms_devices_kitchen(n));
        assert(room_pairs(devices@) =~= seq![
            (n.bedroom@, to_map(three_rooms_devices_bedroom(n))),
            (n.lounge@, to_map(three_rooms_devices_lounge(n))),
            (n.kitchen@, to_map(three_rooms_devices_kitchen(n))),
        ]);
    }
    MemoryDeviceInventory::new(devices)
}

spec fn three_rooms_devices_bedroom(names: ThreeRoomNames) -> Seq<(Seq<char>, DeviceItem)> {
    seq![(names.socket1@, DeviceItem::PowerSocket(PowerSocket { tpe: SocketType::C, voltage: 220, current: 15, enabled: true }))]
}

spec fn three_rooms_devices_lounge(names: ThreeRoomNames) -> Seq<(Seq<char>, DeviceItem)> {
    seq![
        (names.socket2@, DeviceItem::PowerSocket(PowerSocket { tpe: SocketType::B, voltage: 220, current: 15, enabled: true })),
        (names.socket3@, DeviceItem::PowerSocket(PowerSocket { tpe: SocketType::A, voltage: 230, current: 10, enabled: true })),
    ]
}

spec fn three_rooms_devices_kitchen(names: ThreeRoomNames) -> Seq<(Seq<char>, DeviceItem)> {
    seq![
        (names.socket4@, DeviceItem::PowerSocket(PowerSocket { tpe: SocketType::B, voltage: 250, current: 20, enabled: true })),
        (names.sensor1@, DeviceItem::TemperatureSensor(TemperatureSensor {
            temperature: 26,
            range: SensorRange { min: 10, max: 40 },
            accuracy: 1,
        })),
    ]
}

/// The predefined house of three rooms, named "bachelor's house".
pub fn mk_three_rooms_house(names: ThreeRoomNames) -> (house: MemoryIntelligentHouse)
    ensures
        house.name@ == "bachelor's house"@,
        house@ == three_rooms_house(names),
{
    let ghost n = names;
    let mut bedroom_devices: Vec<DeviceName> = Vec::new();
    bedroom_devices.push(names.socket1);
    let bedroom = Room { name: names.bedroom, devices: bedroom_devices };
    let mut lounge_devices: Vec<DeviceName> = Vec::new();
    lounge_devices.push(names.socket2);
    lounge_devices.push(names.socket3);
    let lounge = Room { name: names.lounge, devices: lounge_devices };
    let mut kitchen_devices: Vec<DeviceName> = Vec::new();
    kitchen_devices.push(names.socket4);
    kitchen_devices.push(names.sensor1);
    let kitchen = Room { name: names.kitchen, devices: kitchen_devices };
    let mut rooms: Vec<Room> = Vec::new();
    rooms.push(bedroom);
    rooms.push(kitchen);
    rooms.push(lounge);
    proof {
        assert(device_names_view(rooms@[0].devices@) =~= seq![n.socket1@]);
        assert(device_names_view(rooms@[1].devices@) =~= seq![n.socket4@, n.sensor1@]);
        assert(device_names_view(rooms@[2].devices@) =~= seq![n.socket2@, n.socket3@]);
        assert(rooms_view(rooms@) =~= three_rooms_house(n));
    }
    MemoryIntelligentHouse::create("bachelor's house", rooms)
}

/// The predefined house and inventory describe the same rooms and devices, as long as the
/// three room names differ and the names of the devices within each room differ.
pub proof fn lemma_three_rooms_synced(names: ThreeRoomNames)
    requires
        names.bedroom@ != names.kitchen@,
        names.bedroom@ != names.lounge@,
        names.kitchen@ != names.lounge@,
        names.socket2@ != names.socket3@,
        names.socket4@ != names.sensor1@,
    ensures
        synced(three_rooms_house(names), three_rooms_inventory(names)),
{
    reveal_with_fuel(to_map, 4);
    let h = three_rooms_house(names);
    let inv = three_rooms_inventory(names);
    let b = names.bedroom@;
    let k = names.kitchen@;
    let l = names.lounge@;
    let bd = to_map(three_rooms_devices_bedroom(names));
    let ld = to_map(three_rooms_devices_lounge(names));
    let kd = to_map(three_rooms_devices_kitchen(names));
    assert(three_rooms_devices_bedroom(names).drop_last() =~= Seq::empty());
    assert(three_rooms_devices_lounge(names).drop_last().drop_last() =~= Seq::empty());
    assert(three_rooms_devices_kitchen(names).drop_last().drop_last() =~= Seq::empty());
    let rooms = seq![(b, bd), (l, ld), (k, kd)];
    assert(rooms.drop_last().drop_last().drop_last() =~= Seq::empty());
    assert(inv == to_map(rooms));
    assert(inv == Map::<Seq<char>, Map<Seq<char>, DeviceItem>>::empty().insert(b, bd).insert(l, ld).insert(k, kd));
    let hn = room_names(h);
    assert(hn =~= seq![b, k, l]);
    assert(hn.to_set() =~= inv.dom()) by {
        assert forall|x: Seq<char>| hn.to_set().contains(x) <==> inv.dom().contains(x) by {
            if x == b { assert(hn[0] == x); }
            if x == k { assert(hn[1] == x); }
            if x == l { assert(hn[2] == x); }
        }
    }
    assert(h[0].1.to_set() =~= inv[b].dom()) by {
        assert forall|x: Seq<char>| h[0].1.to_set().contains(x) <==> inv[b].dom().contains(x) by {
            if x == names.socket1@ { assert(h[0].1[0] == x); }
        }
    }
    assert(h[1].1.to_set() =~= inv[k].dom()) by {
        assert forall|x: Seq<char>| h[1].1.to_set().contains(x) <==> inv[k].dom().contains(x) by {
            if x == names.socket4@ { assert(h[1].1[0] == x); }
            if x == names.sensor1@ { assert(h[1].1[1] == x); }
        }
    }
    assert(h[2].1.to_set() =~= inv[l].dom()) by {
        assert forall|x: Seq<char>| h[2].1.to_set().contains(x) <==> inv[l].dom().contains(x) by {
            if x == names.socket2@ { assert(h[2].1[0] == x); }
            if x == names.socket3@ { assert(h[2].1[1] == x); }
        }
    }
    assert forall|i: int| 0 <= i < h.len() implies (#[trigger] h[i]).1.no_duplicates() && h[i].1.to_set()
        == inv[h[i].0].dom() by {}
}

} // verus!
