use house::house::intelligent_house::IntelligentHouse;
use house::inventory::device_inventory::DeviceInventory;
use house::devices::device_info::DeviceInfo;
use house::devices::power_socket::{PowerSocket, SocketType};
use house::devices::temperature_sensor::{SensorRange, TemperatureSensor};
use house::errors::app_error::{AppError, HouseError as AppHouseError, InventoryError as AppInventoryError};
use house::errors::intelligent_house_error::{HouseError, IntelligentHouseError, InventoryError};
use house::house::domain::{DeviceName, Room, RoomName};
use house::house::memory_intelligent_house::MemoryIntelligentHouse;
use house::inventory::domain::{get_info, switch_socket};
use house::inventory::memory_device_inventory::{DeviceItem, MemoryDeviceInventory};
use house::synchronizer::device_synchronizer::{DeviceSynchronizer, HouseDeviceSynchronizer};
use house::text::{decimal_string, push_signed_decimal};
use house::{mk_three_rooms_house, mk_three_rooms_inventory, ThreeRoomNames};

fn room(name: &str) -> RoomName {
    RoomName(name.to_string())
}

fn dev(name: &str) -> DeviceName {
    DeviceName(name.to_string())
}

fn socket(voltage: u32, current: u32, enabled: bool) -> DeviceItem {
    DeviceItem::from(PowerSocket { tpe: SocketType::A, voltage, current, enabled })
}

fn sensor() -> DeviceItem {
    DeviceItem::from(TemperatureSensor { temperature: -5, range: SensorRange { min: -20, max: 30 }, accuracy: 2 })
}

fn room_names(house: &MemoryIntelligentHouse) -> Vec<String> {
    house.rooms.iter().map(|r| r.name.0.clone()).collect()
}

fn device_names(house: &MemoryIntelligentHouse, index: usize) -> Vec<String> {
    house.rooms[index].devices.iter().map(|d| d.0.clone()).collect()
}

#[test]
fn power_is_voltage_times_current() {
    let ps = PowerSocket { tpe: SocketType::B, voltage: 230, current: 16, enabled: false };
    assert_eq!(ps.power(), 3680);
}

#[test]
fn enable_and_disable_change_only_the_switch() {
    let mut ps = PowerSocket { tpe: SocketType::B, voltage: 230, current: 16, enabled: false };
    ps.enable();
    assert_eq!(ps, PowerSocket { tpe: SocketType::B, voltage: 230, current: 16, enabled: true });
    ps.disable();
    assert_eq!(ps, PowerSocket { tpe: SocketType::B, voltage: 230, current: 16, enabled: false });
}

#[test]
fn default_socket() {
    assert_eq!(
        PowerSocket::default(),
        PowerSocket { tpe: SocketType::C, voltage: 220, current: 10, enabled: true }
    );
}

#[test]
fn socket_info_of_a_disabled_socket() {
    let ps = PowerSocket { tpe: SocketType::A, voltage: 0, current: 7, enabled: false };
    assert_eq!(
        ps.get_info(&dev("s")),
        "PS 's' specification:\n                - type A\n                - voltage=0\n                - current=7\n                - enabled=false\n                - power=0"
    );
}

#[test]
fn sensor_info_with_negative_numbers() {
    let ts = TemperatureSensor { temperature: -5, range: SensorRange { min: -20, max: 30 }, accuracy: 2 };
    assert_eq!(
        get_info(DeviceItem::from(ts), &dev("t")),
        "TS 't' specification:\n                - -5C° \n                - range -20-30C° \n                - accuracy 2"
    );
}

#[test]
fn current_temperature_lies_in_the_range() {
    let ts = TemperatureSensor { temperature: 0, range: SensorRange { min: 3, max: 5 }, accuracy: 1 };
    for _ in 0..50 {
        let t = ts.current_temperature();
        assert!(3 <= t && t < 5);
    }
}

#[test]
fn decimal_text() {
    assert_eq!(decimal_string(0), "0");
    assert_eq!(decimal_string(1100), "1100");
    assert_eq!(decimal_string(u64::MAX), u64::MAX.to_string());
    let mut s = String::from("x");
    push_signed_decimal(&mut s, i64::MIN);
    assert_eq!(s, format!("x{}", i64::MIN));
    let mut s = String::new();
    push_signed_decimal(&mut s, -42);
    assert_eq!(s, "-42");
}

#[test]
fn inventory_error_messages() {
    assert_eq!(
        InventoryError::InventoryDeviceNotFound(dev("d"), room("r")).message(),
        "inventory device `d` not found into room r"
    );
    assert_eq!(
        InventoryError::InventoryDeviceInvalid(dev("d"), room("r")).message(),
        "inventory inappropriate device `d` for change"
    );
    assert_eq!(InventoryError::InventoryRoomAlreadyAdded(room("r")).message(), "inventory room `r` already added");
    assert_eq!(
        InventoryError::InventoryRoomNotFound(room("r")).message(),
        "inventory room `r` with devices not found"
    );
    assert_eq!(InventoryError::str("boom").message(), "inventory action failed with `boom`");
    assert_eq!(
        IntelligentHouseError::from(InventoryError::InventoryRoomNotFound(room("r"))).message(),
        "inventory error `inventory room `r` with devices not found` raised"
    );
}

#[test]
fn house_error_messages() {
    assert_eq!(HouseError::RoomNotFound(room("r")).message(), "room `r` not found");
    assert_eq!(
        HouseError::RoomDeviceAlreadyAdded(dev("d"), room("r")).message(),
        "device `d` already added into room 'r'"
    );
    assert_eq!(HouseError::str("x").message(), "storage action failed with `x`");
    assert_eq!(
        IntelligentHouseError::from(HouseError::RoomAlreadyAdded(room("r"))).message(),
        "house error `room `r` already added` raised"
    );
}

#[test]
fn internal_errors_carry_the_debug_text() {
    match InventoryError::fmt(vec![1, 2]) {
        InventoryError::InventoryInternalError(s) => assert_eq!(s, "[1, 2]"),
        other => panic!("unexpected {other:?}"),
    }
    match HouseError::fmt("q") {
        HouseError::HouseInternalError(s) => assert_eq!(s, "\"q\""),
        other => panic!("unexpected {other:?}"),
    }
}

#[test]
fn debug_string_matches_the_derived_debug() {
    let errors = vec![
        InventoryError::InventoryDeviceNotFound(dev("socket \"1\""), room("kitchen\n")),
        InventoryError::InventoryDeviceInvalid(dev("d"), room("r")),
        InventoryError::InventoryRoomNotFound(room("r")),
        InventoryError::InventoryDeviceNameDuplicated(dev("d"), room("r")),
        InventoryError::InventoryInternalError("a\\b".to_string()),
    ];
    for e in errors {
        assert_eq!(e.debug_string(), format!("{:?}", e));
    }
}

#[test]
fn app_error_messages() {
    assert_eq!(
        AppError::from(AppInventoryError::InventoryDeviceNotFound(dev("d"), room("r"))).message(),
        "inventory error `inventory device `d` not found` raised"
    );
    assert_eq!(
        AppError::from(AppHouseError::RoomDeviceNotFound(dev("d"), room("r"))).message(),
        "house error `device `d` not found into room 'r'` raised"
    );
}

#[test]
fn inventory_later_entries_win() {
    let inv = MemoryDeviceInventory::new(vec![
        (room("a"), vec![(dev("x"), socket(1, 1, true)), (dev("x"), socket(2, 2, true))]),
        (room("b"), vec![(dev("y"), sensor())]),
        (room("a"), vec![(dev("z"), socket(3, 3, false))]),
    ]);
    let mut rooms: Vec<String> = inv.get_rooms().unwrap().into_iter().map(|r| r.0).collect();
    rooms.sort();
    assert_eq!(rooms, vec!["a".to_string(), "b".to_string()]);
    assert_eq!(inv.get_device(&room("a"), &dev("z")).unwrap(), socket(3, 3, false));
    assert!(matches!(
        inv.get_device(&room("a"), &dev("x")),
        Err(InventoryError::InventoryDeviceNotFound(d, r)) if d.0 == "x" && r.0 == "a"
    ));
    assert_eq!(inv.get_device(&room("b"), &dev("y")).unwrap(), sensor());
}

#[test]
fn inventory_rooms_and_devices() {
    let mut inv = MemoryDeviceInventory::default();
    assert!(inv.get_rooms().unwrap().is_empty());
    assert!(inv.add_room(&room("k")).is_ok());
    assert!(matches!(inv.add_room(&room("k")), Err(InventoryError::InventoryRoomAlreadyAdded(r)) if r.0 == "k"));
    assert!(matches!(
        inv.add_device(&room("x"), &dev("d"), sensor()),
        Err(InventoryError::InventoryRoomNotFound(r)) if r.0 == "x"
    ));
    assert!(inv.add_device(&room("k"), &dev("d"), sensor()).is_ok());
    assert!(matches!(
        inv.add_device(&room("k"), &dev("d"), socket(1, 1, true)),
        Err(InventoryError::InventoryDeviceAlreadyAdded(d, r)) if d.0 == "d" && r.0 == "k"
    ));
    assert_eq!(inv.get_device(&room("k"), &dev("d")).unwrap(), sensor());
    assert!(matches!(
        inv.remove_device(&room("k"), &dev("e")),
        Err(InventoryError::InventoryDeviceNotFound(d, r)) if d.0 == "e" && r.0 == "k"
    ));
    assert!(inv.remove_device(&room("k"), &dev("d")).is_ok());
    assert!(inv.get_device(&room("k"), &dev("d")).is_err());
    assert!(inv.remove_room(&room("k")).is_ok());
    assert!(matches!(inv.remove_room(&room("k")), Err(InventoryError::InventoryRoomNotFound(r)) if r.0 == "k"));
    assert!(inv.get_rooms().unwrap().is_empty());
}

#[test]
fn inventory_get_info_of_a_missing_device() {
    let inv = MemoryDeviceInventory::new(vec![(room("k"), vec![])]);
    assert!(matches!(
        inv.get_info(&room("k"), &dev("d")),
        Err(InventoryError::InventoryDeviceNotFound(d, r)) if d.0 == "d" && r.0 == "k"
    ));
    assert!(inv.can_describe(&room("k"), &dev("d")));
}

#[test]
fn can_describe_rejects_an_overflowing_power() {
    let inv = MemoryDeviceInventory::new(vec![(room("k"), vec![(dev("d"), socket(u32::MAX, 2, true))])]);
    assert!(!inv.can_describe(&room("k"), &dev("d")));
}

#[test]
fn change_device_switches_sockets_only() {
    let mut inv = MemoryDeviceInventory::new(vec![(room("k"), vec![(dev("s"), socket(220, 5, true)), (dev("t"), sensor())])]);
    let s = dev("s");
    let t = dev("t");
    let k = room("k");
    assert!(inv.change_device(&k, &s, |d| switch_socket(d, false, &s, &k)).is_ok());
    assert_eq!(inv.get_device(&k, &s).unwrap(), socket(220, 5, false));
    assert!(matches!(
        inv.change_device(&k, &t, |d| switch_socket(d, false, &t, &k)),
        Err(InventoryError::InventoryDeviceInvalid(d, r)) if d.0 == "t" && r.0 == "k"
    ));
    assert_eq!(inv.get_device(&k, &t).unwrap(), sensor());
    assert!(matches!(
        inv.change_device(&room("z"), &s, |d| Ok(d)),
        Err(InventoryError::InventoryRoomNotFound(r)) if r.0 == "z"
    ));
    assert!(matches!(
        inv.change_device(&k, &dev("q"), |d| Ok(d)),
        Err(InventoryError::InventoryDeviceNotFound(d, r)) if d.0 == "q" && r.0 == "k"
    ));
}

#[test]
fn house_rooms() {
    let mut house = MemoryIntelligentHouse::create("h", vec![]);
    assert_eq!(house.name.0, "h");
    for n in ["a", "b", "c"] {
        assert!(house.add_room(&room(n)).is_ok());
    }
    assert!(matches!(house.add_room(&room("b")), Err(HouseError::RoomAlreadyAdded(r)) if r.0 == "b"));
    assert!(house.remove_room(&room("a")).is_ok());
    assert_eq!(room_names(&house), vec!["c".to_string(), "b".to_string()]);
    assert!(matches!(house.remove_room(&room("a")), Err(HouseError::RoomNotFound(r)) if r.0 == "a"));
    assert!(matches!(house.get_room(&room("a")), Err(HouseError::RoomNotFound(_))));
    assert_eq!(house.get_room(&room("b")).unwrap().name.0, "b");
    assert_eq!(house.get_rooms().unwrap().len(), 2);
}

#[test]
fn house_devices() {
    let mut house = MemoryIntelligentHouse::create("h", vec![Room { name: room("r"), devices: vec![] }]);
    for n in ["x", "y", "z"] {
        assert!(house.add_device(&room("r"), &dev(n)).is_ok());
    }
    assert!(matches!(
        house.add_device(&room("r"), &dev("y")),
        Err(HouseError::RoomDeviceAlreadyAdded(d, r)) if d.0 == "y" && r.0 == "r"
    ));
    assert!(matches!(house.add_device(&room("q"), &dev("y")), Err(HouseError::RoomNotFound(_))));
    assert!(house.remove_device(&room("r"), &dev("x")).is_ok());
    assert_eq!(device_names(&house, 0), vec!["z".to_string(), "y".to_string()]);
    assert!(matches!(
        house.remove_device(&room("r"), &dev("x")),
        Err(HouseError::RoomDeviceNotFound(d, r)) if d.0 == "x" && r.0 == "r"
    ));
    let devices: Vec<String> = house.get_devices(&room("r")).unwrap().into_iter().map(|d| d.0).collect();
    assert_eq!(devices, vec!["z".to_string(), "y".to_string()]);
}

#[test]
fn duplicate_room_names_use_the_first_room() {
    let house = MemoryIntelligentHouse::create(
        "h",
        vec![
            Room { name: room("r"), devices: vec![dev("a")] },
            Room { name: room("r"), devices: vec![dev("b")] },
        ],
    );
    let devices: Vec<String> = house.get_devices(&room("r")).unwrap().into_iter().map(|d| d.0).collect();
    assert_eq!(devices, vec!["a".to_string()]);
    let inv = MemoryDeviceInventory::new(vec![]);
    assert_eq!(
        house.generate_report(&inv).unwrap(),
        "'h' contains 2 rooms:\n   'r' has:\n     inventory device `a` not found into room r\n\n   'r' has:\n     inventory device `a` not found into room r\n\n"
    );
}

#[test]
fn report_of_an_empty_house() {
    let house = MemoryIntelligentHouse::create("empty", vec![]);
    let inv = MemoryDeviceInventory::default();
    assert!(house.can_report(&inv));
    assert_eq!(house.generate_report(&inv).unwrap(), "'empty' contains 0 rooms:\n");
}

#[test]
fn can_report_sees_an_overflowing_power() {
    let house = MemoryIntelligentHouse::create("h", vec![Room { name: room("r"), devices: vec![dev("s")] }]);
    let inv = MemoryDeviceInventory::new(vec![(room("r"), vec![(dev("s"), socket(70000, 70000, true))])]);
    assert!(!house.can_report(&inv));
    let fine = MemoryDeviceInventory::new(vec![(room("r"), vec![(dev("s"), socket(2, 3, true))])]);
    assert!(house.can_report(&fine));
}

#[test]
fn synchronizer_changes_both_sides() {
    let names = ThreeRoomNames::default();
    let house = mk_three_rooms_house(names.clone());
    let inventory = mk_three_rooms_inventory(names.clone());
    let mut sync = HouseDeviceSynchronizer::new(house, inventory);
    let children = room("children");
    assert!(sync.add_room(&children).is_ok());
    assert!(matches!(
        sync.add_room(&children),
        Err(IntelligentHouseError::HouseErr(HouseError::RoomAlreadyAdded(_)))
    ));
    assert!(sync.add_device(&children, &dev("extra ps 220"), socket(220, 10, true)).is_ok());
    assert_eq!(sync.inventory.get_device(&children, &dev("extra ps 220")).unwrap(), socket(220, 10, true));
    assert!(sync.remove_device(&names.lounge, &names.socket2).is_ok());
    assert!(sync.inventory.get_device(&names.lounge, &names.socket2).is_err());
    assert!(sync.remove_room(&names.bedroom).is_ok());
    assert!(sync.inventory.get_device(&names.bedroom, &names.socket1).is_err());
    assert!(matches!(
        sync.remove_room(&names.bedroom),
        Err(IntelligentHouseError::HouseErr(HouseError::RoomNotFound(_)))
    ));
    assert_eq!(
        room_names(&sync.house),
        vec!["children".to_string(), "kitchen".to_string(), "lounge".to_string()]
    );
}

#[test]
fn synchronizer_reports_an_inventory_error_after_changing_the_house() {
    let house = MemoryIntelligentHouse::create("h", vec![]);
    let inventory = MemoryDeviceInventory::new(vec![(room("r"), vec![])]);
    let mut sync = HouseDeviceSynchronizer::new(house, inventory);
    assert!(matches!(
        sync.add_room(&room("r")),
        Err(IntelligentHouseError::InventoryErr(InventoryError::InventoryRoomAlreadyAdded(_)))
    ));
    assert_eq!(room_names(&sync.house), vec!["r".to_string()]);
}

#[test]
fn three_rooms_report() {
    let names = ThreeRoomNames::default();
    let house = mk_three_rooms_house(names.clone());
    let inventory = mk_three_rooms_inventory(names);
    assert_eq!(house.name.0, "bachelor's house");
    assert!(house.can_report(&inventory));
    let report = house.generate_report(&inventory).unwrap();
    assert!(report.starts_with("'bachelor's house' contains 3 rooms:\n   'bedroom' has:\n     PS 'socket1' specification:"));
    assert!(report.contains("   'kitchen' has:\n     PS 'socket4' specification:"));
    assert!(report.contains("- power=5000\n     TS 'sensor1' specification:"));
    assert!(report.ends_with("   'lounge' has:\n     PS 'socket2' specification:\n                - type B\n                - voltage=220\n                - current=15\n                - enabled=true\n                - power=3300\n     PS 'socket3' specification:\n                - type A\n                - voltage=230\n                - current=10\n                - enabled=true\n                - power=2300\n\n"));
}
