use house::inventory::device_inventory::DeviceInventory;
use house::devices::power_socket::{PowerSocket, SocketType};
use house::devices::temperature_sensor::{SensorRange, TemperatureSensor};
use house::errors::intelligent_house_error::{IntelligentHouseError, InventoryError};
use house::exchange_protocol::codecs::{self, frame_length, next_read_decision, ReadAttempt, ReadDecision};
use house::framing::{DecodeError, DecodeStep, ReadEvent};
use house::house::domain::{DeviceName, RoomName};
use house::house_library::{create_inventory, get_socket_info, switch_socket, CallStatus, RawEnabled};
use house::house_server::domain::{DeviceData, DeviceLocation, RequestBody, ResponseBody};
use house::house_server::house_server::{device_data_body, get_device_data, process_request, MonitorChange};
use house::inventory::memory_device_inventory::{DeviceItem, MemoryDeviceInventory};
use house::tcp::tcp_protocol;
use house::tcp_exchange;

fn bytes(b: &[u8]) -> Vec<ReadEvent> {
    b.iter().map(|x| ReadEvent::Byte(*x)).collect()
}

fn location(room: &str, device: &str) -> DeviceLocation {
    DeviceLocation { room_name: room.to_string(), device_name: device.to_string() }
}

fn inventory() -> MemoryDeviceInventory {
    MemoryDeviceInventory::new(vec![(
        RoomName("kitchen".to_string()),
        vec![
            (DeviceName("s".to_string()), DeviceItem::from(PowerSocket { tpe: SocketType::B, voltage: 220, current: 5, enabled: true })),
            (
                DeviceName("t".to_string()),
                DeviceItem::from(TemperatureSensor { temperature: 20, range: SensorRange { min: 18, max: 19 }, accuracy: 1 }),
            ),
        ],
    )])
}

#[test]
fn encode_with_two_byte_length() {
    assert_eq!(codecs::encode_bytes(&[7, 8, 9]), vec![0, 3, 7, 8, 9]);
    assert_eq!(codecs::encode_bytes(&[]), vec![0, 0]);
    let long = vec![1u8; 300];
    let msg = tcp_exchange::tcp_protocol::encode_bytes(&long);
    assert_eq!(&msg[..2], &[1, 44]);
    assert_eq!(msg.len(), 302);
}

#[test]
fn two_byte_length_wraps() {
    let long = vec![5u8; 65536 + 3];
    let msg = codecs::encode_bytes(&long);
    assert_eq!(&msg[..2], &[0, 3]);
    let (decoded, taken) = codecs::decode_bytes(&bytes(&msg));
    assert_eq!(decoded.unwrap(), vec![5u8; 3]);
    assert_eq!(taken, 5);
}

#[test]
fn encode_with_eight_byte_length() {
    assert_eq!(tcp_protocol::encode_bytes(&[1, 2]), vec![0, 0, 0, 0, 0, 0, 0, 2, 1, 2]);
}

#[test]
fn decode_reads_back_and_leaves_the_rest() {
    let mut stream = bytes(&codecs::encode_bytes(b"hello"));
    stream.extend(bytes(&codecs::encode_bytes(b"second")));
    let (first, taken) = codecs::decode_bytes(&stream);
    assert_eq!(first.unwrap(), b"hello".to_vec());
    assert_eq!(taken, 7);
    let (second, taken2) = codecs::decode_bytes(&stream[taken..]);
    assert_eq!(second.unwrap(), b"second".to_vec());
    assert_eq!(taken2, 8);
    let (rest, taken3) = codecs::decode_bytes(&stream[taken + taken2..]);
    assert_eq!(rest, Err(DecodeError::StreamEmpty));
    assert_eq!(taken3, 0);
}

#[test]
fn decode_eight_byte_frames() {
    let stream = bytes(&tcp_protocol::encode_bytes(&[9, 8, 7]));
    let (frame, taken) = tcp_protocol::decode_bytes(&stream);
    assert_eq!(frame.unwrap(), vec![9, 8, 7]);
    assert_eq!(taken, 11);
}

#[test]
fn decode_stops_short_at_the_end() {
    let (frame, taken) = codecs::decode_bytes(&bytes(&[0, 5, 1, 2]));
    assert_eq!(frame.unwrap(), vec![1, 2]);
    assert_eq!(taken, 4);
}

#[test]
fn decode_reports_failures() {
    let (r, taken) = codecs::decode_bytes(&[ReadEvent::Failure, ReadEvent::Byte(1)]);
    assert_eq!(r, Err(DecodeError::ReadFailed));
    assert_eq!(taken, 1);
    let (r, taken) = codecs::decode_bytes(&[ReadEvent::Byte(0), ReadEvent::Byte(2), ReadEvent::Byte(1), ReadEvent::Failure]);
    assert_eq!(r, Err(DecodeError::ReadFailed));
    assert_eq!(taken, 4);
    let (r, taken) = tcp_protocol::decode_bytes(&[ReadEvent::Byte(0), ReadEvent::Failure]);
    assert_eq!(r, Err(DecodeError::ReadFailed));
    assert_eq!(taken, 2);
}

#[test]
fn decoder_steps() {
    let mut d = codecs::frame_decoder();
    assert!(matches!(d.step(ReadEvent::Byte(0)), DecodeStep::Continue));
    assert!(matches!(d.step(ReadEvent::Byte(2)), DecodeStep::Continue));
    assert!(matches!(d.step(ReadEvent::Byte(4)), DecodeStep::Continue));
    match d.step(ReadEvent::Byte(5)) {
        DecodeStep::Frame(v) => assert_eq!(v, vec![4, 5]),
        other => panic!("unexpected {other:?}"),
    }
    assert!(matches!(d.step(ReadEvent::Byte(0)), DecodeStep::Continue));
    match d.step(ReadEvent::Byte(0)) {
        DecodeStep::Frame(v) => assert!(v.is_empty()),
        other => panic!("unexpected {other:?}"),
    }
    assert!(matches!(d.step(ReadEvent::Byte(0)), DecodeStep::Continue));
    assert!(matches!(d.step(ReadEvent::End), DecodeStep::HeaderTruncated));
    assert!(matches!(d.step(ReadEvent::End), DecodeStep::StreamEmpty));
    assert!(matches!(d.step(ReadEvent::Failure), DecodeStep::ReadFailed));
}

#[test]
fn header_length() {
    assert_eq!(frame_length([1, 2]), 258);
    assert_eq!(frame_length([255, 255]), codecs::MAX_SIZE);
}

#[test]
fn read_decisions() {
    assert_eq!(next_read_decision(0, 4, ReadAttempt::Read(0)), ReadDecision::Empty);
    assert_eq!(next_read_decision(2, 4, ReadAttempt::Read(0)), ReadDecision::Done);
    assert_eq!(next_read_decision(1, 4, ReadAttempt::Read(3)), ReadDecision::Continue(4));
    assert_eq!(next_read_decision(1, 4, ReadAttempt::WouldBlock), ReadDecision::Continue(1));
    assert_eq!(next_read_decision(1, 4, ReadAttempt::Failed), ReadDecision::Fail);
}

#[test]
fn process_change_request() {
    let mut inv = inventory();
    let (r, change) = process_request(
        RequestBody::ChangeDeviceData { location: location("kitchen", "s"), data: DeviceData::PowerSocketState { enabled: false } },
        &mut inv,
    );
    assert!(matches!(r.unwrap().body, ResponseBody::DeviceDataChanged));
    assert!(matches!(change, MonitorChange::Keep));
    assert_eq!(
        inv.get_device(&RoomName("kitchen".to_string()), &DeviceName("s".to_string())).unwrap(),
        DeviceItem::from(PowerSocket { tpe: SocketType::B, voltage: 220, current: 5, enabled: false })
    );
    let (r, _) = process_request(
        RequestBody::ChangeDeviceData { location: location("kitchen", "t"), data: DeviceData::PowerSocketState { enabled: false } },
        &mut inv,
    );
    assert!(matches!(
        r,
        Err(IntelligentHouseError::InventoryErr(InventoryError::InventoryDeviceInvalid(d, rn))) if d.0 == "t" && rn.0 == "kitchen"
    ));
    let (r, _) = process_request(
        RequestBody::ChangeDeviceData { location: location("hall", "s"), data: DeviceData::PowerSocketState { enabled: true } },
        &mut inv,
    );
    assert!(matches!(r, Err(IntelligentHouseError::InventoryErr(InventoryError::InventoryRoomNotFound(_)))));
}

#[test]
fn process_show_and_monitor_requests() {
    let mut inv = inventory();
    let (r, change) = process_request(RequestBody::ShowDeviceInfo { location: location("kitchen", "s") }, &mut inv);
    match r.unwrap().body {
        ResponseBody::DeviceDescription(info) => assert!(info.starts_with("PS 's' specification:")),
        other => panic!("unexpected {other:?}"),
    }
    assert!(matches!(change, MonitorChange::Keep));
    let (r, _) = process_request(RequestBody::ShowDeviceInfo { location: location("kitchen", "x") }, &mut inv);
    assert!(matches!(r, Err(IntelligentHouseError::InventoryErr(InventoryError::InventoryDeviceNotFound(_, _)))));
    let (r, change) = process_request(RequestBody::RegisterDeviceMonitor { location: location("kitchen", "t") }, &mut inv);
    assert!(matches!(r.unwrap().body, ResponseBody::MonitorRegistered));
    assert!(matches!(change, MonitorChange::Register(l) if l.room_name == "kitchen" && l.device_name == "t"));
    let (r, change) = process_request(RequestBody::RemoveDeviceMonitor, &mut inv);
    assert!(matches!(r.unwrap().body, ResponseBody::MonitorRemoved));
    assert!(matches!(change, MonitorChange::Remove));
}

#[test]
fn device_data_for_monitors() {
    let inv = inventory();
    match get_device_data(&location("kitchen", "s"), &inv).unwrap().body {
        ResponseBody::PowerSocketInfo { enabled, power } => {
            assert!(enabled);
            assert_eq!(power, 1100);
        },
        other => panic!("unexpected {other:?}"),
    }
    match get_device_data(&location("kitchen", "t"), &inv).unwrap().body {
        ResponseBody::TemperatureSensorInfo { temperature } => assert_eq!(temperature, 18),
        other => panic!("unexpected {other:?}"),
    }
    assert!(get_device_data(&location("kitchen", "x"), &inv).is_err());
    let sensor = DeviceItem::from(TemperatureSensor { temperature: 0, range: SensorRange { min: 0, max: 9 }, accuracy: 1 });
    assert!(matches!(device_data_body(sensor, 7), ResponseBody::TemperatureSensorInfo { temperature: 7 }));
}

#[test]
fn library_switches_the_kitchen_socket() {
    let mut inv = create_inventory();
    let kitchen = RoomName("kitchen".to_string());
    let socket = DeviceName("socket 220V-5A".to_string());
    assert!(get_socket_info(&inv, &kitchen, &socket).contains("- enabled=true"));
    assert_eq!(switch_socket(&mut inv, &kitchen, &socket, RawEnabled::Disabled), CallStatus::NoError);
    assert!(get_socket_info(&inv, &kitchen, &socket).contains("- enabled=false"));
    assert_eq!(
        switch_socket(&mut inv, &kitchen, &DeviceName("none".to_string()), RawEnabled::Enabled),
        CallStatus::InventoryError
    );
    assert_eq!(CallStatus::InventoryError.code(), 2);
    assert_eq!(CallStatus::NoError.code(), 0);
}

#[test]
fn library_error_text() {
    let inv = create_inventory();
    assert_eq!(
        get_socket_info(&inv, &RoomName("hall".to_string()), &DeviceName("x".to_string())),
        "error:InventoryDeviceNotFound(DeviceName(\"x\"), RoomName(\"hall\"))"
    );
}
