use logger_lib::byte_buf::ByteBuf;
use logger_lib::crc::crc8;
use logger_lib::logger_types::{Attribute, Device, DeviceInstance, Entity, State, Value};
use logger_lib::nus_service::{notifier_letter, NusService, NusServiceEvent, NUS_MAX_LEN};

#[test]
fn nus_writes() {
    let svc = NusService::from_handles(12, 14, 15);
    assert_eq!(svc.tx_handle(), 14);
    match svc.on_write(12, b"hello") {
        Some(NusServiceEvent::RxWrite(d)) => assert_eq!(d.as_slice(), b"hello"),
        _ => panic!("expected rx data"),
    }
    match svc.on_write(15, &[0x01, 0x00]) {
        Some(NusServiceEvent::TxCccdWrite { notifications }) => assert!(notifications),
        _ => panic!("expected cccd write"),
    }
    match svc.on_write(15, &[0x02, 0x00]) {
        Some(NusServiceEvent::TxCccdWrite { notifications }) => assert!(!notifications),
        _ => panic!("expected cccd write"),
    }
    assert!(svc.on_write(15, &[]).is_none());
    assert!(svc.on_write(14, b"x").is_none());
    let big = [7u8; NUS_MAX_LEN];
    match svc.on_write(12, &big) {
        Some(NusServiceEvent::RxWrite(d)) => assert_eq!(d.len(), NUS_MAX_LEN),
        _ => panic!("expected rx data"),
    }
}

#[test]
fn byte_buf_capacity() {
    let mut b = ByteBuf::<4>::new();
    assert_eq!(b.capacity(), 4);
    assert_eq!(b.extend_from_slice(&[1, 2, 3]), Ok(()));
    assert_eq!(b.extend_from_slice(&[4, 5]), Err(()));
    assert_eq!(b.as_slice(), &[1, 2, 3]);
    assert_eq!(b.push(4), Ok(()));
    assert_eq!(b.push(5), Err(5));
    assert_eq!(b.len(), 4);
    assert!(ByteBuf::<2>::from_slice(&[1, 2, 3]).is_err());
    assert_eq!(ByteBuf::<3>::from_slice(&[1, 2, 3]).unwrap().as_slice(), &[1, 2, 3]);
}

#[test]
fn crc8_values() {
    assert_eq!(crc8(&[]), 0);
    assert_eq!(crc8(&[0x01]), 0x07);
    // SMBus PEC check value of "123456789"
    assert_eq!(crc8(b"123456789"), 0xf4);
}

#[test]
fn logger_state_types() {
    let d = DeviceInstance::new(Device::Climate, 4);
    let s = State::new(d, Attribute::Temperature, 21.5f32.to_bits());
    assert_eq!(s.entity, Entity { device_instance: d, attr: Attribute::Temperature });
    assert_eq!(s.value, Value::Number(21.5f32.to_bits()));
    assert_eq!(Value::default(), Value::Unknown);
    assert_eq!(DeviceInstance::default(), DeviceInstance { device: Device::Forbidden, instance: 0 });
    assert_eq!(Entity::default().attr, Attribute::Unknown);
    let _ = s.timestamp.epoch();
}

#[test]
fn notifier_letters() {
    assert_eq!(notifier_letter(0), b'a');
    assert_eq!(notifier_letter(25), b'z');
    assert_eq!(notifier_letter(26), b'a');
    assert_eq!(notifier_letter(27), b'b');
}
