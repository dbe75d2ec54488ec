use logger_lib::byte_buf::ByteBuf;
use logger_lib::crc::crc8;
use logger_lib::state_types::{Attribute, Device, DeviceType, Entity, State, STATE_PACKET_LEN};
use logger_lib::timestamp::Timestamp;

#[test]
fn state_types_attr_test() {
    let a = Attribute::Brightness;
    assert_eq!(a, Attribute::from_u8(a.to_u8()));
}

#[test]
fn state_test() {
    let dev = Device::new(DeviceType::Climate, 0);
    let s1 = State::new(dev, Attribute::Temperature, 21.4f32.to_bits());
    let s2 = State::new(dev, Attribute::Humidity, 33.0f32.to_bits());

    const N: usize = 30;
    let mut buf = ByteBuf::<N>::new();

    s1.to_bytes::<N>(&mut buf).unwrap();
    let size = buf.len();
    s2.to_bytes::<N>(&mut buf).unwrap();
    let _ = buf.push(4);

    let mut iter = buf.as_slice().chunks_exact(size);
    assert_eq!(State::from_bytes(iter.next().unwrap()).unwrap(), s1);
    assert_eq!(State::from_bytes(iter.next().unwrap()).unwrap(), s2);
}

fn sample_state() -> State {
    State {
        timestamp: Timestamp::from_micros(1_700_000_123_456_789),
        entity: Entity::new(DeviceType::Tank, 2, Attribute::TankLevel),
        value_bits: 0x4129_999a,
    }
}

#[test]
fn device_type_codes_roundtrip() {
    let all = [
        DeviceType::Unknown,
        DeviceType::Light,
        DeviceType::Switch,
        DeviceType::Tank,
        DeviceType::Climate,
        DeviceType::Gps,
        DeviceType::Button,
        DeviceType::Led,
        DeviceType::Forbidden,
    ];
    for d in all {
        assert_eq!(DeviceType::from_u8(d.to_u8()), d);
    }
    assert_eq!(DeviceType::Forbidden.to_u8(), 0xff);
    assert_eq!(DeviceType::Led.to_u8(), 7);
    assert_eq!(DeviceType::from_u8(8), DeviceType::Unknown);
    assert_eq!(DeviceType::from_u8(200), DeviceType::Unknown);
}

#[test]
fn attribute_codes_roundtrip() {
    for x in 0u8..=255 {
        let a = Attribute::from_u8(x);
        if x <= 13 || x == 0xff {
            assert_eq!(a.to_u8(), x);
        } else {
            assert_eq!(a, Attribute::Unknown);
        }
    }
    assert_eq!(Attribute::Latitude.to_u8(), 13);
    assert_eq!(Attribute::Forbidden.to_u8(), 0xff);
}

#[test]
fn packet_layout() {
    let s = sample_state();
    let mut buf = ByteBuf::<12>::new();
    assert_eq!(s.to_bytes(&mut buf), Ok(()));
    let p = buf.as_slice();
    assert_eq!(p.len(), STATE_PACKET_LEN);
    assert_eq!(&p[..11], &[3, 2, 9, 0x41, 0x29, 0x99, 0x9a, 0x65, 0x53, 0xf1, 0x7b]);
    assert_eq!(p[11], crc8(&p[..11]));
}

#[test]
fn packet_roundtrip_keeps_whole_seconds() {
    let s = sample_state();
    let mut buf = ByteBuf::<16>::new();
    s.to_bytes(&mut buf).unwrap();
    let back = State::from_bytes(buf.as_slice()).unwrap();
    assert_eq!(back.entity, s.entity);
    assert_eq!(back.value_bits, s.value_bits);
    assert_eq!(back.timestamp.as_micros(), 1_700_000_123_000_000);
    assert_eq!(back.timestamp.as_sec(), s.timestamp.as_sec());
}

#[test]
fn corrupted_packet_is_refused() {
    let s = sample_state();
    let mut buf = ByteBuf::<12>::new();
    s.to_bytes(&mut buf).unwrap();
    let mut bytes = [0u8; 12];
    bytes.copy_from_slice(buf.as_slice());
    bytes[4] ^= 0x10;
    assert_eq!(State::from_bytes(&bytes), Err(()));
}

#[test]
fn unknown_codes_read_as_unknown() {
    let mut bytes = [0x42u8, 1, 99, 0, 0, 0, 0, 0, 0, 0, 5, 0];
    bytes[11] = crc8(&bytes[..11]);
    let s = State::from_bytes(&bytes).unwrap();
    assert_eq!(s.entity.device.device_type, DeviceType::Unknown);
    assert_eq!(s.entity.attr, Attribute::Unknown);
    assert_eq!(s.timestamp.as_micros(), 5_000_000);
}

#[test]
fn full_buffer_reports_the_checksum() {
    let s = sample_state();
    let mut room = ByteBuf::<12>::new();
    s.to_bytes(&mut room).unwrap();
    let crc = room.as_slice()[11];
    // room for the fields but not for the checksum: nothing is appended
    let mut buf = ByteBuf::<11>::new();
    assert_eq!(s.to_bytes(&mut buf), Err(crc));
    assert_eq!(buf.len(), 0);
    // an already full buffer is left as it was
    let mut full = ByteBuf::<1>::new();
    full.push(7).unwrap();
    assert_eq!(s.to_bytes(&mut full), Err(crc));
    assert_eq!(full.as_slice(), &[7]);
}

#[test]
fn partial_room_appends_nothing() {
    let s = sample_state();
    for free in 0..12 {
        let mut buf = ByteBuf::<16>::new();
        for _ in 0..(16 - free) {
            buf.push(0xaa).unwrap();
        }
        assert!(s.to_bytes(&mut buf).is_err());
        assert_eq!(buf.len(), 16 - free);
    }
    let mut buf = ByteBuf::<16>::new();
    for _ in 0..4 {
        buf.push(0xaa).unwrap();
    }
    assert_eq!(s.to_bytes(&mut buf), Ok(()));
    assert_eq!(buf.len(), 16);
    assert_eq!(State::from_bytes(&buf.as_slice()[4..]).unwrap().entity, s.entity);
}

#[test]
fn device_new_keeps_fields() {
    let d = Device::new(DeviceType::Gps, 254);
    assert_eq!(d.device_type, DeviceType::Gps);
    assert_eq!(d.instance, 254);
    let e = Entity::new(DeviceType::Gps, 1, Attribute::Longitude);
    assert_eq!(e.device, Device::new(DeviceType::Gps, 1));
    assert_eq!(e.attr, Attribute::Longitude);
}

#[test]
fn new_state_is_in_whole_seconds() {
    let s = State::new(Device::new(DeviceType::Climate, 3), Attribute::Rssi, (-60.0f32).to_bits());
    assert_eq!(s.timestamp.as_micros() % 1_000_000, 0);
    assert_eq!(f32::from_bits(s.value_bits), -60.0);
}

#[test]
fn every_single_bit_error_is_refused() {
    let s = sample_state();
    let mut buf = ByteBuf::<12>::new();
    s.to_bytes(&mut buf).unwrap();
    for i in 0..12 {
        for k in 0..8 {
            let mut bytes = [0u8; 12];
            bytes.copy_from_slice(buf.as_slice());
            bytes[i] ^= 1u8 << k;
            assert_eq!(State::from_bytes(&bytes), Err(()));
        }
    }
}

#[test]
fn state_values_compare_as_floats() {
    let mut a = sample_state();
    let mut b = sample_state();
    a.value_bits = f32::NAN.to_bits();
    b.value_bits = f32::NAN.to_bits();
    assert!(a != b);
    a.value_bits = 0.0f32.to_bits();
    b.value_bits = (-0.0f32).to_bits();
    assert!(a == b);
    b.value_bits = 1.0f32.to_bits();
    assert!(a != b);
}
