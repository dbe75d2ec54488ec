//! State records: which device attribute was measured, when, and what
//! value; and their 12-byte packet format with a trailing CRC-8.
//!
//! A measured value is an IEEE-754 single; here it is carried as its 32 bit
//! pattern (`f32::to_bits`), which is exactly what the packet stores.

use vstd::prelude::*;
use crate::be_bytes::{
    spec_u32_be_bytes, spec_u32_from_be, u32_to_be_bytes, u32_from_be_bytes,
    lemma_u32_be_roundtrip,
};
use crate::byte_buf::ByteBuf;
use crate::crc::{spec_crc8, crc8, lemma_crc8_detects_single_bit_error};
use crate::timestamp::{Timestamp, spec_secs};

verus! {

/// Length of a state packet in bytes.
pub const STATE_PACKET_LEN: usize = 12;

/// Identifies a (physical) device, e.g. a `Gps`.
/// Devices have attributes, e.g. `Longitude` and `Latitude` for a GPS,
/// or Temperature and Humidity for a Climate sensor.
/// `Forbidden` (code 0xff) marks unprogrammed NOR flash and is never an
/// actual device.
#[derive(Copy, Clone, Debug, PartialEq, Eq, PartialOrd, Ord, Hash, Structural)]
pub enum DeviceType {
    Unknown,
    Light,
    Switch,
    Tank,
    Climate,
    Gps,
    Button,
    Led,
    Forbidden,
}

/// The one-byte code of a device type.
pub open spec fn device_type_code(d: DeviceType) -> u8 {
    match d {
        DeviceType::Unknown => 0,
        DeviceType::Light => 1,
        DeviceType::Switch => 2,
        DeviceType::Tank => 3,
        DeviceType::Climate => 4,
        DeviceType::Gps => 5,
        DeviceType::Button => 6,
        DeviceType::Led => 7,
        DeviceType::Forbidden => 0xff,
    }
}

/// The device type with code `x`; codes of no device type give `Unknown`.
pub open spec fn device_type_of_code(x: u8) -> DeviceType {
    if x == 1 {
        DeviceType::Light
    } else if x == 2 {
        DeviceType::Switch
    } else if x == 3 {
        DeviceType::Tank
    } else if x == 4 {
        DeviceType::Climate
    } else if x == 5 {
        DeviceType::Gps
    } else if x == 6 {
        DeviceType::Button
    } else if x == 7 {
        DeviceType::Led
    } else if x == 0xff {
        DeviceType::Forbidden
    } else {
        DeviceType::Unknown
    }
}

impl DeviceType {
    /// The device type with code `x`, or `Unknown` for a code of none.
    pub fn from_u8(x: u8) -> (d: DeviceType)
        ensures
            d == device_type_of_code(x),
    {
        match x {
            1 => DeviceType::Light,
            2 => DeviceType::Switch,
            3 => DeviceType::Tank,
            4 => DeviceType::Climate,
            5 => DeviceType::Gps,
            6 => DeviceType::Button,
            7 => DeviceType::Led,
            0xff => DeviceType::Forbidden,
            _ => DeviceType::Unknown,
        }
    }

    /// The one-byte code of this device type.
    pub fn to_u8(self) -> (x: u8)
        ensures
            x == device_type_code(self),
    {
        match self {
            DeviceType::Unknown => 0,
            DeviceType::Light => 1,
            DeviceType::Switch => 2,
            DeviceType::Tank => 3,
            DeviceType::Climate => 4,
            DeviceType::Gps => 5,
            DeviceType::Button => 6,
            DeviceType::Led => 7,
            DeviceType::Forbidden => 0xff,
        }
    }
}

/// Attributes of devices. Each device has at most one instance of a
/// particular attribute. `Forbidden` (code 0xff) marks unprogrammed flash.
#[derive(Copy, Clone, Debug, PartialEq, Eq, PartialOrd, Ord, Hash, Structural)]
pub enum Attribute {
    Unknown,
    /// [V]
    Voltage,
    /// [A]
    Current,
    /// [W]
    Power,
    /// [Wh]
    Energy,
    /// [C]
    Temperature,
    /// [%]
    Humidity,
    /// [dBm]
    Rssi,
    /// [%]
    BatteryLevel,
    /// [%]
    TankLevel,
    /// [%]
    Brightness,
    /// [On/Off]
    Binary,
    /// [deg]
    Longitude,
    /// [deg]
    Latitude,
    Forbidden,
}

/// The one-byte code of an attribute.
pub open spec fn attribute_code(a: Attribute) -> u8 {
    match a {
        Attribute::Unknown => 0,
        Attribute::Voltage => 1,
        Attribute::Current => 2,
        Attribute::Power => 3,
        Attribute::Energy => 4,
        Attribute::Temperature => 5,
        Attribute::Humidity => 6,
        Attribute::Rssi => 7,
        Attribute::BatteryLevel => 8,
        Attribute::TankLevel => 9,
        Attribute::Brightness => 10,
        Attribute::Binary => 11,
        Attribute::Longitude => 12,
        Attribute::Latitude => 13,
        Attribute::Forbidden => 0xff,
    }
}

/// The attribute with code `x`; codes of no attribute give `Unknown`.
pub open spec fn attribute_of_code(x: u8) -> Attribute {
    if x == 1 {
        Attribute::Voltage
    } else if x == 2 {
        Attribute::Current
    } else if x == 3 {
        Attribute::Power
    } else if x == 4 {
        Attribute::Energy
    } else if x == 5 {
        Attribute::Temperature
    } else if x == 6 {
        Attribute::Humidity
    } else if x == 7 {
        Attribute::Rssi
    } else if x == 8 {
        Attribute::BatteryLevel
    } else if x == 9 {
        Attribute::TankLevel
    } else if x == 10 {
        Attribute::Brightness
    } else if x == 11 {
        Attribute::Binary
    } else if x == 12 {
        Attribute::Longitude
    } else if x == 13 {
        Attribute::Latitude
    } else if x == 0xff {
        Attribute::Forbidden
    } else {
        Attribute::Unknown
    }
}

impl Attribute {
    /// The attribute with code `x`, or `Unknown` for a code of none.
    pub fn from_u8(x: u8) -> (a: Attribute)
        ensures
            a == attribute_of_code(x),
    {
        match x {
            1 => Attribute::Voltage,
            2 => Attribute::Current,
            3 => Attribute::Power,
            4 => Attribute::Energy,
            5 => Attribute::Temperature,
            6 => Attribute::Humidity,
            7 => Attribute::Rssi,
            8 => Attribute::BatteryLevel,
            9 => Attribute::TankLevel,
            10 => Attribute::Brightness,
            11 => Attribute::Binary,
            12 => Attribute::Longitude,
            13 => Attribute::Latitude,
            0xff => Attribute::Forbidden,
            _ => Attribute::Unknown,
        }
    }

    /// The one-byte code of this attribute.
    pub fn to_u8(self) -> (x: u8)
        ensures
            x == attribute_code(self),
    {
        match self {
            Attribute::Unknown => 0,
            Attribute::Voltage => 1,
            Attribute::Current => 2,
            Attribute::Power => 3,
            Attribute::Energy => 4,
            Attribute::Temperature => 5,
            Attribute::Humidity => 6,
            Attribute::Rssi => 7,
            Attribute::BatteryLevel => 8,
            Attribute::TankLevel => 9,
            Attribute::Brightness => 10,
            Attribute::Binary => 11,
            Attribute::Longitude => 12,
            Attribute::Latitude => 13,
            Attribute::Forbidden => 0xff,
        }
    }
}

/// Every device type survives the trip through its code.
pub proof fn lemma_device_type_code_roundtrip(d: DeviceType)
    ensures
        device_type_of_code(device_type_code(d)) == d,
{
}

/// Every attribute survives the trip through its code.
pub proof fn lemma_attribute_code_roundtrip(a: Attribute)
    ensures
        attribute_of_code(attribute_code(a)) == a,
{
}

/// The device type codes are the declaration order of the device types,
/// with `Forbidden` at 0xff (the value of erased NOR flash): Unknown 0,
/// Light 1, Switch 2, Tank 3, Climate 4, Gps 5, Button 6, Led 7; every
/// other code reads as `Unknown`.
pub proof fn lemma_device_type_code_table()
    ensures
        device_type_code(DeviceType::Unknown) == 0,
        device_type_code(DeviceType::Light) == 1,
        device_type_code(DeviceType::Switch) == 2,
        device_type_code(DeviceType::Tank) == 3,
        device_type_code(DeviceType::Climate) == 4,
        device_type_code(DeviceType::Gps) == 5,
        device_type_code(DeviceType::Button) == 6,
        device_type_code(DeviceType::Led) == 7,
        device_type_code(DeviceType::Forbidden) == 255,
        device_type_of_code(0) == DeviceType::Unknown,
        device_type_of_code(1) == DeviceType::Light,
        device_type_of_code(2) == DeviceType::Switch,
        device_type_of_code(3) == DeviceType::Tank,
        device_type_of_code(4) == DeviceType::Climate,
        device_type_of_code(5) == DeviceType::Gps,
        device_type_of_code(6) == DeviceType::Button,
        device_type_of_code(7) == DeviceType::Led,
        device_type_of_code(255) == DeviceType::Forbidden,
        forall|x: u8| 8 <= x < 255 ==> #[trigger] device_type_of_code(x) == DeviceType::Unknown,
{
}

/// The attribute codes are the declaration order of the attributes, with
/// `Forbidden` at 0xff: Unknown 0, Voltage 1, Current 2, Power 3, Energy 4,
/// Temperature 5, Humidity 6, Rssi 7, BatteryLevel 8, TankLevel 9,
/// Brightness 10, Binary 11, Longitude 12, Latitude 13; every other code
/// reads as `Unknown`.
pub proof fn lemma_attribute_code_table()
    ensures
        attribute_code(Attribute::Unknown) == 0,
        attribute_code(Attribute::Voltage) == 1,
        attribute_code(Attribute::Current) == 2,
        attribute_code(Attribute::Power) == 3,
        attribute_code(Attribute::Energy) == 4,
        attribute_code(Attribute::Temperature) == 5,
        attribute_code(Attribute::Humidity) == 6,
        attribute_code(Attribute::Rssi) == 7,
        attribute_code(Attribute::BatteryLevel) == 8,
        attribute_code(Attribute::TankLevel) == 9,
        attribute_code(Attribute::Brightness) == 10,
        attribute_code(Attribute::Binary) == 11,
        attribute_code(Attribute::Longitude) == 12,
        attribute_code(Attribute::Latitude) == 13,
        attribute_code(Attribute::Forbidden) == 255,
        attribute_of_code(0) == Attribute::Unknown,
        attribute_of_code(1) == Attribute::Voltage,
        attribute_of_code(2) == Attribute::Current,
        attribute_of_code(3) == Attribute::Power,
        attribute_of_code(4) == Attribute::Energy,
        attribute_of_code(5) == Attribute::Temperature,
        attribute_of_code(6) == Attribute::Humidity,
        attribute_of_code(7) == Attribute::Rssi,
        attribute_of_code(8) == Attribute::BatteryLevel,
        attribute_of_code(9) == Attribute::TankLevel,
        attribute_of_code(10) == Attribute::Brightness,
        attribute_of_code(11) == Attribute::Binary,
        attribute_of_code(12) == Attribute::Longitude,
        attribute_of_code(13) == Attribute::Latitude,
        attribute_of_code(255) == Attribute::Forbidden,
        forall|x: u8| 14 <= x < 255 ==> #[trigger] attribute_of_code(x) == Attribute::Unknown,
{
}

/// A device: its type and which instance of that type (e.g. `Tank 2`).
#[derive(Copy, Clone, Debug, PartialEq, Eq, PartialOrd, Ord, Hash, Structural)]
pub struct Device {
    pub device_type: DeviceType,
    pub instance: u8,
}

impl Device {
    /// Instance `instance` of a device of type `device_type`; instance 255
    /// is not allowed.
    pub fn new(device_type: DeviceType, instance: u8) -> (d: Device)
        requires
            instance < 255,
        ensures
            d == (Device { device_type, instance }),
    {
        Device { device_type: device_type, instance: instance }
    }
}

/// Identifies a state, e.g. the temperature of a climate sensor.
#[derive(Copy, Clone, Debug, PartialEq, Eq, PartialOrd, Ord, Hash, Structural)]
pub struct Entity {
    pub device: Device,
    pub attr: Attribute,
}

impl Entity {
    /// The attribute `attr` of instance `instance` of a `device_type` device.
    pub fn new(device_type: DeviceType, instance: u8, attr: Attribute) -> (e: Entity)
        ensures
            e == (Entity { device: Device { device_type, instance }, attr }),
    {
        Entity { device: Device { device_type: device_type, instance: instance }, attr: attr }
    }
}

/// A measured value of an entity at a point in time. Two states are equal
/// when their timestamps and entities are, and their values are equal as
/// `f32`s (see `state_eq`).
#[derive(Copy, Clone, Debug)]
pub struct State {
    pub timestamp: Timestamp,
    pub entity: Entity,
    /// The bit pattern of the `f32` value.
    pub value_bits: u32,
}

/// A timestamp that a packet can carry exactly: a whole number of seconds,
/// no more than 2^32 - 1 of them.
pub open spec fn whole_seconds(micros: u64) -> bool {
    micros % 1000000 == 0 && micros / 1000000 <= u32::MAX
}

/// The first eleven bytes of the packet of `s`: device type code, device
/// instance, attribute code, value (big-endian), whole seconds (big-endian).
pub open spec fn packet_body(s: State) -> Seq<u8> {
    seq![
        device_type_code(s.entity.device.device_type),
        s.entity.device.instance,
        attribute_code(s.entity.attr),
    ] + spec_u32_be_bytes(s.value_bits) + spec_u32_be_bytes(spec_secs(s.timestamp@))
}

/// The 12-byte packet of `s`: its body followed by the CRC-8 of the body.
pub open spec fn packet(s: State) -> Seq<u8> {
    packet_body(s).push(spec_crc8(packet_body(s)))
}

/// The state that a packet `p` (at least 12 bytes) holds when its CRC
/// checks out.
pub open spec fn decoded_state(p: Seq<u8>) -> State {
    State {
        timestamp: Timestamp::spec_from_micros((1000000 * spec_u32_from_be(p.subrange(7, 11))) as u64),
        entity: Entity {
            device: Device { device_type: device_type_of_code(p[0]), instance: p[1] },
            attr: attribute_of_code(p[2]),
        },
        value_bits: spec_u32_from_be(p.subrange(3, 7)),
    }
}

impl State {
    /// A state of attribute `attr` of `device` with value `value_bits`
    /// (the bit pattern of an `f32`), stamped with the current time in
    /// whole seconds, the resolution at which packets keep it.
    pub fn new(device: Device, attr: Attribute, value_bits: u32) -> (s: State)
        ensures
            s.entity == (Entity { device, attr }),
            s.value_bits == value_bits,
            whole_seconds(s.timestamp@),
    {
        let now = Timestamp::now();
        let secs = now.as_sec() as u64;
        assert(1000000 * secs <= u64::MAX) by (nonlinear_arith)
            requires secs <= u32::MAX;
        let ts = Timestamp::from_micros(1000000 * secs);
        assert(whole_seconds(ts@)) by (nonlinear_arith)
            requires ts@ == 1000000 * secs, secs <= u32::MAX;
        State { timestamp: ts, entity: Entity { device: device, attr: attr }, value_bits: value_bits }
    }
}


impl State {
    /// Appends the 12-byte packet of `self` to `buf`: device type code,
    /// device instance, attribute code, value (big-endian), whole seconds of
    /// the timestamp (big-endian), and the CRC-8 of these eleven bytes.
    /// When the packet does not fit, nothing is appended and the checksum
    /// is handed back in `Err`.
    pub fn to_bytes<const N: usize>(&self, buf: &mut ByteBuf<N>) -> (r: Result<(), u8>)
        ensures
            old(buf)@.len() + STATE_PACKET_LEN <= N ==> r is Ok && final(buf)@ == old(buf)@ + packet(*self),
            old(buf)@.len() + STATE_PACKET_LEN > N ==> r is Err && final(buf)@ == old(buf)@,
            r is Err ==> r->Err_0 == spec_crc8(packet_body(*self)),
    {
        let value = u32_to_be_bytes(self.value_bits);
        let secs = self.timestamp.to_bytes();
        let body: [u8; 11] = [
            self.entity.device.device_type.to_u8(),
            self.entity.device.instance,
            self.entity.attr.to_u8(),
            value[0],
            value[1],
            value[2],
            value[3],
            secs[0],
            secs[1],
            secs[2],
            secs[3],
        ];
        assert(body@ =~= packet_body(*self));
        let crc = crc8(&body);
        let len = buf.len();
        if buf.capacity() - len < STATE_PACKET_LEN {
            return Err(crc);
        }
        let _ = buf.extend_from_slice(&body);
        let r = buf.push(crc);
        assert(buf@ =~= old(buf)@ + packet(*self));
        r
    }

    /// Reads a state back from the first 12 bytes of `src`. Fails when the
    /// CRC-8 of bytes 0..11 differs from byte 11. Device type and attribute
    /// codes of no variant read as `Unknown`; the timestamp comes back in
    /// whole seconds.
    pub fn from_bytes(src: &[u8]) -> (r: Result<State, ()>)
        requires
            src@.len() >= STATE_PACKET_LEN,
        ensures
            r is Ok <==> spec_crc8(src@.subrange(0, 11)) == src@[11],
            r is Ok ==> r->Ok_0 == decoded_state(src@),
    {
        let crc = crc8(&src[0..11]);
        if crc != src[11] {
            return Err(());
        }
        let ts_bytes: [u8; 4] = [src[7], src[8], src[9], src[10]];
        let value_bytes: [u8; 4] = [src[3], src[4], src[5], src[6]];
        assert(ts_bytes@ =~= src@.subrange(7, 11));
        assert(value_bytes@ =~= src@.subrange(3, 7));
        let timestamp = Timestamp::from_bytes(&ts_bytes);
        proof {
            broadcast use crate::timestamp::lemma_timestamp_view_injective, crate::timestamp::lemma_from_micros_view;
            let e = spec_u32_from_be(src@.subrange(7, 11));
            assert(1000000 * e <= u64::MAX) by (nonlinear_arith)
                requires e <= u32::MAX;
            assert(timestamp@ == decoded_state(src@).timestamp@);
            assert(timestamp == decoded_state(src@).timestamp);
        }
        Ok(State {
            timestamp: timestamp,
            entity: Entity {
                device: Device { device_type: DeviceType::from_u8(src[0]), instance: src[1] },
                attr: Attribute::from_u8(src[2]),
            },
            value_bits: u32_from_be_bytes(&value_bytes),
        })
    }
}

/// `s` with its timestamp cut down to whole seconds (the 32 bit count of
/// them), which is what a packet keeps of it.
pub open spec fn at_packet_resolution(s: State) -> State {
    State {
        timestamp: Timestamp::spec_from_micros((1000000 * spec_secs(s.timestamp@)) as u64),
        ..s
    }
}

/// The packet of a state is 12 bytes long and passes its own CRC check.
pub proof fn lemma_packet_crc_checks(s: State)
    ensures
        packet(s).len() == STATE_PACKET_LEN,
        spec_crc8(packet(s).subrange(0, 11)) == packet(s)[11],
{
    assert(packet(s).subrange(0, 11) =~= packet_body(s));
}

/// Reading back the packet of any state gives the state, with its
/// timestamp at whole-second resolution.
pub proof fn lemma_packet_roundtrip(s: State)
    ensures
        decoded_state(packet(s)) == at_packet_resolution(s),
{
    let p = packet(s);
    lemma_u32_be_roundtrip(s.value_bits);
    lemma_u32_be_roundtrip(spec_secs(s.timestamp@));
    assert(p.subrange(3, 7) =~= spec_u32_be_bytes(s.value_bits));
    assert(p.subrange(7, 11) =~= spec_u32_be_bytes(spec_secs(s.timestamp@)));
    lemma_device_type_code_roundtrip(s.entity.device.device_type);
    lemma_attribute_code_roundtrip(s.entity.attr);
}

/// A state whose timestamp is in whole seconds (as `State::new` makes
/// them) comes back unchanged from its packet.
pub proof fn lemma_packet_roundtrip_exact(s: State)
    requires
        whole_seconds(s.timestamp@),
    ensures
        decoded_state(packet(s)) == s,
{
    broadcast use crate::timestamp::lemma_timestamp_view_injective, crate::timestamp::lemma_from_micros_view;
    lemma_packet_roundtrip(s);
    let m = s.timestamp@;
    assert(1000000 * ((m / 1000000) as u32) == m) by (nonlinear_arith)
        requires m % 1000000 == 0, m / 1000000 <= u32::MAX;
    assert(at_packet_resolution(s).timestamp@ == s.timestamp@);
}

/// Any bytes that begin with the packet of `s` read back (CRC accepted) as
/// `s` at whole-second resolution; what follows the packet is ignored.
pub proof fn lemma_packet_prefix_reads_back(bytes: Seq<u8>, s: State)
    requires
        bytes.len() >= STATE_PACKET_LEN,
        bytes.subrange(0, 12) == packet(s),
    ensures
        spec_crc8(bytes.subrange(0, 11)) == bytes[11],
        decoded_state(bytes) == at_packet_resolution(s),
{
    let p = packet(s);
    lemma_packet_crc_checks(s);
    lemma_packet_roundtrip(s);
    assert(bytes.subrange(0, 11) =~= p.subrange(0, 11));
    assert(bytes[11] == p[11]);
    assert(bytes.subrange(3, 7) =~= p.subrange(3, 7));
    assert(bytes.subrange(7, 11) =~= p.subrange(7, 11));
    assert(bytes[0] == p[0] && bytes[1] == p[1] && bytes[2] == p[2]);
}

/// A packet that passes its CRC check fails it once any single one of its
/// 96 bits is flipped, so `from_bytes` refuses it.
pub proof fn lemma_single_bit_error_is_refused(bytes: Seq<u8>, i: int, k: u8)
    requires
        bytes.len() >= STATE_PACKET_LEN,
        spec_crc8(bytes.subrange(0, 11)) == bytes[11],
        0 <= i < 12,
        k < 8,
    ensures
        ({
            let flipped = bytes.update(i, bytes[i] ^ (1u8 << k));
            spec_crc8(flipped.subrange(0, 11)) != flipped[11]
        }),
{
    let bit: u8 = 1u8 << k;
    let v = bytes[i];
    assert(v ^ bit != v) by (bit_vector)
        requires bit == 1u8 << k, k < 8;
    let flipped = bytes.update(i, v ^ bit);
    if i == 11 {
        assert(flipped.subrange(0, 11) =~= bytes.subrange(0, 11));
    } else {
        let body = bytes.subrange(0, 11);
        assert(flipped.subrange(0, 11) =~= body.update(i, body[i] ^ bit));
        lemma_crc8_detects_single_bit_error(body, i, k);
    }
}

/// The first three bytes of every packet are the device type code, the
/// instance and the attribute code from the fixed code tables: e.g. the
/// temperature of climate sensor 0 starts its packet with 4, 0, 5.
pub proof fn lemma_packet_header(s: State)
    ensures
        packet(s).len() == 12,
        packet(s)[0] == device_type_code(s.entity.device.device_type),
        packet(s)[1] == s.entity.device.instance,
        packet(s)[2] == attribute_code(s.entity.attr),
        s.entity.device.device_type == DeviceType::Climate ==> packet(s)[0] == 4,
        s.entity.attr == Attribute::Temperature ==> packet(s)[2] == 5,
        s.entity.attr == Attribute::Humidity ==> packet(s)[2] == 6,
{
    lemma_device_type_code_table();
    lemma_attribute_code_table();
}

} // verus!
