//! Readings of Govee climate sensors from their BLE advertisements.
//!
//! A Govee H5074 advertises 9 bytes of manufacturer specific data starting
//! with 0x88 0xec; bytes 3..5 are the temperature in hundredths of a degree
//! Celsius (signed, little-endian), bytes 5..7 the relative humidity in
//! hundredths of a percent (little-endian), byte 7 the battery level in
//! percent.

use vstd::prelude::*;
use crate::nus_scanner::ScanResult;
use crate::logger_types::{Attribute, Device, DeviceInstance, Entity};
use crate::advertising::{AD_TYPE_MANUFACTURER_SPECIFIC_DATA, AD_TYPE_16BIT_SERVICE_UUID_COMPLETE, AD_TYPE_16BIT_SERVICE_UUID_MORE_AVAILABLE};

verus! {

/// The raw readings of a Govee H5074.
#[derive(Copy, Clone, Debug, PartialEq, Eq, Structural)]
pub struct GoveeReading {
    /// Temperature in hundredths of a degree Celsius.
    pub temperature_centi: i16,
    /// Relative humidity in hundredths of a percent.
    pub humidity_centi: u16,
    /// Battery level in percent.
    pub battery: u8,
}

/// What a Govee advertisement is.
#[derive(Copy, Clone, Debug, PartialEq, Eq, Structural)]
pub enum GoveeAdvertisement {
    /// An H5074 with its readings.
    H5074(GoveeReading),
    /// Some other Govee device (its 16-bit UUID list starts with 0x88).
    OtherGovee,
    /// Not recognised as a Govee device.
    NotGovee,
}

/// The unsigned little-endian 16-bit number of bytes `lo`, `hi`.
pub open spec fn spec_u16_le(lo: u8, hi: u8) -> u16 {
    ((lo as u16) | ((hi as u16) << 8u16)) as u16
}

/// The two's complement little-endian 16-bit number of bytes `lo`, `hi`.
pub open spec fn spec_i16_le(lo: u8, hi: u8) -> i16 {
    spec_u16_le(lo, hi) as i16
}

/// Manufacturer data that identifies a Govee H5074.
pub open spec fn is_h5074_data(d: Seq<u8>) -> bool {
    d.len() == 9 && d[0] == 0x88 && d[1] == 0xec
}

/// The readings in H5074 manufacturer data.
pub open spec fn h5074_fields(d: Seq<u8>) -> GoveeReading {
    GoveeReading {
        temperature_centi: spec_i16_le(d[3], d[4]),
        humidity_centi: spec_u16_le(d[5], d[6]),
        battery: d[7],
    }
}

/// The readings in `manufacturer_data` if it comes from a Govee H5074.
pub fn h5074_reading(manufacturer_data: &[u8]) -> (r: Option<GoveeReading>)
    ensures
        r is Some <==> is_h5074_data(manufacturer_data@),
        r is Some ==> r->Some_0 == h5074_fields(manufacturer_data@),
{
    let d = manufacturer_data;
    if d.len() == 9 && d[0] == 0x88 && d[1] == 0xec {
        let humidity: u16 = (d[5] as u16) | ((d[6] as u16) << 8);
        let raw_temperature: u16 = (d[3] as u16) | ((d[4] as u16) << 8);
        Some(GoveeReading {
            temperature_centi: raw_temperature as i16,
            humidity_centi: humidity,
            battery: d[7],
        })
    } else {
        None
    }
}

/// What the advertisement with the given manufacturer data and 16-bit
/// service UUID list shows: an H5074 with its readings, another Govee
/// device, or neither.
pub fn classify_govee(manufacturer_data: &[u8], uuid_16: &[u8]) -> (g: GoveeAdvertisement)
    ensures
        is_h5074_data(manufacturer_data@) ==> g == GoveeAdvertisement::H5074(h5074_fields(manufacturer_data@)),
        !is_h5074_data(manufacturer_data@) && uuid_16@.len() > 1 && uuid_16@[0] == 0x88
            ==> g == GoveeAdvertisement::OtherGovee,
        !is_h5074_data(manufacturer_data@) && !(uuid_16@.len() > 1 && uuid_16@[0] == 0x88)
            ==> g == GoveeAdvertisement::NotGovee,
{
    match h5074_reading(manufacturer_data) {
        Some(reading) => GoveeAdvertisement::H5074(reading),
        None => {
            if uuid_16.len() > 1 && uuid_16[0] == 0x88 {
                GoveeAdvertisement::OtherGovee
            } else {
                GoveeAdvertisement::NotGovee
            }
        },
    }
}

/// The manufacturer data of a field map, empty when absent.
pub open spec fn manufacturer_data_of(fields: Map<u32, Seq<u8>>) -> Seq<u8> {
    if fields.contains_key(AD_TYPE_MANUFACTURER_SPECIFIC_DATA) {
        fields[AD_TYPE_MANUFACTURER_SPECIFIC_DATA]
    } else {
        Seq::empty()
    }
}

/// The 16-bit service UUID list of a field map (complete, else
/// incomplete), empty when absent.
pub open spec fn uuid_16_of(fields: Map<u32, Seq<u8>>) -> Seq<u8> {
    if fields.contains_key(AD_TYPE_16BIT_SERVICE_UUID_COMPLETE) {
        fields[AD_TYPE_16BIT_SERVICE_UUID_COMPLETE]
    } else if fields.contains_key(AD_TYPE_16BIT_SERVICE_UUID_MORE_AVAILABLE) {
        fields[AD_TYPE_16BIT_SERVICE_UUID_MORE_AVAILABLE]
    } else {
        Seq::empty()
    }
}

/// What a scanned advertisement shows of Govee devices: an H5074 with its
/// readings (from the manufacturer data), another Govee device (16-bit
/// UUID list starting with 0x88), or neither.
pub fn parse_adv(adv: &ScanResult) -> (g: GoveeAdvertisement)
    ensures
        is_h5074_data(manufacturer_data_of(adv.data@))
            ==> g == GoveeAdvertisement::H5074(h5074_fields(manufacturer_data_of(adv.data@))),
        !is_h5074_data(manufacturer_data_of(adv.data@)) && uuid_16_of(adv.data@).len() > 1
            && uuid_16_of(adv.data@)[0] == 0x88 ==> g == GoveeAdvertisement::OtherGovee,
        !is_h5074_data(manufacturer_data_of(adv.data@)) && !(uuid_16_of(adv.data@).len() > 1
            && uuid_16_of(adv.data@)[0] == 0x88) ==> g == GoveeAdvertisement::NotGovee,
{
    let data = adv.manufacturer_data();
    let uuid = adv.uuid_16();
    classify_govee(data, uuid)
}

/// The entity of the event logger that an H5074 temperature goes to:
/// the temperature of climate sensor 4.
pub open spec fn logger_h5074_entity() -> Entity {
    Entity { device_instance: DeviceInstance { device: Device::Climate, instance: 4 }, attr: Attribute::Temperature }
}

/// What the event logger records of one AD field with type `key`: for
/// manufacturer data (0xff) of a Govee H5074, the temperature (in
/// hundredths of a degree) of climate sensor 4; nothing otherwise.
pub fn logger_temperature_update(key: u8, data: &[u8]) -> (r: Option<(Entity, i16)>)
    ensures
        r is Some <==> key == 0xff && is_h5074_data(data@),
        r is Some ==> r->Some_0.0 == logger_h5074_entity()
            && r->Some_0.1 == h5074_fields(data@).temperature_centi,
{
    if key != 0xff {
        return None;
    }
    match h5074_reading(data) {
        Some(reading) => {
            let entity = Entity {
                device_instance: DeviceInstance::new(Device::Climate, 4),
                attr: Attribute::Temperature,
            };
            Some((entity, reading.temperature_centi))
        },
        None => None,
    }
}

/// The readings of H5074 manufacturer data `d`, as numbers: the
/// temperature is the two's complement 16-bit little-endian number of
/// `d[3]`, `d[4]` (negative exactly when the top bit of `d[4]` is set), the
/// humidity the unsigned little-endian number of `d[5]`, `d[6]`, the battery
/// `d[7]`; e.g. bytes 0xd4, 0xfe give -300.
pub proof fn lemma_h5074_fields_values(d: Seq<u8>)
    requires
        is_h5074_data(d),
    ensures
        h5074_fields(d).temperature_centi as int == (if d[4] >= 0x80 {
            d[3] + 256 * d[4] - 65536
        } else {
            d[3] + 256 * d[4]
        }),
        h5074_fields(d).humidity_centi as int == d[5] + 256 * d[6],
        h5074_fields(d).battery == d[7],
{
    let lo = d[3];
    let hi = d[4];
    let t = h5074_fields(d).temperature_centi;
    assert(t == (((lo as u16) | ((hi as u16) << 8u16)) as u16) as i16);
    assert(hi >= 0x80 ==> ((((lo as u16) | ((hi as u16) << 8u16)) as u16) as i16) as int
        == lo as int + 256 * (hi as int) - 65536) by (bit_vector);
    assert(hi < 0x80 ==> ((((lo as u16) | ((hi as u16) << 8u16)) as u16) as i16) as int
        == lo as int + 256 * (hi as int)) by (bit_vector);
    let l5 = d[5];
    let h6 = d[6];
    assert((((l5 as u16) | ((h6 as u16) << 8u16)) as u16) as int == l5 as int + 256 * (h6 as int))
        by (bit_vector);
}

} // verus!
