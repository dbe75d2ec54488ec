use logger_lib::govee::logger_temperature_update;
use logger_lib::logger_types::{Attribute as LAttribute, Device as LDevice};
use logger_lib::advertising::{ad_structure_list, advertising_payload, ScanData, ScanResult};
use logger_lib::govee::{classify_govee, h5074_reading, parse_adv, GoveeAdvertisement, GoveeReading};
use logger_lib::nus_scanner;

const MAC: [u8; 6] = [0xfe, 0xa6, 0x18, 0x38, 0xc1, 0xa4];

// flags, complete name "Govee_H5074", manufacturer data of an H5074
fn h5074_adv() -> Vec<u8> {
    let mut v = vec![2, 0x01, 0x06];
    v.push(12);
    v.push(0x09);
    v.extend_from_slice(b"Govee_H5074");
    v.extend_from_slice(&[10, 0xff, 0x88, 0xec, 0x00, 0x6e, 0x08, 0x5e, 0x0f, 0x64, 0x02]);
    v
}

#[test]
fn scan_result_fields() {
    let adv = h5074_adv();
    let sr = ScanResult::from_advertisement(MAC, -48, &adv);
    assert_eq!(sr.mac_address, MAC);
    assert_eq!(sr.rssi, -48);
    assert_eq!(sr.type_flags(), 6);
    assert_eq!(sr.name(), "Govee_H5074");
    assert_eq!(sr.manufacturer_data(), &[0x88, 0xec, 0x00, 0x6e, 0x08, 0x5e, 0x0f, 0x64, 0x02]);
    assert_eq!(sr.uuid_16(), &[] as &[u8]);
    assert_eq!(sr.val(0x09), Some(&b"Govee_H5074"[..]));
    assert_eq!(sr.val(0x03), None);
}

#[test]
fn malformed_tail_is_ignored() {
    // a zero-length structure stops the reading; so does one running past the end
    let adv = [2, 0x01, 0x04, 0, 3, 0x09, b'a', b'b'];
    let sr = ScanResult::from_advertisement(MAC, 0, &adv);
    assert_eq!(sr.type_flags(), 4);
    assert_eq!(sr.name(), "");
    let adv = [2, 0x01, 0x04, 5, 0x09, b'a'];
    let sr = ScanResult::from_advertisement(MAC, 0, &adv);
    assert_eq!(sr.val(0x09), None);
    assert_eq!(ad_structure_list(&adv).len(), 1);
}

#[test]
fn later_field_of_same_type_wins_and_capacity_is_kept() {
    let adv = [2, 0x08, b'x', 2, 0x08, b'y', 2, 0x02, 0x0a, 2, 0x03, 0x0b];
    let sr = ScanResult::from_advertisement(MAC, 0, &adv);
    assert_eq!(sr.name(), "y");
    assert_eq!(sr.uuid_16(), &[0x0b]);
    // seven distinct types: the seventh does not fit in six entries
    let adv = [1, 1, 1, 2, 1, 3, 1, 4, 1, 5, 1, 6, 2, 7, 9];
    let sr = ScanResult::from_advertisement(MAC, 0, &adv);
    for k in 1u32..=6 {
        assert_eq!(sr.val(k), Some(&[][..]));
    }
    assert_eq!(sr.val(7), None);
    let sr = nus_scanner::ScanResult::from_advertisement(MAC, 0, &adv);
    assert_eq!(sr.val(7), Some(&[9u8][..]));
}

#[test]
fn name_falls_back_to_short_name() {
    let adv = [3, 0x08, b'o', b'k'];
    let sr = ScanResult::from_advertisement(MAC, 0, &adv);
    assert_eq!(sr.name(), "ok");
    let sr = nus_scanner::ScanResult::from_advertisement(MAC, 0, &adv);
    assert_eq!(sr.name(), "ok");
    let adv = [13, 0x08, b'G', b'V', b'H', b'5', b'0', b'7', b'5', b'_', b'6', b'D', b'A', b'2'];
    let sr = nus_scanner::ScanResult::from_advertisement(MAC, 0, &adv);
    assert_eq!(sr.name(), "GVH5075_6DA2");
    let adv = [2, 0x09, 0xff, 3, 0x08, b'o', b'k'];
    let sr = nus_scanner::ScanResult::from_advertisement(MAC, 0, &adv);
    assert_eq!(sr.name(), "ok");
    let sr = ScanResult::from_advertisement(MAC, 0, &adv);
    assert_eq!(sr.name(), "");
}

#[test]
fn structures_in_order() {
    let adv = [2, 0x01, 0x06, 3, 0x03, 0x88, 0xec, 1, 0xff];
    let list = ad_structure_list(&adv);
    assert_eq!(list.len(), 3);
    assert_eq!(list[0], (0x01, &[0x06u8][..]));
    assert_eq!(list[1], (0x03, &[0x88u8, 0xec][..]));
    assert_eq!(list[2], (0xff, &[][..]));
}

#[test]
fn scan_data_insert() {
    let v = [1u8, 2, 3];
    let mut d = ScanData::new();
    assert!(d.insert(5, &v[..1]));
    assert!(d.insert(5, &v[1..]));
    assert_eq!(d.get(5), Some(&[2u8, 3][..]));
    assert_eq!(d.get(6), None);
}

#[test]
fn govee_readings() {
    let data = [0x88, 0xec, 0x00, 0x6e, 0x08, 0x5e, 0x0f, 0x64, 0x02];
    let r = h5074_reading(&data).unwrap();
    assert_eq!(r, GoveeReading { temperature_centi: 0x086e, humidity_centi: 0x0f5e, battery: 100 });
    let cold = [0x88, 0xec, 0x00, 0x06, 0xff, 0x17, 0x00, 0x00, 0x00];
    assert_eq!(h5074_reading(&cold).unwrap().temperature_centi, -250);
    assert_eq!(h5074_reading(&data[..8]), None);
    assert_eq!(classify_govee(&[0x88, 0xec, 0, 2], &[0x88, 0xec]), GoveeAdvertisement::OtherGovee);
    assert_eq!(classify_govee(&[], &[0x88]), GoveeAdvertisement::NotGovee);
    assert_eq!(classify_govee(&data, &[]), GoveeAdvertisement::H5074(r));
}

#[test]
fn govee_from_scan() {
    let adv = h5074_adv();
    let sr = nus_scanner::ScanResult::from_advertisement(MAC, -50, &adv);
    match parse_adv(&sr) {
        GoveeAdvertisement::H5074(r) => assert_eq!(r.battery, 100),
        _ => panic!("not recognised"),
    }
    let adv = [3, 0x03, 0x88, 0xec, 13, 0x09, b'G', b'V', b'H', b'5', b'0', b'7', b'5', b'_', b'6', b'D', b'A', b'2'];
    let sr = nus_scanner::ScanResult::from_advertisement(MAC, -91, &adv);
    assert_eq!(parse_adv(&sr), GoveeAdvertisement::OtherGovee);
    assert_eq!(sr.name(), "GVH5075_6DA2");
}

#[test]
fn our_payload_scans_back() {
    let uuid = [0x9e, 0xca, 0xdc, 0x24, 0x0e, 0xe5, 0xa9, 0xe0, 0x93, 0xf3, 0xa3, 0xb5, 0x01, 0x00, 0x40, 0x6e];
    let p = advertising_payload(&uuid, b"RV Log");
    assert_eq!(p.len(), 3 + 18 + 2 + 6);
    assert_eq!(&p[..5], &[2, 0x01, 0x06, 17, 0x07]);
    assert_eq!(&p[21..23], &[7, 0x09]);
    let sr = ScanResult::from_advertisement(MAC, 0, &p);
    assert_eq!(sr.type_flags(), 6);
    assert_eq!(sr.name(), "RV Log");
    assert_eq!(sr.val(0x07), Some(&uuid[..]));
}

#[test]
fn logger_temperature_updates() {
    let data = [0x88, 0xec, 0x00, 0x6e, 0x08, 0x5e, 0x0f, 0x64, 0x02];
    let (entity, t) = logger_temperature_update(0xff, &data).unwrap();
    assert_eq!(t, 0x086e);
    assert_eq!(entity.device_instance.device, LDevice::Climate);
    assert_eq!(entity.device_instance.instance, 4);
    assert_eq!(entity.attr, LAttribute::Temperature);
    assert!(logger_temperature_update(0x09, &data).is_none());
    assert!(logger_temperature_update(0xff, &data[..5]).is_none());
}
