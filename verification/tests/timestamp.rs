use logger_lib::timestamp::Timestamp;

#[test]
fn timestamp_attr_test() {
    let ts = Timestamp::now();
    assert_eq!(ts.as_sec(), (ts.as_micros() / 1000000u64) as u32);
    let b = ts.to_bytes();
    let ts_ = Timestamp::from_bytes(&b);
    // the reconstituted timestamp is rounded to seconds!
    assert_eq!(ts.as_sec(), ts_.as_sec());

    // time difference
    let delta = Timestamp::now().micros_since(ts) as f32 / 1000000.0;
    assert!(delta >= 0.0);
}

#[test]
fn seconds_encoding() {
    let t = Timestamp::from_micros(3_999_999);
    assert_eq!(t.as_sec(), 3);
    assert_eq!(t.to_bytes(), [0, 0, 0, 3]);
    assert_eq!(Timestamp::from_bytes(&[0, 0, 1, 0]).as_micros(), 256_000_000);
    assert_eq!(Timestamp::from_bytes(&[0xff, 0xff, 0xff, 0xff]).as_sec(), u32::MAX);
    assert_eq!(Timestamp::from_micros(7).micros_since(Timestamp::from_micros(2)), 5);
}

#[test]
fn seconds_truncate_to_32_bits() {
    let t = Timestamp::from_micros((u32::MAX as u64 + 2) * 1_000_000);
    assert_eq!(t.as_sec(), 1);
    assert_eq!(Timestamp::from_bytes(&t.to_bytes()).as_sec(), t.as_sec());
}
