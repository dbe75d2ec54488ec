use logger_lib::gps::{contains_subslice, is_position_sentence};

#[test]
fn finds_subslices() {
    assert!(contains_subslice(b"abcdef", b"cde"));
    assert!(contains_subslice(b"abcdef", b""));
    assert!(contains_subslice(b"abc", b"abc"));
    assert!(!contains_subslice(b"abc", b"abcd"));
    assert!(!contains_subslice(b"abcabd", b"abe"));
    assert!(contains_subslice(b"abcabd", b"abd"));
}

#[test]
fn position_sentences() {
    assert!(is_position_sentence(b"xx\r\n$GNRMC,123519,A,4807.038,N"));
    assert!(is_position_sentence(b"$GNGGA,123519,4807.038,N,01131.000,E"));
    assert!(!is_position_sentence(b"$GPGSV,3,1,11,03,03,111,00"));
    assert!(!is_position_sentence(&[0xff, b'$', b'G', b'N', b'R', b'M', b'C']));
}
