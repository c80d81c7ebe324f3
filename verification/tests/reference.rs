//! Compares the library's checksums against the fletcher crate, the
//! reference implementation the surrounding tool delegates to.

use fletcher_calc::engine::{fletcher16, fletcher32, fletcher64};
use fletcher_calc::pack::{pack16, pack32};

const SAMPLES: [&[u8]; 7] = [
    b"",
    b"\x01\x02",
    b"abcde",
    b"abcdef",
    b"abcdefgh",
    b"\xC1\x77\xE9\xC0\xAB\x1E",
    b"\x01\x02\xF8\x04",
];

#[test]
fn fletcher16_matches_reference() {
    for sample in SAMPLES {
        let data = sample.to_vec();
        assert_eq!(fletcher16(&data), fletcher::calc_fletcher16(&data));
    }
}

#[test]
fn fletcher32_matches_reference_on_packed_words() {
    for sample in SAMPLES {
        let words = pack16(&sample.to_vec());
        assert_eq!(fletcher32(&words), fletcher::calc_fletcher32(&words));
    }
}

#[test]
fn fletcher64_matches_reference_on_packed_words() {
    for sample in SAMPLES {
        let words = pack32(&sample.to_vec());
        assert_eq!(fletcher64(&words), fletcher::calc_fletcher64(&words));
    }
}

#[test]
fn fletcher16_matches_reference_when_sums_wrap() {
    let data = vec![0xFF; 1000];
    assert_eq!(fletcher16(&data), fletcher::calc_fletcher16(&data));
    assert_eq!(fletcher16(&data), 0);
}
