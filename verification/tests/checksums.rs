use fletcher_calc::engine::{fletcher16, fletcher32, fletcher64};
use fletcher_calc::pack::{pack16, pack32};
use fletcher_calc::report::{compute_checksum, ChecksumKind};

#[test]
fn fletcher16_empty_is_zero() {
    assert_eq!(fletcher16(&vec![]), 0);
}

#[test]
fn fletcher32_of_packed_empty_is_zero() {
    let words = pack16(&vec![]);
    assert_eq!(fletcher32(&words), 0);
}

#[test]
fn fletcher64_of_packed_empty_is_zero() {
    let words = pack32(&vec![]);
    assert_eq!(fletcher64(&words), 0);
}

#[test]
fn fletcher16_two_byte_test_vector() {
    assert_eq!(fletcher16(&vec![0x01, 0x02]), 0x0403);
}

#[test]
fn fletcher16_abcde_test_vector() {
    assert_eq!(fletcher16(&b"abcde".to_vec()), 0xC8F0);
}

#[test]
fn fletcher32_abcde_test_vector() {
    let words = pack16(&b"abcde".to_vec());
    assert_eq!(fletcher32(&words), 0xF04FC729);
}

#[test]
fn fletcher64_abcde_test_vector() {
    let words = pack32(&b"abcde".to_vec());
    assert_eq!(fletcher64(&words), 0xC8C6C527646362C6);
}

#[test]
fn fletcher16_repeated_calls_agree() {
    let data = b"the same bytes".to_vec();
    assert_eq!(fletcher16(&data), fletcher16(&data));
}

#[test]
fn fletcher32_repeated_calls_agree() {
    let data = b"the same bytes".to_vec();
    let first = compute_checksum(ChecksumKind::Fletcher32, &data);
    let second = compute_checksum(ChecksumKind::Fletcher32, &data);
    assert_eq!(first, second);
}

#[test]
fn fletcher64_repeated_calls_agree() {
    let data = b"the same bytes".to_vec();
    let first = compute_checksum(ChecksumKind::Fletcher64, &data);
    let second = compute_checksum(ChecksumKind::Fletcher64, &data);
    assert_eq!(first, second);
}

#[test]
fn fletcher16_single_byte_change_is_visible() {
    assert_ne!(fletcher16(&vec![0x01, 0x02]), fletcher16(&vec![0x01, 0x03]));
}

#[test]
fn fletcher32_single_byte_change_is_visible() {
    let base = compute_checksum(ChecksumKind::Fletcher32, &b"abcde".to_vec());
    let changed = compute_checksum(ChecksumKind::Fletcher32, &b"abcdf".to_vec());
    assert_ne!(base.value, changed.value);
}

#[test]
fn fletcher64_single_byte_change_is_visible() {
    let base = compute_checksum(ChecksumKind::Fletcher64, &b"abcde".to_vec());
    let changed = compute_checksum(ChecksumKind::Fletcher64, &b"Abcde".to_vec());
    assert_ne!(base.value, changed.value);
}

#[test]
fn fletcher32_one_zero_byte_scenario() {
    let words = pack16(&vec![0x00]);
    assert_eq!(words, vec![0x0000]);
    assert_eq!(fletcher32(&words), 0x00000000);
    let result = compute_checksum(ChecksumKind::Fletcher32, &vec![0x00]);
    assert_eq!(result.value, 0);
}

#[test]
fn compute_checksum_dispatches_per_kind() {
    let data = vec![0x01, 0x02];
    let r16 = compute_checksum(ChecksumKind::Fletcher16, &data);
    assert_eq!(r16.kind, ChecksumKind::Fletcher16);
    assert_eq!(r16.value, 0x0403);
    let r32 = compute_checksum(ChecksumKind::Fletcher32, &data);
    assert_eq!(r32.value, fletcher32(&pack16(&data)) as u64);
    let r64 = compute_checksum(ChecksumKind::Fletcher64, &data);
    assert_eq!(r64.value, fletcher64(&pack32(&data)));
}
