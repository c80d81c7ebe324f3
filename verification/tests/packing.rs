use fletcher_calc::pack::{pack16, pack32};

#[test]
fn pack16_length_is_ceil_of_half() {
    for len in 0..9usize {
        let bytes = vec![0xAAu8; len];
        assert_eq!(pack16(&bytes).len(), len.div_ceil(2));
    }
}

#[test]
fn pack32_length_is_ceil_of_quarter() {
    for len in 0..9usize {
        let bytes = vec![0xAAu8; len];
        assert_eq!(pack32(&bytes).len(), len.div_ceil(4));
    }
}

#[test]
fn pack16_groups_bytes_low_order_first() {
    assert_eq!(pack16(&vec![0x01, 0x02, 0x03, 0x04]), vec![0x0201, 0x0403]);
}

#[test]
fn pack32_groups_bytes_low_order_first() {
    assert_eq!(
        pack32(&vec![0x01, 0x02, 0x03, 0x04, 0x05, 0x06, 0x07, 0x08]),
        vec![0x04030201, 0x08070605]
    );
}

#[test]
fn pack16_pads_odd_tail_with_zero() {
    assert_eq!(pack16(&vec![0xAB]), vec![0x00AB]);
    assert_eq!(pack16(&vec![0x01, 0x02, 0x03]), vec![0x0201, 0x0003]);
}

#[test]
fn pack32_pads_tail_with_zeros() {
    assert_eq!(pack32(&vec![0xFF]), vec![0x000000FF]);
    assert_eq!(pack32(&vec![0x01, 0x02]), vec![0x00000201]);
    assert_eq!(pack32(&vec![0x01, 0x02, 0x03]), vec![0x00030201]);
    assert_eq!(
        pack32(&vec![0x01, 0x02, 0x03, 0x04, 0x05]),
        vec![0x04030201, 0x00000005]
    );
}

#[test]
fn pack_of_empty_is_empty() {
    assert_eq!(pack16(&vec![]), Vec::<u16>::new());
    assert_eq!(pack32(&vec![]), Vec::<u32>::new());
}
