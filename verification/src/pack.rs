//! The word packer: splits a raw byte buffer into fixed-width unsigned
//! words, zero-padding the tail when the byte length is not a multiple of
//! the word size.
//!
//! Bytes are grouped in little-endian order, the byte order of every
//! platform the surrounding tool targets, so the first byte of a group is
//! the word's low-order byte and any padding fills the high-order bytes.

use vstd::prelude::*;

verus! {

/// `n / d` rounded towards positive infinity, for positive `d`.
pub open spec fn ceil_div(n: int, d: int) -> int {
    (n + d - 1) / d
}

/// The byte at index `i`, or 0 beyond the end of the buffer: out-of-range
/// indices read the zero padding.
pub open spec fn byte_at(b: Seq<u8>, i: int) -> int {
    if 0 <= i < b.len() {
        b[i] as int
    } else {
        0
    }
}

/// The `i`-th 16-bit word of the packed buffer: two consecutive bytes,
/// low-order byte first, missing bytes read as zero padding.
pub open spec fn word16_at(b: Seq<u8>, i: int) -> u16 {
    (byte_at(b, 2 * i) + 0x100 * byte_at(b, 2 * i + 1)) as u16
}

/// The `i`-th 32-bit word of the packed buffer: four consecutive bytes,
/// low-order byte first, missing bytes read as zero padding.
pub open spec fn word32_at(b: Seq<u8>, i: int) -> u32 {
    (byte_at(b, 4 * i) + 0x100 * byte_at(b, 4 * i + 1) + 0x10000 * byte_at(b, 4 * i + 2)
        + 0x1000000 * byte_at(b, 4 * i + 3)) as u32
}

/// The sequence of 16-bit words packed from `b`, one word for every two
/// bytes, the last word zero-padded when the length is odd.
pub open spec fn spec_pack16(b: Seq<u8>) -> Seq<u16> {
    Seq::new(ceil_div(b.len() as int, 2) as nat, |i: int| word16_at(b, i))
}

/// The sequence of 32-bit words packed from `b`, one word for every four
/// bytes, the last word zero-padded when the length is not a multiple of 4.
pub open spec fn spec_pack32(b: Seq<u8>) -> Seq<u32> {
    Seq::new(ceil_div(b.len() as int, 4) as nat, |i: int| word32_at(b, i))
}

/// Packs a byte buffer into 16-bit words for the Fletcher-32 checksum.
/// Always succeeds, on the empty buffer too; an odd-length buffer gets one
/// zero byte of tail padding before grouping.
pub fn pack16(bytes: &Vec<u8>) -> (r: Vec<u16>)
    ensures
        r@ == spec_pack16(bytes@),
        r@.len() == ceil_div(bytes@.len() as int, 2),
{
    let n = bytes.len();
    let words = n / 2 + n % 2;
    assert(words == ceil_div(n as int, 2));
    let mut r: Vec<u16> = Vec::new();
    let mut i: usize = 0;
    while i < words
        invariant
            n == bytes@.len(),
            words == ceil_div(n as int, 2),
            i <= words,
            r@.len() == i,
            forall|j: int| 0 <= j < i ==> r@[j] == word16_at(bytes@, j),
        decreases words - i,
    {
        assert(2 * i < n);
        let b0 = bytes[2 * i];
        let b1 = if 2 * i + 1 < n {
            bytes[2 * i + 1]
        } else {
            0u8
        };
        r.push(b0 as u16 + 0x100 * b1 as u16);
        i = i + 1;
    }
    proof {
        assert(r@ =~= spec_pack16(bytes@));
    }
    r
}

/// Packs a byte buffer into 32-bit words for the Fletcher-64 checksum.
/// Always succeeds, on the empty buffer too; a buffer whose length is not a
/// multiple of 4 gets zero bytes of tail padding before grouping.
pub fn pack32(bytes: &Vec<u8>) -> (r: Vec<u32>)
    ensures
        r@ == spec_pack32(bytes@),
        r@.len() == ceil_div(bytes@.len() as int, 4),
{
    let n = bytes.len();
    let words = n / 4 + if n % 4 != 0 {
        1
    } else {
        0
    };
    assert(words == ceil_div(n as int, 4));
    let mut r: Vec<u32> = Vec::new();
    let mut i: usize = 0;
    while i < words
        invariant
            n == bytes@.len(),
            words == ceil_div(n as int, 4),
            i <= words,
            r@.len() == i,
            forall|j: int| 0 <= j < i ==> r@[j] == word32_at(bytes@, j),
        decreases words - i,
    {
        assert(4 * i < n);
        let base = 4 * i;
        let rem = n - base;
        let b0 = bytes[base];
        let b1 = if rem > 1 {
            bytes[base + 1]
        } else {
            0u8
        };
        let b2 = if rem > 2 {
            bytes[base + 2]
        } else {
            0u8
        };
        let b3 = if rem > 3 {
            bytes[base + 3]
        } else {
            0u8
        };
        r.push(
            b0 as u32 + 0x100 * b1 as u32 + 0x10000 * b2 as u32 + 0x1000000 * b3 as u32,
        );
        i = i + 1;
    }
    proof {
        assert(r@ =~= spec_pack32(bytes@));
    }
    r
}

/// Padding reaches only the high-order byte: when the buffer length is odd,
/// the last packed 16-bit word is exactly the last input byte, its high byte
/// zero.
pub proof fn lemma_pack16_padding(b: Seq<u8>)
    requires
        b.len() % 2 == 1,
    ensures
        spec_pack16(b).len() > 0,
        spec_pack16(b).last() == b.last() as u16,
        spec_pack16(b).last() < 0x100,
{
    let w = ceil_div(b.len() as int, 2);
    assert(2 * (w - 1) == b.len() - 1);
}

/// Padding reaches only the high-order bytes: when the buffer length is not
/// a multiple of 4, the last packed 32-bit word decodes the remaining
/// `len % 4` bytes in low-order position and its padding bytes as zero, so
/// it is below `2^(8 * (len % 4))`.
pub proof fn lemma_pack32_padding(b: Seq<u8>)
    requires
        b.len() % 4 != 0,
    ensures
        spec_pack32(b).len() > 0,
        spec_pack32(b).last() == byte_at(b, b.len() - (b.len() % 4)) + 0x100 * byte_at(
            b,
            b.len() - (b.len() % 4) + 1,
        ) + 0x10000 * byte_at(b, b.len() - (b.len() % 4) + 2),
        b.len() % 4 == 1 ==> spec_pack32(b).last() < 0x100,
        b.len() % 4 == 2 ==> spec_pack32(b).last() < 0x10000,
        b.len() % 4 == 3 ==> spec_pack32(b).last() < 0x1000000,
{
    let w = ceil_div(b.len() as int, 4);
    let base = b.len() - (b.len() % 4);
    assert(4 * (w - 1) == base);
    assert(byte_at(b, base + 3) == 0);
}

} // verus!
