//! The Fletcher engine: 16-, 32- and 64-bit Fletcher checksums.
//!
//! Each checksum keeps two running sums, both reduced modulo `2^(C/2) - 1`
//! where `C` is the checksum width; each input unit (a byte for Fletcher-16,
//! a packed word otherwise) is added to the first sum, which is then added to
//! the second. The check value is the second sum shifted into the high half,
//! combined with the first sum in the low half.

use vstd::prelude::*;

verus! {

/// Modulus of the two Fletcher-16 running sums.
pub const MOD16: u16 = 255;

/// Modulus of the two Fletcher-32 running sums.
pub const MOD32: u32 = 65535;

/// Modulus of the two Fletcher-64 running sums.
pub const MOD64: u64 = 4294967295;

/// The Fletcher running sums fold one unit (a byte or a word, already widened
/// to `int`) into the pair `(sum1, sum2)`, reducing both modulo `m`.
pub open spec fn fletcher_step(acc: (int, int), unit: int, m: int) -> (int, int) {
    let s1 = (acc.0 + unit) % m;
    (s1, (acc.1 + s1) % m)
}

/// Both Fletcher running sums over a whole sequence of units, starting from
/// `(0, 0)` and folding the units in order.
pub open spec fn fletcher_sums(units: Seq<int>, m: int) -> (int, int)
    decreases units.len(),
{
    if units.len() == 0 {
        (0, 0)
    } else {
        fletcher_step(fletcher_sums(units.drop_last(), m), units.last(), m)
    }
}

/// The bytes of a buffer, widened to mathematical integers.
pub open spec fn bytes_as_ints(s: Seq<u8>) -> Seq<int> {
    s.map_values(|b: u8| b as int)
}

/// The 16-bit words of a packed buffer, widened to mathematical integers.
pub open spec fn words16_as_ints(s: Seq<u16>) -> Seq<int> {
    s.map_values(|w: u16| w as int)
}

/// The 32-bit words of a packed buffer, widened to mathematical integers.
pub open spec fn words32_as_ints(s: Seq<u32>) -> Seq<int> {
    s.map_values(|w: u32| w as int)
}

/// The Fletcher-16 check value of a byte sequence: both sums are reduced
/// modulo 255 and the second sum occupies the high byte.
pub open spec fn spec_fletcher16(bytes: Seq<u8>) -> int {
    let sums = fletcher_sums(bytes_as_ints(bytes), MOD16 as int);
    sums.1 * 0x100 + sums.0
}

/// The Fletcher-32 check value of a 16-bit word sequence: both sums are
/// reduced modulo 65535 and the second sum occupies the high half-word.
pub open spec fn spec_fletcher32(words: Seq<u16>) -> int {
    let sums = fletcher_sums(words16_as_ints(words), MOD32 as int);
    sums.1 * 0x10000 + sums.0
}

/// The Fletcher-64 check value of a 32-bit word sequence: both sums are
/// reduced modulo 2^32 - 1 and the second sum occupies the high word.
pub open spec fn spec_fletcher64(words: Seq<u32>) -> int {
    let sums = fletcher_sums(words32_as_ints(words), MOD64 as int);
    sums.1 * 0x100000000 + sums.0
}

/// Computes the Fletcher-16 checksum directly over raw bytes: each byte is
/// its own input unit. Total over every input, including the empty buffer,
/// whose checksum is 0.
pub fn fletcher16(data: &Vec<u8>) -> (r: u16)
    ensures
        r as int == spec_fletcher16(data@),
{
    let ghost units = bytes_as_ints(data@);
    let mut sum1: u16 = 0;
    let mut sum2: u16 = 0;
    let mut i: usize = 0;
    while i < data.len()
        invariant
            i <= data@.len(),
            units == bytes_as_ints(data@),
            sum1 < MOD16,
            sum2 < MOD16,
            (sum1 as int, sum2 as int) == fletcher_sums(units.take(i as int), MOD16 as int),
        decreases data@.len() - i,
    {
        sum1 = (sum1 + data[i] as u16) % MOD16;
        sum2 = (sum2 + sum1) % MOD16;
        i = i + 1;
        proof {
            assert(units.take(i as int).drop_last() =~= units.take(i as int - 1));
        }
    }
    proof {
        assert(units.take(data@.len() as int) =~= units);
    }
    sum2 * 0x100 + sum1
}

/// Computes the Fletcher-32 checksum over 16-bit words (as produced by the
/// word packer). Total over every input; the empty sequence yields 0.
pub fn fletcher32(words: &Vec<u16>) -> (r: u32)
    ensures
        r as int == spec_fletcher32(words@),
{
    let ghost units = words16_as_ints(words@);
    let mut sum1: u32 = 0;
    let mut sum2: u32 = 0;
    let mut i: usize = 0;
    while i < words.len()
        invariant
            i <= words@.len(),
            units == words16_as_ints(words@),
            sum1 < MOD32,
            sum2 < MOD32,
            (sum1 as int, sum2 as int) == fletcher_sums(units.take(i as int), MOD32 as int),
        decreases words@.len() - i,
    {
        sum1 = (sum1 + words[i] as u32) % MOD32;
        sum2 = (sum2 + sum1) % MOD32;
        i = i + 1;
        proof {
            assert(units.take(i as int).drop_last() =~= units.take(i as int - 1));
        }
    }
    proof {
        assert(units.take(words@.len() as int) =~= units);
    }
    sum2 * 0x10000 + sum1
}

/// Computes the Fletcher-64 checksum over 32-bit words (as produced by the
/// word packer). Total over every input; the empty sequence yields 0.
pub fn fletcher64(words: &Vec<u32>) -> (r: u64)
    ensures
        r as int == spec_fletcher64(words@),
{
    let ghost units = words32_as_ints(words@);
    let mut sum1: u64 = 0;
    let mut sum2: u64 = 0;
    let mut i: usize = 0;
    while i < words.len()
        invariant
            i <= words@.len(),
            units == words32_as_ints(words@),
            sum1 < MOD64,
            sum2 < MOD64,
            (sum1 as int, sum2 as int) == fletcher_sums(units.take(i as int), MOD64 as int),
        decreases words@.len() - i,
    {
        sum1 = (sum1 + words[i] as u64) % MOD64;
        sum2 = (sum2 + sum1) % MOD64;
        i = i + 1;
        proof {
            assert(units.take(i as int).drop_last() =~= units.take(i as int - 1));
        }
    }
    proof {
        assert(units.take(words@.len() as int) =~= units);
    }
    sum2 * 0x100000000 + sum1
}

} // verus!
