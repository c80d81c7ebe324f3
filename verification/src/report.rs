//! The closed set of checksum kinds, the dispatch from a kind and a byte
//! buffer to its check value, and the rendering of a result as a display
//! line with the algorithm label and the uppercase hexadecimal value.

use vstd::prelude::*;
use vstd::arithmetic::power::pow;
use vstd::arithmetic::power2::{lemma2_to64, pow2};
use vstd::string::StringExecFns;

use crate::engine::{fletcher16, fletcher32, fletcher64, spec_fletcher16, spec_fletcher32,
    spec_fletcher64};
use crate::hex::{hex_digits, hex_string, lemma_hex_round_trip, parse_hex};
use crate::pack::{pack16, pack32, spec_pack16, spec_pack32};

verus! {

/// The three checksum widths the tool offers; each maps to one pure
/// checksum function.
#[derive(Clone, Copy, Debug, PartialEq, Eq, Structural)]
pub enum ChecksumKind {
    Fletcher16,
    Fletcher32,
    Fletcher64,
}

impl ChecksumKind {
    /// The width of the check value in bits.
    pub open spec fn spec_width_bits(self) -> nat {
        match self {
            ChecksumKind::Fletcher16 => 16,
            ChecksumKind::Fletcher32 => 32,
            ChecksumKind::Fletcher64 => 64,
        }
    }

    /// The human-readable algorithm label.
    pub open spec fn spec_label(self) -> Seq<char> {
        match self {
            ChecksumKind::Fletcher16 => "Fletcher-16"@,
            ChecksumKind::Fletcher32 => "Fletcher-32"@,
            ChecksumKind::Fletcher64 => "Fletcher-64"@,
        }
    }

    /// The width of the check value in bits.
    pub fn width_bits(&self) -> (r: usize)
        ensures
            r == self.spec_width_bits(),
    {
        match self {
            ChecksumKind::Fletcher16 => 16,
            ChecksumKind::Fletcher32 => 32,
            ChecksumKind::Fletcher64 => 64,
        }
    }

    /// The human-readable algorithm label.
    pub fn label(&self) -> (r: &'static str)
        ensures
            r@ == self.spec_label(),
    {
        match self {
            ChecksumKind::Fletcher16 => "Fletcher-16",
            ChecksumKind::Fletcher32 => "Fletcher-32",
            ChecksumKind::Fletcher64 => "Fletcher-64",
        }
    }
}

/// The check value of a byte buffer under a checksum kind: Fletcher-16 runs
/// over the raw bytes, Fletcher-32 over packed 16-bit words, Fletcher-64
/// over packed 32-bit words.
pub open spec fn spec_checksum(kind: ChecksumKind, bytes: Seq<u8>) -> int {
    match kind {
        ChecksumKind::Fletcher16 => spec_fletcher16(bytes),
        ChecksumKind::Fletcher32 => spec_fletcher32(spec_pack16(bytes)),
        ChecksumKind::Fletcher64 => spec_fletcher64(spec_pack32(bytes)),
    }
}

/// One computed checksum: the kind it was computed under and the check
/// value, zero-extended to 64 bits.
#[derive(Clone, Copy, Debug, PartialEq, Eq, Structural)]
pub struct CheckResult {
    pub kind: ChecksumKind,
    pub value: u64,
}

impl CheckResult {
    /// The value fits the width of its kind.
    pub open spec fn wf(self) -> bool {
        self.value < pow2(self.kind.spec_width_bits())
    }
}

/// Computes the checksum of a byte buffer under the selected kind, packing
/// the buffer into words first where the kind asks for it. Total over every
/// buffer, including the empty one.
pub fn compute_checksum(kind: ChecksumKind, bytes: &Vec<u8>) -> (r: CheckResult)
    ensures
        r.kind == kind,
        r.value as int == spec_checksum(kind, bytes@),
        r.wf(),
{
    proof {
        lemma2_to64();
    }
    match kind {
        ChecksumKind::Fletcher16 => CheckResult { kind, value: fletcher16(bytes) as u64 },
        ChecksumKind::Fletcher32 => {
            let words = pack16(bytes);
            CheckResult { kind, value: fletcher32(&words) as u64 }
        },
        ChecksumKind::Fletcher64 => {
            let words = pack32(bytes);
            CheckResult { kind, value: fletcher64(&words) }
        },
    }
}

/// The display line for a result: the label, the word "checksum:", and the
/// value as "0x" followed by exactly width/4 uppercase hexadecimal digits.
pub open spec fn spec_render(kind: ChecksumKind, value: int) -> Seq<char> {
    kind.spec_label() + " checksum: 0x"@ + hex_digits(value, kind.spec_width_bits() / 4)
}

/// Renders a computed checksum as its display line.
pub fn render_result(r: &CheckResult) -> (s: String)
    ensures
        s@ == spec_render(r.kind, r.value as int),
{
    let mut s = String::from_str(r.kind.label());
    s.append(" checksum: 0x");
    let digits = r.kind.width_bits() / 4;
    let hex = hex_string(r.value, digits);
    s.append(hex.as_str());
    s
}

/// Formatting round-trip: the hexadecimal digits of a well-formed result's
/// display line, read back as a width-bit unsigned hexadecimal integer,
/// give back exactly the check value.
pub proof fn lemma_render_round_trip(kind: ChecksumKind, value: int)
    requires
        0 <= value < pow2(kind.spec_width_bits()),
    ensures
        parse_hex(
            spec_render(kind, value).skip((kind.spec_label().len() + " checksum: 0x"@.len()) as int),
        ) == value,
{
    let prefix = kind.spec_label() + " checksum: 0x"@;
    let digits = hex_digits(value, kind.spec_width_bits() / 4);
    assert(spec_render(kind, value).skip(prefix.len() as int) =~= digits);
    assert(pow2(kind.spec_width_bits()) == pow(16, kind.spec_width_bits() / 4)) by {
        lemma2_to64();
        vstd::arithmetic::power::lemma_pow_multiplies(2, 4, kind.spec_width_bits() / 4);
        assert(pow(2, 4) == 16) by {
            reveal(pow);
        }
        vstd::arithmetic::power2::lemma_pow2(kind.spec_width_bits());
    }
    lemma_hex_round_trip(value, kind.spec_width_bits() / 4);
}

} // verus!
