//! Hexadecimal rendering of check values: uppercase digits, zero-padded to
//! a fixed width, together with the mathematical parse function that reads
//! such a string back into the value it renders.

use vstd::prelude::*;
use vstd::arithmetic::div_mod::lemma_fundamental_div_mod;
use vstd::arithmetic::power::pow;
use vstd::string::StringExecFns;

verus! {

/// The uppercase hexadecimal digit character for a value below 16.
pub open spec fn hex_char(d: int) -> char {
    if d == 0 {
        '0'
    } else if d == 1 {
        '1'
    } else if d == 2 {
        '2'
    } else if d == 3 {
        '3'
    } else if d == 4 {
        '4'
    } else if d == 5 {
        '5'
    } else if d == 6 {
        '6'
    } else if d == 7 {
        '7'
    } else if d == 8 {
        '8'
    } else if d == 9 {
        '9'
    } else if d == 10 {
        'A'
    } else if d == 11 {
        'B'
    } else if d == 12 {
        'C'
    } else if d == 13 {
        'D'
    } else if d == 14 {
        'E'
    } else {
        'F'
    }
}

/// The value of an uppercase hexadecimal digit character.
pub open spec fn hex_val(c: char) -> int {
    if c == '0' {
        0
    } else if c == '1' {
        1
    } else if c == '2' {
        2
    } else if c == '3' {
        3
    } else if c == '4' {
        4
    } else if c == '5' {
        5
    } else if c == '6' {
        6
    } else if c == '7' {
        7
    } else if c == '8' {
        8
    } else if c == '9' {
        9
    } else if c == 'A' {
        10
    } else if c == 'B' {
        11
    } else if c == 'C' {
        12
    } else if c == 'D' {
        13
    } else if c == 'E' {
        14
    } else {
        15
    }
}

/// The `n` low-order hexadecimal digits of `v`, most significant first.
pub open spec fn hex_digits(v: int, n: nat) -> Seq<char>
    decreases n,
{
    if n == 0 {
        Seq::empty()
    } else {
        hex_digits(v / 16, (n - 1) as nat).push(hex_char(v % 16))
    }
}

/// Reads a sequence of hexadecimal digit characters, most significant
/// first, back into the value it denotes.
pub open spec fn parse_hex(s: Seq<char>) -> int
    decreases s.len(),
{
    if s.len() == 0 {
        0
    } else {
        parse_hex(s.drop_last()) * 16 + hex_val(s.last())
    }
}

/// The one-character string for a hexadecimal digit value.
fn hex_digit_str(d: u8) -> (r: &'static str)
    requires
        d < 16,
    ensures
        r@ == seq![hex_char(d as int)],
{
    proof {
        reveal_strlit("0");
        reveal_strlit("1");
        reveal_strlit("2");
        reveal_strlit("3");
        reveal_strlit("4");
        reveal_strlit("5");
        reveal_strlit("6");
        reveal_strlit("7");
        reveal_strlit("8");
        reveal_strlit("9");
        reveal_strlit("A");
        reveal_strlit("B");
        reveal_strlit("C");
        reveal_strlit("D");
        reveal_strlit("E");
        reveal_strlit("F");
    }
    match d {
        0 => "0",
        1 => "1",
        2 => "2",
        3 => "3",
        4 => "4",
        5 => "5",
        6 => "6",
        7 => "7",
        8 => "8",
        9 => "9",
        10 => "A",
        11 => "B",
        12 => "C",
        13 => "D",
        14 => "E",
        _ => "F",
    }
}

/// Renders `v` as exactly `n` uppercase hexadecimal digits, most
/// significant first, zero-padded on the left.
pub fn hex_string(v: u64, n: usize) -> (r: String)
    ensures
        r@ == hex_digits(v as int, n as nat),
    decreases n,
{
    if n == 0 {
        String::new()
    } else {
        let mut s = hex_string(v / 16, n - 1);
        let digit = hex_digit_str((v % 16) as u8);
        s.append(digit);
        proof {
            assert(s@ =~= hex_digits(v as int, n as nat));
        }
        s
    }
}

/// Rendering a digit value and reading the character back is the identity.
pub proof fn lemma_hex_digit_round_trip(d: int)
    requires
        0 <= d < 16,
    ensures
        hex_val(hex_char(d)) == d,
{
}

/// Formatting round-trip: any value that fits in `n` hexadecimal digits is
/// read back unchanged from its fixed-width rendering.
pub proof fn lemma_hex_round_trip(v: int, n: nat)
    requires
        0 <= v < pow(16, n),
    ensures
        parse_hex(hex_digits(v, n)) == v,
    decreases n,
{
    reveal(pow);
    if n == 0 {
        assert(pow(16, 0) == 1);
    } else {
        let q = v / 16;
        let r = v % 16;
        lemma_fundamental_div_mod(v, 16);
        assert(pow(16, n) == 16 * pow(16, (n - 1) as nat));
        assert(q < pow(16, (n - 1) as nat)) by {
            if q >= pow(16, (n - 1) as nat) {
                assert(v == 16 * q + r);
                assert(16 * q >= 16 * pow(16, (n - 1) as nat)) by (nonlinear_arith)
                    requires
                        q >= pow(16, (n - 1) as nat),
                ;
            }
        }
        lemma_hex_round_trip(q, (n - 1) as nat);
        lemma_hex_digit_round_trip(r);
        assert(hex_digits(q, (n - 1) as nat).push(hex_char(r)).drop_last() =~= hex_digits(
            q,
            (n - 1) as nat,
        ));
    }
}

} // verus!
