//! The stored form of a contract commitment: the commitment block height as
//! eight lowercase hex digits, followed by the contract's content hash.

use vstd::prelude::*;
use vstd::arithmetic::div_mod::{
    lemma_basic_div, lemma_div_denominator, lemma_fundamental_div_mod,
};

verus! {

/// The lowercase hex digit for a value in `0..16`.
pub open spec fn hex_digit_char(n: int) -> char {
    if n == 0 {
        '0'
    } else if n == 1 {
        '1'
    } else if n == 2 {
        '2'
    } else if n == 3 {
        '3'
    } else if n == 4 {
        '4'
    } else if n == 5 {
        '5'
    } else if n == 6 {
        '6'
    } else if n == 7 {
        '7'
    } else if n == 8 {
        '8'
    } else if n == 9 {
        '9'
    } else if n == 10 {
        'a'
    } else if n == 11 {
        'b'
    } else if n == 12 {
        'c'
    } else if n == 13 {
        'd'
    } else if n == 14 {
        'e'
    } else {
        'f'
    }
}

/// The value of a lowercase hex digit, or -1 for any other character.
pub open spec fn hex_value(c: char) -> int {
    if c == '0' {
        0
    } else if c == '1' {
        1
    } else if c == '2' {
        2
    } else if c == '3' {
        3
    } else if c == '4' {
        4
    } else if c == '5' {
        5
    } else if c == '6' {
        6
    } else if c == '7' {
        7
    } else if c == '8' {
        8
    } else if c == '9' {
        9
    } else if c == 'a' {
        10
    } else if c == 'b' {
        11
    } else if c == 'c' {
        12
    } else if c == 'd' {
        13
    } else if c == 'e' {
        14
    } else if c == 'f' {
        15
    } else {
        -1
    }
}

pub open spec fn pow16(k: int) -> int
    decreases k,
{
    if k <= 0 {
        1
    } else {
        16 * pow16(k - 1)
    }
}

/// The `i`th (big-endian) hex digit of `h`, for `i` in `0..8`.
pub open spec fn spec_nibble(h: u32, i: int) -> int {
    (h as int / pow16(7 - i)) % 16
}

/// The canonical eight-digit hex rendering of `h`.
pub open spec fn spec_hex8(h: u32) -> Seq<char> {
    Seq::new(8, |i: int| hex_digit_char(spec_nibble(h, i)))
}

/// The numeric value of the first `k` characters of `s` read as hex digits.
pub open spec fn hexval_prefix(s: Seq<char>, k: int) -> int
    decreases k,
{
    if k <= 0 {
        0
    } else {
        hexval_prefix(s, k - 1) * 16 + hex_value(s[k - 1])
    }
}

/// A commitment string is decodable when it opens with eight hex digits.
pub open spec fn spec_valid_commitment(s: Seq<char>) -> bool {
    s.len() >= 8 && forall|i: int| 0 <= i < 8 ==> hex_value(#[trigger] s[i]) >= 0
}

proof fn lemma_pow16_pos(k: int)
    ensures
        pow16(k) >= 1,
    decreases k,
{
    if k > 0 {
        lemma_pow16_pos(k - 1);
    }
}

proof fn lemma_pow16_values()
    ensures
        pow16(0) == 1,
        pow16(1) == 16,
        pow16(2) == 256,
        pow16(3) == 4096,
        pow16(4) == 65536,
        pow16(5) == 1048576,
        pow16(6) == 16777216,
        pow16(7) == 268435456,
        pow16(8) == 4294967296,
{
    reveal_with_fuel(pow16, 9);
}

fn hex_digit_str(n: u8) -> (s: &'static str)
    requires
        n < 16,
    ensures
        s@.len() == 1,
        s@[0] == hex_digit_char(n as int),
{
    proof {
        reveal_strlit("0");
        reveal_strlit("1");
        reveal_strlit("2");
        reveal_strlit("3");
        reveal_strlit("4");
        reveal_strlit("5");
        reveal_strlit("6");
        reveal_strlit("7");
        reveal_strlit("8");
        reveal_strlit("9");
        reveal_strlit("a");
        reveal_strlit("b");
        reveal_strlit("c");
        reveal_strlit("d");
        reveal_strlit("e");
        reveal_strlit("f");
    }
    match n {
        0 => "0",
        1 => "1",
        2 => "2",
        3 => "3",
        4 => "4",
        5 => "5",
        6 => "6",
        7 => "7",
        8 => "8",
        9 => "9",
        10 => "a",
        11 => "b",
        12 => "c",
        13 => "d",
        14 => "e",
        _ => "f",
    }
}

fn hex_value_of(c: char) -> (r: Option<u8>)
    ensures
        r matches Some(d) ==> d < 16 && hex_value(c) == d as int,
        r is None ==> hex_value(c) == -1,
{
    match c {
        '0' => Some(0),
        '1' => Some(1),
        '2' => Some(2),
        '3' => Some(3),
        '4' => Some(4),
        '5' => Some(5),
        '6' => Some(6),
        '7' => Some(7),
        '8' => Some(8),
        '9' => Some(9),
        'a' => Some(10),
        'b' => Some(11),
        'c' => Some(12),
        'd' => Some(13),
        'e' => Some(14),
        'f' => Some(15),
        _ => None,
    }
}

/// Render `h` as its canonical eight hex digits.
pub fn u32_to_hex8(h: u32) -> (s: String)
    ensures
        s@ == spec_hex8(h),
{
    let mut s = String::new();
    let mut div: u32 = 268435456;
    proof {
        lemma_pow16_values();
        assert(s@ =~= spec_hex8(h).take(0));
    }
    let mut i: usize = 0;
    while i < 8
        invariant
            0 <= i <= 8,
            s@ =~= spec_hex8(h).take(i as int),
            i < 8 ==> div as int == pow16(7 - i as int),
        decreases 8 - i,
    {
        proof {
            lemma_pow16_pos(7 - i as int);
        }
        let d = ((h / div) % 16) as u8;
        s.append(hex_digit_str(d));
        proof {
            assert(d as int == spec_nibble(h, i as int));
            assert(s@ =~= spec_hex8(h).take(i as int + 1));
        }
        if i < 7 {
            proof {
                lemma_pow16_pos(6 - i as int);
                assert(div as int / 16 == pow16(6 - i as int)) by {
                    assert(div as int == 16 * pow16(6 - i as int));
                    vstd::arithmetic::div_mod::lemma_div_multiples_vanish(
                        pow16(6 - i as int),
                        16,
                    );
                }
            }
            div = div / 16;
        }
        i += 1;
    }
    proof {
        assert(spec_hex8(h).take(8) =~= spec_hex8(h));
    }
    s
}

/// Read the first eight characters of `s` as a hex number.
///
/// Returns `None` exactly when `s` is shorter than eight characters or one
/// of them is not a lowercase hex digit.
pub fn hex8_to_u32(s: &str) -> (r: Option<u32>)
    ensures
        r is Some <==> spec_valid_commitment(s@),
        r matches Some(h) ==> h as int == hexval_prefix(s@, 8),
{
    let n = s.unicode_len();
    if n < 8 {
        return None;
    }
    let mut acc: u32 = 0;
    let mut i: usize = 0;
    while i < 8
        invariant
            0 <= i <= 8,
            s@.len() >= 8,
            acc as int == hexval_prefix(s@, i as int),
            (acc as int) < pow16(i as int),
            forall|j: int| 0 <= j < i ==> hex_value(#[trigger] s@[j]) >= 0,
        decreases 8 - i,
    {
        let c = s.get_char(i);
        match hex_value_of(c) {
            Some(d) => {
                proof {
                    lemma_pow16_values();
                    lemma_pow16_le(i as int, 7);
                }
                acc = acc * 16 + d as u32;
            },
            None => {
                return None;
            },
        }
        i += 1;
    }
    Some(acc)
}

proof fn lemma_pow16_le(a: int, b: int)
    requires
        a <= b,
    ensures
        pow16(a) <= pow16(b),
    decreases b - a,
{
    if a < b {
        lemma_pow16_le(a, b - 1);
        lemma_pow16_pos(b - 1);
    }
}

/// The stored form of a contract commitment: eight hex digits of the
/// commitment height, then the content hash text.
pub fn encode_contract_commitment(height: u32, hash: &str) -> (s: String)
    ensures
        s@ == spec_hex8(height) + hash@,
{
    u32_to_hex8(height).concat(hash)
}

/// Split a stored commitment into its height and content hash.
pub fn decode_contract_commitment(s: &str) -> (r: Option<(u32, String)>)
    ensures
        r is Some <==> spec_valid_commitment(s@),
        r matches Some((h, hs)) ==> h as int == hexval_prefix(s@, 8) && hs@ == s@.skip(8),
{
    match hex8_to_u32(s) {
        Some(h) => {
            let n = s.unicode_len();
            let hash = s.substring_char(8, n).to_owned();
            proof {
                assert(s@.subrange(8, s@.len() as int) =~= s@.skip(8));
            }
            Some((h, hash))
        },
        None => None,
    }
}

/// The digits of the canonical rendering read back to the number rendered:
/// the value of `spec_hex8(h)` is `h`, digit prefixes dividing down through
/// the powers of sixteen.
proof fn lemma_hex8_value_aux(h: u32, k: int)
    requires
        0 <= k <= 8,
    ensures
        hexval_prefix(spec_hex8(h), k) == h as int / pow16(8 - k),
    decreases k,
{
    lemma_pow16_values();
    if k == 0 {
        lemma_basic_div(h as int, pow16(8));
    } else {
        lemma_hex8_value_aux(h, k - 1);
        let p = pow16(8 - k);
        lemma_pow16_pos(8 - k);
        assert(hex_value(spec_hex8(h)[k - 1]) == spec_nibble(h, k - 1)) by {
            assert(0 <= spec_nibble(h, k - 1) < 16) by {
                lemma_pow16_pos(8 - k);
                vstd::arithmetic::div_mod::lemma_mod_bound(h as int / pow16(7 - (k - 1)), 16);
            }
        }
        assert(pow16(8 - (k - 1)) == 16 * p);
        assert(h as int / (16 * p) == (h as int / p) / 16) by {
            lemma_div_denominator(h as int, p, 16);
        }
        let y = h as int / p;
        assert((y / 16) * 16 + y % 16 == y) by {
            lemma_fundamental_div_mod(y, 16);
        }
    }
}

/// Round trip: a commitment encoded from a height and a hash decodes back
/// to exactly that height and hash.
pub proof fn lemma_commitment_roundtrip(height: u32, hash: Seq<char>)
    ensures
        spec_valid_commitment(spec_hex8(height) + hash),
        hexval_prefix(spec_hex8(height) + hash, 8) == height as int,
        (spec_hex8(height) + hash).skip(8) =~= hash,
{
    let enc = spec_hex8(height) + hash;
    assert forall|i: int| 0 <= i < 8 implies hex_value(#[trigger] enc[i]) >= 0 by {
        assert(enc[i] == spec_hex8(height)[i]);
        assert(0 <= spec_nibble(height, i) < 16) by {
            lemma_pow16_pos(7 - i);
            vstd::arithmetic::div_mod::lemma_mod_bound(height as int / pow16(7 - i), 16);
        }
    }
    lemma_hex8_value_aux(height, 8);
    assert(hexval_prefix(spec_hex8(height), 8) == height as int);
    lemma_hexval_prefix_extend(spec_hex8(height), hash, 8);
}

/// A hex prefix value only reads the characters before the prefix length,
/// so appending a tail leaves it alone.
proof fn lemma_hexval_prefix_extend(a: Seq<char>, b: Seq<char>, k: int)
    requires
        0 <= k <= a.len(),
    ensures
        hexval_prefix(a + b, k) == hexval_prefix(a, k),
    decreases k,
{
    if k > 0 {
        lemma_hexval_prefix_extend(a, b, k - 1);
        assert((a + b)[k - 1] == a[k - 1]);
    }
}

} // verus!
