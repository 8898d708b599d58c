//! Hexadecimal encoding and decoding of byte strings.
//!
//! Signature headers carry a digest as lowercase hex text; decoding accepts
//! both cases, as a digit-by-digit read of the text does.

use vstd::prelude::*;

verus! {

/// The value of one ASCII hex digit: `0`-`9`, `a`-`f` or `A`-`F`.
pub open spec fn spec_hex_digit(b: u8) -> Option<u8> {
    if 48 <= b <= 57 {
        Some((b - 48) as u8)
    } else if 97 <= b <= 102 {
        Some((b - 87) as u8)
    } else if 65 <= b <= 70 {
        Some((b - 55) as u8)
    } else {
        None
    }
}

/// True when `s` is a well-formed hex string: even length, hex digits only.
pub open spec fn spec_is_hex(s: Seq<u8>) -> bool {
    s.len() % 2 == 0 && (forall|i: int| 0 <= i < s.len() ==> spec_hex_digit(#[trigger] s[i]) is Some)
}

/// The bytes a well-formed hex string denotes, two digits each.
pub open spec fn spec_hex_decode(s: Seq<u8>) -> Seq<u8> {
    Seq::new(
        (s.len() / 2) as nat,
        |i: int|
            ((spec_hex_digit(s[2 * i])->Some_0 * 16) + spec_hex_digit(s[2 * i + 1])->Some_0) as u8,
    )
}

/// The lowercase hex digit denoting a value below sixteen.
pub open spec fn spec_hex_char(v: u8) -> u8 {
    if v < 10 {
        (48 + v) as u8
    } else {
        (87 + v) as u8
    }
}

/// The lowercase hex encoding of a byte string, two digits per byte.
pub open spec fn spec_hex_encode(d: Seq<u8>) -> Seq<u8> {
    Seq::new(
        (2 * d.len()) as nat,
        |i: int|
            if i % 2 == 0 {
                spec_hex_char((d[i / 2] / 16) as u8)
            } else {
                spec_hex_char((d[i / 2] % 16) as u8)
            },
    )
}

/// The value of one ASCII hex digit, if it is one.
fn hex_digit(b: u8) -> (r: Option<u8>)
    ensures
        r == spec_hex_digit(b),
{
    if 48 <= b && b <= 57 {
        Some(b - 48)
    } else if 97 <= b && b <= 102 {
        Some(b - 87)
    } else if 65 <= b && b <= 70 {
        Some(b - 55)
    } else {
        None
    }
}

/// Decodes a hex string, or fails when its length is odd or a byte is not a
/// hex digit.
pub fn hex_decode(s: &[u8]) -> (r: Option<Vec<u8>>)
    ensures
        match r {
            Some(d) => spec_is_hex(s@) && d@ == spec_hex_decode(s@),
            None => !spec_is_hex(s@),
        },
{
    if s.len() % 2 != 0 {
        return None;
    }
    let n = s.len() / 2;
    let mut out: Vec<u8> = Vec::new();
    let mut i: usize = 0;
    while i < n
        invariant
            0 <= i <= n,
            s@.len() == 2 * n,
            out@.len() == i,
            forall|k: int| 0 <= k < 2 * i ==> spec_hex_digit(#[trigger] s@[k]) is Some,
            forall|k: int| 0 <= k < i ==> #[trigger] out@[k] == spec_hex_decode(s@)[k],
        decreases n - i,
    {
        let hi = match hex_digit(s[2 * i]) {
            Some(v) => v,
            None => {
                return None;
            },
        };
        let lo = match hex_digit(s[2 * i + 1]) {
            Some(v) => v,
            None => {
                return None;
            },
        };
        out.push(hi * 16 + lo);
        i += 1;
    }
    Some(out)
}

/// A hex digit's value reads back to itself.
pub proof fn lemma_hex_digit_of_char(v: u8)
    requires
        v < 16,
    ensures
        spec_hex_digit(spec_hex_char(v)) == Some(v),
{
}

/// Decoding inverts encoding: the lowercase hex text of any byte string is
/// well formed and reads back to it.
pub proof fn lemma_hex_decode_encode(d: Seq<u8>)
    ensures
        spec_is_hex(spec_hex_encode(d)),
        spec_hex_decode(spec_hex_encode(d)) == d,
{
    let e = spec_hex_encode(d);
    assert forall|i: int| 0 <= i < e.len() implies spec_hex_digit(#[trigger] e[i]) is Some by {
        if i % 2 == 0 {
            lemma_hex_digit_of_char((d[i / 2] / 16) as u8);
        } else {
            lemma_hex_digit_of_char((d[i / 2] % 16) as u8);
        }
    }
    assert forall|i: int| 0 <= i < d.len() implies spec_hex_decode(e)[i] == d[i] by {
        lemma_hex_digit_of_char((d[i] / 16) as u8);
        lemma_hex_digit_of_char((d[i] % 16) as u8);
        assert(e[2 * i] == spec_hex_char((d[i] / 16) as u8));
        assert(e[2 * i + 1] == spec_hex_char((d[i] % 16) as u8));
        assert((d[i] / 16) * 16 + (d[i] % 16) == d[i]) by {
            vstd::arithmetic::div_mod::lemma_fundamental_div_mod(d[i] as int, 16);
        }
    }
    assert(spec_hex_decode(e) =~= d);
}

} // verus!
