//! UTF-16 decoding with replacement: the conversion of title-text code
//! units into a string, substituting one replacement character for every
//! unit or surrogate that does not form a Unicode scalar value.

use vstd::prelude::*;
use vstd::utf8::is_scalar;
use vstd::utf8::char_u32_cast;

verus! {

/// The Unicode replacement character, substituted for every code unit
/// that does not decode.
pub const REPLACEMENT: char = '\u{fffd}';

/// A UTF-16 high (leading) surrogate.
pub open spec fn is_high_surrogate(u: u16) -> bool {
    0xd800 <= u < 0xdc00
}

/// A UTF-16 low (trailing) surrogate.
pub open spec fn is_low_surrogate(u: u16) -> bool {
    0xdc00 <= u < 0xe000
}

/// The scalar value that a surrogate pair encodes.
pub open spec fn pair_scalar(hi: u16, lo: u16) -> u32
    recommends
        is_high_surrogate(hi),
        is_low_surrogate(lo),
{
    (0x10000 + (hi - 0xd800) * 0x400 + (lo - 0xdc00)) as u32
}

/// A standard UTF-16 decode with replacement. Each step consumes one
/// unit — or two, when a high surrogate is directly followed by a low
/// one — and yields exactly one character: the unit's own scalar value,
/// the pair's combined scalar value, or the replacement character for a
/// surrogate that stands alone or out of order.
pub open spec fn decode_utf16(units: Seq<u16>) -> Seq<char>
    decreases units.len(),
{
    if units.len() == 0 {
        Seq::empty()
    } else if is_high_surrogate(units[0]) {
        if units.len() >= 2 && is_low_surrogate(units[1]) {
            seq![pair_scalar(units[0], units[1]) as char] + decode_utf16(units.skip(2))
        } else {
            seq![REPLACEMENT] + decode_utf16(units.skip(1))
        }
    } else if is_low_surrogate(units[0]) {
        seq![REPLACEMENT] + decode_utf16(units.skip(1))
    } else {
        seq![(units[0] as u32) as char] + decode_utf16(units.skip(1))
    }
}

/// Decoding never yields more characters than there were code units.
pub proof fn lemma_decode_utf16_len(units: Seq<u16>)
    ensures
        decode_utf16(units).len() <= units.len(),
    decreases units.len(),
{
    if units.len() == 0 {
    } else if is_high_surrogate(units[0]) && units.len() >= 2 && is_low_surrogate(units[1]) {
        lemma_decode_utf16_len(units.skip(2));
    } else {
        lemma_decode_utf16_len(units.skip(1));
    }
}

/// Relies on char::from_u32: the answer holds the character with the
/// given numeric value, and is absent exactly when the value is a
/// surrogate or lies beyond the scalar range.
#[verifier::external_body]
fn char_from_u32(v: u32) -> (r: Option<char>)
    ensures
        r is Some <==> is_scalar(v),
        r matches Some(c) ==> c as u32 == v,
{
    char::from_u32(v)
}

/// Relies on String's FromIterator: collecting characters yields the
/// string made of exactly those characters, in order.
#[verifier::external_body]
fn string_from_chars(chars: Vec<char>) -> (r: String)
    ensures
        r@ == chars@,
{
    chars.into_iter().collect()
}

/// Decodes a buffer of UTF-16 code units into a string. Total: every
/// ill-formed unit becomes one replacement character, nothing is
/// truncated, and the result never has more characters than there were
/// units.
pub fn decode(source: &[u16]) -> (r: String)
    ensures
        r@ == decode_utf16(source@),
        r@.len() <= source@.len(),
{
    let mut out: Vec<char> = Vec::new();
    let mut i: usize = 0;
    proof {
        assert(source@.skip(0) =~= source@);
        assert(out@ + decode_utf16(source@) =~= decode_utf16(source@));
    }
    while i < source.len()
        invariant
            i <= source@.len(),
            decode_utf16(source@) == out@ + decode_utf16(source@.skip(i as int)),
            out@.len() <= i,
        decreases source@.len() - i,
    {
        let ghost rest = source@.skip(i as int);
        proof {
            assert(rest[0] == source@[i as int]);
        }
        let u = source[i];
        if 0xd800 <= u && u < 0xdc00 {
            if i + 1 < source.len() && 0xdc00 <= source[i + 1] && source[i + 1] < 0xe000 {
                let lo = source[i + 1];
                let v: u32 = 0x10000 + (u as u32 - 0xd800) * 0x400 + (lo as u32 - 0xdc00);
                proof {
                    assert(rest[1] == source@[i + 1]);
                    assert(v == pair_scalar(u, lo));
                    assert(is_scalar(v));
                }
                let c = char_from_u32(v).unwrap();
                proof {
                    char_u32_cast(c, v);
                    assert(rest.skip(2) =~= source@.skip(i + 2));
                    assert(out@.push(c) + decode_utf16(source@.skip(i + 2))
                        =~= out@ + decode_utf16(rest));
                }
                out.push(c);
                i = i + 2;
            } else {
                proof {
                    assert(rest.len() >= 2 ==> rest[1] == source@[i + 1]);
                    assert(rest.skip(1) =~= source@.skip(i + 1));
                    assert(out@.push(REPLACEMENT) + decode_utf16(source@.skip(i + 1))
                        =~= out@ + decode_utf16(rest));
                }
                out.push(REPLACEMENT);
                i = i + 1;
            }
        } else if 0xdc00 <= u && u < 0xe000 {
            proof {
                assert(rest.skip(1) =~= source@.skip(i + 1));
                assert(out@.push(REPLACEMENT) + decode_utf16(source@.skip(i + 1))
                    =~= out@ + decode_utf16(rest));
            }
            out.push(REPLACEMENT);
            i = i + 1;
        } else {
            proof {
                assert(is_scalar(u as u32));
            }
            let c = char_from_u32(u as u32).unwrap();
            proof {
                char_u32_cast(c, u as u32);
                assert(rest.skip(1) =~= source@.skip(i + 1));
                assert(out@.push(c) + decode_utf16(source@.skip(i + 1))
                    =~= out@ + decode_utf16(rest));
            }
            out.push(c);
            i = i + 1;
        }
    }
    proof {
        assert(source@.skip(i as int) =~= Seq::<u16>::empty());
    }
    string_from_chars(out)
}

} // verus!
