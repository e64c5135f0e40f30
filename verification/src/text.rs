//! Small verified text utilities shared by the lexer, the operator tables
//! and the symbol tables: string equality and bounded decimal parsing.

use vstd::prelude::*;

verus! {

use vstd::utf8::{encode_utf8, encode_utf8_decode_utf8};

/// Test whether two string slices hold the same characters.
pub fn str_eq(a: &str, b: &str) -> (r: bool)
    ensures
        r == (a@ == b@),
{
    let ab = a.as_bytes();
    let bb = b.as_bytes();
    if ab.len() != bb.len() {
        proof {
            // Equal character sequences encode to equal byte sequences.
            assert(a@ != b@);
        }
        return false;
    }
    let n = ab.len();
    let mut i: usize = 0;
    while i < n
        invariant
            n == ab@.len(),
            n == bb@.len(),
            i <= n,
            ab@ == encode_utf8(a@),
            bb@ == encode_utf8(b@),
            forall|j: int| 0 <= j < i ==> ab@[j] == bb@[j],
        decreases n - i,
    {
        if ab[i] != bb[i] {
            return false;
        }
        i += 1;
    }
    proof {
        assert(encode_utf8(a@) =~= encode_utf8(b@));
        encode_utf8_decode_utf8(a@);
        encode_utf8_decode_utf8(b@);
    }
    true
}

/// Whether a byte spells a decimal digit.
pub open spec fn is_digit_byte(b: u8) -> bool {
    48 <= b <= 57
}

/// Whether every byte of a sequence spells a decimal digit.
pub open spec fn all_digit_bytes(s: Seq<u8>) -> bool {
    forall|i: int| 0 <= i < s.len() ==> is_digit_byte(s[i])
}

/// The numeric value of a sequence of decimal digit bytes.
pub open spec fn dec_value(s: Seq<u8>) -> nat
    decreases s.len(),
{
    if s.len() == 0 {
        0
    } else {
        (dec_value(s.drop_last()) * 10 + (s.last() - 48)) as nat
    }
}

/// A longer run of digits never has a smaller value.
proof fn lemma_dec_value_prefix(s: Seq<u8>, i: int)
    requires
        0 <= i <= s.len(),
        all_digit_bytes(s),
    ensures
        dec_value(s.take(i)) <= dec_value(s),
    decreases s.len() - i,
{
    if i < s.len() {
        lemma_dec_value_prefix(s, i + 1);
        assert(s.take(i + 1).drop_last() =~= s.take(i));
        assert(dec_value(s.take(i + 1)) == dec_value(s.take(i)) * 10 + (s.take(i + 1).last()
            - 48));
    } else {
        assert(s.take(i) =~= s);
    }
}

/// Parse the byte range `[from, to)` of `bytes` as an unsigned decimal
/// number. Returns `None` when the range is empty, holds a non-digit, or
/// spells a value that does not fit in a `u64`.
pub fn parse_u64_digits(bytes: &[u8], from: usize, to: usize) -> (r: Option<u64>)
    requires
        from <= to <= bytes@.len(),
    ensures
        ({
            let d = bytes@.subrange(from as int, to as int);
            match r {
                Some(v) => d.len() > 0 && all_digit_bytes(d) && dec_value(d) <= u64::MAX
                    && v == dec_value(d),
                None => !(d.len() > 0 && all_digit_bytes(d) && dec_value(d) <= u64::MAX),
            }
        }),
{
    let ghost d = bytes@.subrange(from as int, to as int);
    if from == to {
        return None;
    }
    let mut value: u64 = 0;
    let mut i: usize = from;
    while i < to
        invariant
            from <= i <= to <= bytes@.len(),
            d == bytes@.subrange(from as int, to as int),
            all_digit_bytes(d.take(i - from)),
            value == dec_value(d.take(i - from)),
        decreases to - i,
    {
        let b = bytes[i];
        if b < 48 || b > 57 {
            proof {
                assert(d[i - from] == bytes@[i as int]);
                assert(!is_digit_byte(d[i - from]));
            }
            return None;
        }
        let digit: u64 = (b - 48) as u64;
        proof {
            assert(d.take(i - from + 1).drop_last() =~= d.take(i - from));
            assert(d.take(i - from + 1).last() == bytes@[i as int]);
        }
        if value > (u64::MAX - digit) / 10 {
            proof {
                if all_digit_bytes(d) {
                    lemma_dec_value_prefix(d, i - from + 1);
                    assert(dec_value(d.take(i - from + 1)) == value * 10 + digit);
                }
            }
            return None;
        }
        value = value * 10 + digit;
        i += 1;
    }
    proof {
        assert(d.take(to - from) =~= d);
    }
    Some(value)
}

} // verus!
