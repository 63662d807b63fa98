//! Small verified string and byte utilities: equality on byte slices and
//! string slices, a comparison of secrets without an early exit, and a
//! decimal `i32` parser.

use vstd::prelude::*;
use vstd::string::StringSliceAdditionalSpecFns;

verus! {

/// Byte-for-byte equality of two byte slices.
pub fn bytes_eq(a: &[u8], b: &[u8]) -> (r: bool)
    ensures
        r == (a@ == b@),
{
    if a.len() != b.len() {
        assert(a@.len() != b@.len());
        return false;
    }
    let mut i: usize = 0;
    while i < a.len()
        invariant
            i <= a@.len(),
            a@.len() == b@.len(),
            forall|j: int| 0 <= j < i ==> a@[j] == b@[j],
        decreases a@.len() - i,
    {
        if a[i] != b[i] {
            return false;
        }
        i += 1;
    }
    proof {
        assert(a@ =~= b@);
    }
    true
}

/// Equality of two string slices, decided on their UTF-8 bytes.
pub fn str_eq(a: &str, b: &str) -> (r: bool)
    ensures
        r == (a@ == b@),
{
    let r = bytes_eq(a.as_bytes(), b.as_bytes());
    proof {
        if a.spec_bytes() == b.spec_bytes() {
            vstd::utf8::encode_utf8_decode_utf8(a@);
            vstd::utf8::encode_utf8_decode_utf8(b@);
        }
    }
    r
}

/// Compares two secrets byte for byte, folding every position into one
/// accumulator instead of leaving the loop at the first difference, so that
/// the time spent does not depend on where the inputs first differ.
pub fn ct_eq(a: &str, b: &str) -> (r: bool)
    ensures
        r == (a@ == b@),
{
    let ab = a.as_bytes();
    let bb = b.as_bytes();
    if ab.len() != bb.len() {
        assert(a.spec_bytes().len() != b.spec_bytes().len());
        return false;
    }
    let mut diff: u8 = 0;
    let mut i: usize = 0;
    while i < ab.len()
        invariant
            i <= ab@.len(),
            ab@.len() == bb@.len(),
            (diff == 0) <==> (forall|j: int| 0 <= j < i ==> ab@[j] == bb@[j]),
        decreases ab@.len() - i,
    {
        let x = ab[i];
        let y = bb[i];
        proof {
            assert((x ^ y) == 0 <==> x == y) by (bit_vector);
            assert(forall|d: u8, z: u8| ((d | z) == 0) <==> (d == 0 && z == 0)) by (bit_vector);
        }
        diff = diff | (x ^ y);
        i += 1;
    }
    proof {
        if diff == 0 {
            assert(ab@ =~= bb@);
        }
        if a.spec_bytes() == b.spec_bytes() {
            vstd::utf8::encode_utf8_decode_utf8(a@);
            vstd::utf8::encode_utf8_decode_utf8(b@);
        }
    }
    diff == 0
}

/// Whether a byte is an ASCII decimal digit.
pub open spec fn is_digit(b: u8) -> bool {
    48 <= b <= 57
}

/// Whether every byte of the sequence is an ASCII decimal digit.
pub open spec fn all_digits(s: Seq<u8>) -> bool {
    forall|i: int| 0 <= i < s.len() ==> is_digit(s[i])
}

/// The value of a sequence of ASCII decimal digits, most significant first.
pub open spec fn digits_val(s: Seq<u8>) -> int
    decreases s.len(),
{
    if s.len() == 0 {
        0
    } else {
        digits_val(s.drop_last()) * 10 + (s.last() - 48)
    }
}

proof fn lemma_digits_val_nonneg(s: Seq<u8>)
    requires
        all_digits(s),
    ensures
        digits_val(s) >= 0,
    decreases s.len(),
{
    if s.len() > 0 {
        assert(all_digits(s.drop_last()));
        lemma_digits_val_nonneg(s.drop_last());
    }
}

proof fn lemma_digits_val_prefix(s: Seq<u8>, i: int)
    requires
        all_digits(s),
        0 <= i <= s.len(),
    ensures
        digits_val(s) >= digits_val(s.subrange(0, i)) >= 0,
    decreases s.len() - i,
{
    assert(all_digits(s.subrange(0, i)));
    lemma_digits_val_nonneg(s.subrange(0, i));
    if i < s.len() {
        assert(s.subrange(0, i + 1).drop_last() =~= s.subrange(0, i));
        assert(digits_val(s.subrange(0, i + 1)) == digits_val(s.subrange(0, i)) * 10 + (s[i]
            - 48));
        lemma_digits_val_prefix(s, i + 1);
    } else {
        assert(s.subrange(0, i) =~= s);
    }
}

/// The number denoted by a byte string: an optional ASCII sign followed by
/// one or more decimal digits, rejected when the value does not fit in `i32`.
/// This is the same language that the standard decimal parser accepts.
pub open spec fn spec_parse_i32(s: Seq<u8>) -> Option<i32> {
    let digits = if s.len() > 0 && (s[0] == 43 || s[0] == 45) {
        s.drop_first()
    } else {
        s
    };
    let negative = s.len() > 0 && s[0] == 45;
    if digits.len() == 0 || !all_digits(digits) {
        None
    } else {
        let v = if negative {
            -digits_val(digits)
        } else {
            digits_val(digits)
        };
        if v < -2147483648 || v > 2147483647 {
            None
        } else {
            Some(v as i32)
        }
    }
}

/// Parses an optionally signed decimal `i32`, as the standard parser does.
pub fn parse_i32(s: &str) -> (r: Option<i32>)
    ensures
        r == spec_parse_i32(s.spec_bytes()),
{
    let bytes = s.as_bytes();
    let n = bytes.len();
    let mut start: usize = 0;
    let mut negative = false;
    if n > 0 && (bytes[0] == 43 || bytes[0] == 45) {
        negative = bytes[0] == 45;
        start = 1;
    }
    let ghost digits: Seq<u8> = if start == 1 {
        bytes@.drop_first()
    } else {
        bytes@
    };
    proof {
        assert(digits =~= bytes@.subrange(start as int, n as int));
    }
    if start == n {
        return None;
    }
    let mut acc: i64 = 0;
    let mut i: usize = start;
    while i < n
        invariant
            start <= i <= n,
            n == bytes@.len(),
            start == 0 || start == 1,
            start < n,
            bytes@ == s.spec_bytes(),
            (start == 1) <==> (bytes@.len() > 0 && (bytes@[0] == 43 || bytes@[0] == 45)),
            negative == (bytes@.len() > 0 && bytes@[0] == 45),
            digits =~= bytes@.subrange(start as int, n as int),
            digits.len() == n - start,
            all_digits(digits.subrange(0, i - start)),
            acc == digits_val(digits.subrange(0, i - start)),
            0 <= acc <= 2147483648,
        decreases n - i,
    {
        let b = bytes[i];
        if b < 48 || b > 57 {
            assert(digits[i - start] == b);
            assert(!all_digits(digits));
            return None;
        }
        proof {
            assert(digits.subrange(0, i - start + 1).drop_last() =~= digits.subrange(
                0,
                i - start,
            ));
            assert(digits.subrange(0, i - start + 1).last() == digits[i - start]);
            assert(digits[i - start] == bytes@[i as int]);
        }
        acc = acc * 10 + ((b - 48) as i64);
        if acc > 2147483648i64 {
            proof {
                assert(acc == digits_val(digits.subrange(0, i + 1 - start)));
                if start == 1 {
                    assert(s.spec_bytes().drop_first() =~= digits);
                } else {
                    assert(s.spec_bytes() =~= digits);
                }
                if all_digits(digits) {
                    lemma_digits_val_prefix(digits, i + 1 - start);
                    assert(digits_val(digits) > 2147483648);
                }
                assert(spec_parse_i32(s.spec_bytes()) is None);
            }
            return None;
        }
        i += 1;
    }
    proof {
        assert(digits.subrange(0, (n - start) as int) =~= digits);
    }
    if negative {
        Some((-acc) as i32)
    } else {
        if acc > 2147483647i64 {
            None
        } else {
            Some(acc as i32)
        }
    }
}

} // verus!
