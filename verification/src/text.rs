//! Small text helpers: string equality, ASCII conversion, and decimal
//! parsing.

use vstd::prelude::*;
use vstd::string::StringSliceAdditionalSpecFns;

verus! {

/// Compares two string slices for equality of their character
/// sequences.
pub fn str_eq(a: &str, b: &str) -> (r: bool)
    ensures
        r == (a@ == b@),
{
    let sa = String::from_str(a);
    let sb = String::from_str(b);
    sa == sb
}

/// The characters an ASCII byte sequence decodes to: each byte is the
/// character with the same code point.
pub open spec fn chars_of_ascii(bs: Seq<u8>) -> Seq<char> {
    bs.map(|_i: int, b: u8| b as char)
}

/// Relies on `String::from_utf8`: bytes below `0x80` are ASCII, valid
/// UTF-8, and decode to the characters with the same code points.
#[verifier::external_body]
pub fn ascii_string(bytes: Vec<u8>) -> (r: String)
    requires
        forall|i: int| 0 <= i < bytes@.len() ==> bytes@[i] < 0x80,
    ensures
        r@ == chars_of_ascii(bytes@),
{
    match String::from_utf8(bytes) {
        Ok(s) => s,
        Err(_) => String::new(),
    }
}

/// Strings ordered by their UTF-8 bytes, as the standard ordering on
/// strings compares them.
pub open spec fn str_bytes_le(a: String, b: String) -> bool {
    crate::shard::lex_le(vstd::utf8::encode_utf8(a@), vstd::utf8::encode_utf8(b@))
}

/// The sequence is sorted by the byte-wise string order.
pub open spec fn sorted_strings(s: Seq<String>) -> bool {
    forall|i: int, j: int| 0 <= i < j < s.len() ==> str_bytes_le(s[i], s[j])
}

/// Compares two strings in the byte-wise order.
pub fn str_le(a: &String, b: &String) -> (r: bool)
    ensures
        r == str_bytes_le(*a, *b),
{
    crate::shard::bytes_le(a.as_str().as_bytes(), b.as_str().as_bytes())
}

/// The character sequences of a list of strings.
pub open spec fn views_of_strings(s: Seq<String>) -> Seq<Seq<char>> {
    s.map(|_i: int, x: String| x@)
}

/// Removing an element commutes with taking views.
pub proof fn lemma_views_remove(s: Seq<String>, i: int)
    requires
        0 <= i < s.len(),
    ensures
        views_of_strings(s.remove(i)) =~= views_of_strings(s).remove(i),
{
}

/// Appending an element commutes with taking views.
pub proof fn lemma_views_push(s: Seq<String>, x: String)
    ensures
        views_of_strings(s.push(x)) =~= views_of_strings(s).push(x@),
{
}

/// Sorts strings into the byte-wise order; the result holds the same
/// strings (and so the same character sequences), each as often as
/// before.
pub fn sort_strings(v: &mut Vec<String>)
    ensures
        final(v)@.len() == old(v)@.len(),
        final(v)@.to_multiset() == old(v)@.to_multiset(),
        views_of_strings(final(v)@).to_multiset() == views_of_strings(old(v)@).to_multiset(),
        sorted_strings(final(v)@),
{
    broadcast use vstd::seq_lib::group_to_multiset_ensures;

    let mut out: Vec<String> = Vec::new();
    proof {
        assert(out@.to_multiset().add(v@.to_multiset()) =~= old(v)@.to_multiset());
        assert(views_of_strings(out@).to_multiset().add(views_of_strings(v@).to_multiset())
            =~= views_of_strings(old(v)@).to_multiset());
    }
    while v.len() > 0
        invariant
            out@.to_multiset().add(v@.to_multiset()) == old(v)@.to_multiset(),
            views_of_strings(out@).to_multiset().add(views_of_strings(v@).to_multiset())
                == views_of_strings(old(v)@).to_multiset(),
            out@.len() + v@.len() == old(v)@.len(),
            sorted_strings(out@),
            forall|i: int, j: int|
                0 <= i < out@.len() && 0 <= j < v@.len() ==> str_bytes_le(out@[i], v@[j]),
        decreases v@.len(),
    {
        let mut m: usize = 0;
        let mut k: usize = 1;
        while k < v.len()
            invariant
                0 <= m < k <= v@.len(),
                forall|j: int| 0 <= j < k ==> str_bytes_le(v@[m as int], v@[j]),
            decreases v@.len() - k,
        {
            let ghost m_before = m as int;
            if !str_le(&v[m], &v[k]) {
                proof {
                    crate::shard::lemma_lex_lt_trichotomy(
                        vstd::utf8::encode_utf8(v@[m_before]@),
                        vstd::utf8::encode_utf8(v@[k as int]@),
                    );
                }
                m = k;
            }
            proof {
                assert forall|j: int| 0 <= j <= k implies str_bytes_le(v@[m as int], v@[j]) by {
                    if m as int != m_before && j < k {
                        crate::shard::lemma_lex_le_transitive(
                            vstd::utf8::encode_utf8(v@[k as int]@),
                            vstd::utf8::encode_utf8(v@[m_before]@),
                            vstd::utf8::encode_utf8(v@[j]@),
                        );
                    }
                }
            }
            k = k + 1;
        }
        let ghost out_before = out@;
        let ghost v_before = v@;
        let picked = v.remove(m);
        out.push(picked);
        proof {
            assert(v_before.contains(v_before[m as int]));
            vstd::seq_lib::to_multiset_remove(v_before, m as int);
            vstd::seq_lib::to_multiset_build(out_before, picked);
            vstd::seq_lib::to_multiset_contains(v_before, picked);
            assert(v_before.to_multiset().count(picked) > 0);
            assert(v@.to_multiset() == v_before.to_multiset().remove(picked));
            assert(out@.to_multiset() =~= out_before.to_multiset().insert(picked));
            broadcast use vstd::multiset::group_multiset_axioms;

            assert(out@.to_multiset().add(v@.to_multiset()) =~= old(v)@.to_multiset());
            lemma_views_remove(v_before, m as int);
            lemma_views_push(out_before, picked);
            vstd::seq_lib::to_multiset_remove(views_of_strings(v_before), m as int);
            vstd::seq_lib::to_multiset_build(views_of_strings(out_before), picked@);
            vstd::seq_lib::to_multiset_contains(views_of_strings(v_before), picked@);
            assert(views_of_strings(v_before)[m as int] == picked@);
            assert(views_of_strings(v_before).contains(picked@));
            assert(views_of_strings(v@).to_multiset() == views_of_strings(
                v_before,
            ).to_multiset().remove(picked@));
            assert(views_of_strings(out@).to_multiset() =~= views_of_strings(
                out_before,
            ).to_multiset().insert(picked@));
            assert(views_of_strings(out@).to_multiset().add(views_of_strings(v@).to_multiset())
                =~= views_of_strings(old(v)@).to_multiset());
            assert forall|i: int, j: int|
                0 <= i < out@.len() && 0 <= j < v@.len() implies str_bytes_le(out@[i], v@[j]) by {
                let orig: int = if j < m { j } else { j + 1 };
                assert(v@[j] == v_before[orig]);
                assert(str_bytes_le(v_before[m as int], v_before[orig]));
                if i < out@.len() - 1 {
                    assert(out@[i] == out_before[i]);
                    assert(str_bytes_le(out_before[i], v_before[orig]));
                } else {
                    assert(out@[i] == picked);
                }
            }
        }
    }
    *v = out;
}

/// The numeric value of a decimal digit byte, or 10 for any other byte.
pub open spec fn digit_value(b: u8) -> int {
    if 0x30 <= b <= 0x39 {
        b - 0x30
    } else {
        10
    }
}

/// Every byte is a decimal digit.
pub open spec fn all_digits(digits: Seq<u8>) -> bool {
    forall|i: int| 0 <= i < digits.len() ==> digit_value(digits[i]) < 10
}

/// The value of a digit sequence read in base ten.
pub open spec fn decimal_value(digits: Seq<u8>) -> int
    decreases digits.len(),
{
    if digits.len() == 0 {
        0
    } else {
        decimal_value(digits.drop_last()) * 10 + digit_value(digits.last())
    }
}

/// A decimal value is never negative.
pub proof fn lemma_decimal_value_nonneg(digits: Seq<u8>)
    ensures
        decimal_value(digits) >= 0,
    decreases digits.len(),
{
    if digits.len() > 0 {
        lemma_decimal_value_nonneg(digits.drop_last());
    }
}

/// Reading more digits never shrinks the value.
pub proof fn lemma_decimal_prefix_le(digits: Seq<u8>, i: int)
    requires
        0 <= i <= digits.len(),
    ensures
        decimal_value(digits.take(i)) <= decimal_value(digits),
    decreases digits.len() - i,
{
    if i == digits.len() {
        assert(digits.take(i) =~= digits);
    } else {
        lemma_decimal_prefix_le(digits, i + 1);
        assert(digits.take(i + 1).drop_last() =~= digits.take(i));
        lemma_decimal_value_nonneg(digits.take(i));
    }
}

/// The bytes spell an unsigned decimal: an optional leading `+`, then at
/// least one digit, with a value that fits in 64 bits.
pub open spec fn spec_parse_u64(bytes: Seq<u8>) -> Option<u64> {
    let digits = if bytes.len() > 0 && bytes[0] == 0x2b {
        bytes.skip(1)
    } else {
        bytes
    };
    if digits.len() == 0 || !all_digits(digits) {
        None
    } else if decimal_value(digits) > u64::MAX {
        None
    } else {
        Some(decimal_value(digits) as u64)
    }
}

/// Parses an unsigned decimal with an optional leading `+`, rejecting
/// anything else and any value past 64 bits.
pub fn parse_u64(s: &str) -> (r: Option<u64>)
    ensures
        r == spec_parse_u64(s.spec_bytes()),
{
    let bytes = s.as_bytes();
    let mut start: usize = 0;
    if bytes.len() > 0 && bytes[0] == 0x2b {
        start = 1;
    }
    let ghost digits = if start == 1 {
        bytes@.skip(1)
    } else {
        bytes@
    };
    proof {
        if start == 0 {
            assert(bytes@.skip(0) =~= bytes@);
        }
        assert(digits == bytes@.skip(start as int));
    }
    if bytes.len() == start {
        return None;
    }
    let mut value: u64 = 0;
    let mut i: usize = start;
    proof {
        assert(digits.take(0) =~= Seq::<u8>::empty());
    }
    while i < bytes.len()
        invariant
            start <= i <= bytes@.len(),
            start <= 1,
            bytes@ == s.spec_bytes(),
            start == 1 <==> bytes@.len() > 0 && bytes@[0] == 0x2b,
            bytes@.len() > start,
            digits == bytes@.skip(start as int),
            digits == (if bytes@.len() > 0 && bytes@[0] == 0x2b {
                bytes@.skip(1)
            } else {
                bytes@
            }),
            all_digits(digits.take(i - start)),
            value == decimal_value(digits.take(i - start)),
        decreases bytes@.len() - i,
    {
        let b = bytes[i];
        proof {
            assert(digits[i - start] == bytes@[i as int]);
            assert(digits.take(i - start + 1).drop_last() =~= digits.take(i - start));
            assert(digits.take(i - start + 1).last() == digits[i - start]);
        }
        if b < 0x30 || b > 0x39 {
            proof {
                assert(digit_value(digits[i - start]) >= 10);
                assert(!all_digits(digits));
                assert(bytes@ == s.spec_bytes());
                assert(spec_parse_u64(bytes@) is None);
            }
            return None;
        }
        let d = b - 0x30;
        if value > u64::MAX / 10 || (value == u64::MAX / 10 && d > 5) {
            proof {
                let k = i - start;
                assert(decimal_value(digits.take(k + 1)) == value * 10 + digit_value(digits[k]));
                assert(digit_value(digits[k]) == d);
                assert(10 * (u64::MAX / 10) + (u64::MAX % 10) == u64::MAX);
                assert(u64::MAX % 10 == 5) by (nonlinear_arith);
                assert(value * 10 + d > u64::MAX);
                lemma_decimal_prefix_le(digits, k + 1);
                assert(decimal_value(digits) > u64::MAX);
                assert(spec_parse_u64(bytes@) is None);
            }
            return None;
        }
        value = value * 10 + d as u64;
        i = i + 1;
    }
    proof {
        assert(digits.take(i - start) =~= digits);
    }
    Some(value)
}

} // verus!
