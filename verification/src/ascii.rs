//! Escaping of arbitrary bytes into printable ASCII.
//!
//! Each byte is rendered the way Rust escapes bytes in literals: tab,
//! carriage return, newline, backslash and both quotes get a two-byte
//! backslash escape, printable ASCII stands for itself, and everything
//! else becomes `\xNN` with two lowercase hex digits.

use vstd::prelude::*;
use crate::text::{ascii_string, chars_of_ascii};

verus! {

/// The lowercase hex digit for a value below 16.
pub open spec fn hex_digit(n: u8) -> u8 {
    if n < 10 {
        (0x30 + n) as u8
    } else {
        (0x61 + (n - 10)) as u8
    }
}

/// The escape of one byte, itself a sequence of ASCII bytes.
pub open spec fn escape_byte(b: u8) -> Seq<u8> {
    if b == 0x09 {  // tab
        seq![0x5c, 0x74]
    } else if b == 0x0d {  // carriage return
        seq![0x5c, 0x72]
    } else if b == 0x0a {  // newline
        seq![0x5c, 0x6e]
    } else if b == 0x5c {  // backslash
        seq![0x5c, 0x5c]
    } else if b == 0x27 {  // single quote
        seq![0x5c, 0x27]
    } else if b == 0x22 {  // double quote
        seq![0x5c, 0x22]
    } else if 0x20 <= b && b <= 0x7e {  // printable ASCII
        seq![b]
    } else {
        seq![0x5c, 0x78, hex_digit(b / 16), hex_digit(b % 16)]
    }
}

/// The concatenated escapes of a byte sequence.
pub open spec fn escape_bytes_spec(bs: Seq<u8>) -> Seq<u8>
    decreases bs.len(),
{
    if bs.len() == 0 {
        Seq::<u8>::empty()
    } else {
        escape_bytes_spec(bs.drop_last()) + escape_byte(bs.last())
    }
}

/// The escape of one byte holds only ASCII bytes.
pub proof fn lemma_escape_byte_ascii(b: u8)
    ensures
        forall|i: int| 0 <= i < escape_byte(b).len() ==> escape_byte(b)[i] < 0x80,
{
    assert(b / 16 < 16) by (nonlinear_arith);
    assert(b % 16 < 16);
    assert(hex_digit(b / 16) < 0x80);
    assert(hex_digit(b % 16) < 0x80);
    let e = escape_byte(b);
    assert forall|i: int| 0 <= i < e.len() implies e[i] < 0x80 by {
        if !(b == 0x09 || b == 0x0d || b == 0x0a || b == 0x5c || b == 0x27 || b == 0x22) && !(
        0x20 <= b && b <= 0x7e) {
            assert(e == seq![0x5cu8, 0x78u8, hex_digit(b / 16), hex_digit(b % 16)]);
            assert(e[0] == 0x5c && e[1] == 0x78 && e[2] == hex_digit(b / 16) && e[3] == hex_digit(
                b % 16,
            ));
        }
    }
}

/// Every escaped byte is ASCII.
pub proof fn lemma_escape_bytes_ascii(bs: Seq<u8>)
    ensures
        forall|i: int| 0 <= i < escape_bytes_spec(bs).len() ==> escape_bytes_spec(bs)[i] < 0x80,
    decreases bs.len(),
{
    if bs.len() > 0 {
        lemma_escape_bytes_ascii(bs.drop_last());
        lemma_escape_byte_ascii(bs.last());
        let left = escape_bytes_spec(bs.drop_last());
        let right = escape_byte(bs.last());
        assert forall|i: int| 0 <= i < escape_bytes_spec(bs).len() implies escape_bytes_spec(
            bs,
        )[i] < 0x80 by {
            if i < left.len() {
                assert(escape_bytes_spec(bs)[i] == left[i]);
            } else {
                assert(escape_bytes_spec(bs)[i] == right[i - left.len()]);
            }
        }
    }
}

/// Escapes bytes that are not printable ASCII characters.
pub fn escape_bytes(bytes: &[u8]) -> (r: String)
    ensures
        r@ == chars_of_ascii(escape_bytes_spec(bytes@)),
{
    let mut out: Vec<u8> = Vec::new();
    let mut i: usize = 0;
    proof {
        assert(bytes@.take(0) =~= Seq::<u8>::empty());
    }
    while i < bytes.len()
        invariant
            i <= bytes@.len(),
            out@ == escape_bytes_spec(bytes@.take(i as int)),
        decreases bytes@.len() - i,
    {
        let b = bytes[i];
        if b == 0x09 {
            out.push(0x5c);
            out.push(0x74);
        } else if b == 0x0d {
            out.push(0x5c);
            out.push(0x72);
        } else if b == 0x0a {
            out.push(0x5c);
            out.push(0x6e);
        } else if b == 0x5c {
            out.push(0x5c);
            out.push(0x5c);
        } else if b == 0x27 {
            out.push(0x5c);
            out.push(0x27);
        } else if b == 0x22 {
            out.push(0x5c);
            out.push(0x22);
        } else if 0x20 <= b && b <= 0x7e {
            out.push(b);
        } else {
            out.push(0x5c);
            out.push(0x78);
            let hi = b / 16;
            let lo = b % 16;
            out.push(if hi < 10 { 0x30 + hi } else { 0x61 + (hi - 10) });
            out.push(if lo < 10 { 0x30 + lo } else { 0x61 + (lo - 10) });
        }
        proof {
            assert(bytes@.take(i + 1).drop_last() =~= bytes@.take(i as int));
            assert(bytes@.take(i + 1).last() == bytes@[i as int]);
            assert(out@ =~= escape_bytes_spec(bytes@.take(i + 1)));
        }
        i = i + 1;
    }
    proof {
        assert(bytes@.take(i as int) =~= bytes@);
        lemma_escape_bytes_ascii(bytes@);
    }
    ascii_string(out)
}

} // verus!
