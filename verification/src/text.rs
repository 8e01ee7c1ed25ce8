//! Byte-level text utilities used to assemble message payloads: ASCII
//! decimal rendering and JSON string escaping.

use vstd::prelude::*;
use vstd::string::StrSliceExecFns;
use vstd::string::StringSliceAdditionalSpecFns;

verus! {

/// The ASCII decimal digits of `n`, most significant first.
pub open spec fn dec_digits(n: nat) -> Seq<u8>
    decreases n,
{
    if n < 10 {
        seq![(0x30 + n) as u8]
    } else {
        dec_digits(n / 10).push((0x30 + (n % 10)) as u8)
    }
}

/// Render `n` in ASCII decimal.
pub fn dec_bytes(n: u64) -> (r: Vec<u8>)
    ensures
        r@ == dec_digits(n as nat),
    decreases n,
{
    if n < 10 {
        let mut digits: Vec<u8> = Vec::new();
        digits.push(0x30u8 + n as u8);
        digits
    } else {
        let mut digits = dec_bytes(n / 10);
        digits.push(0x30u8 + (n % 10) as u8);
        digits
    }
}

pub open spec fn hex_digit(d: u8) -> u8 {
    if d < 10 {
        (0x30 + d) as u8
    } else {
        (0x61 + (d - 10)) as u8
    }
}

/// How one byte of a string appears inside a JSON string literal: the
/// two-character escapes for quote, backslash and the common control
/// characters, `\u00XX` with lower-case hex for the remaining control
/// characters, and the byte itself otherwise. Bytes of multi-byte UTF-8
/// characters are above 0x7f and pass through unchanged.
pub open spec fn json_escape_byte(b: u8) -> Seq<u8> {
    if b == 0x08 {
        seq![0x5cu8, 0x62u8]
    } else if b == 0x09 {
        seq![0x5cu8, 0x74u8]
    } else if b == 0x0a {
        seq![0x5cu8, 0x6eu8]
    } else if b == 0x0c {
        seq![0x5cu8, 0x66u8]
    } else if b == 0x0d {
        seq![0x5cu8, 0x72u8]
    } else if b == 0x22 {
        seq![0x5cu8, 0x22u8]
    } else if b == 0x5c {
        seq![0x5cu8, 0x5cu8]
    } else if b < 0x20 {
        seq![0x5cu8, 0x75u8, 0x30u8, 0x30u8, hex_digit(b / 16), hex_digit(b % 16)]
    } else {
        seq![b]
    }
}

/// A byte string as it appears inside a JSON string literal.
pub open spec fn json_escaped(s: Seq<u8>) -> Seq<u8>
    decreases s.len(),
{
    if s.len() == 0 {
        Seq::empty()
    } else {
        json_escaped(s.drop_last()) + json_escape_byte(s.last())
    }
}

fn escape_byte_bytes(b: u8) -> (r: Vec<u8>)
    ensures
        r@ == json_escape_byte(b),
{
    let mut piece: Vec<u8> = Vec::new();
    if b == 0x08 {
        piece.push(0x5c);
        piece.push(0x62);
    } else if b == 0x09 {
        piece.push(0x5c);
        piece.push(0x74);
    } else if b == 0x0a {
        piece.push(0x5c);
        piece.push(0x6e);
    } else if b == 0x0c {
        piece.push(0x5c);
        piece.push(0x66);
    } else if b == 0x0d {
        piece.push(0x5c);
        piece.push(0x72);
    } else if b == 0x22 {
        piece.push(0x5c);
        piece.push(0x22);
    } else if b == 0x5c {
        piece.push(0x5c);
        piece.push(0x5c);
    } else if b < 0x20 {
        piece.push(0x5c);
        piece.push(0x75);
        piece.push(0x30);
        piece.push(0x30);
        let hi = b / 16;
        let lo = b % 16;
        piece.push(if hi < 10 { 0x30 + hi } else { 0x61 + (hi - 10) });
        piece.push(if lo < 10 { 0x30 + lo } else { 0x61 + (lo - 10) });
    } else {
        piece.push(b);
    }
    proof {
        assert(piece@ =~= json_escape_byte(b));
    }
    piece
}

/// Append the JSON-escaped form of `s` to `out`.
pub fn push_json_escaped(out: &mut Vec<u8>, s: &Vec<u8>)
    ensures
        final(out)@ == old(out)@ + json_escaped(s@),
{
    let mut i: usize = 0;
    while i < s.len()
        invariant
            i <= s@.len(),
            out@ == old(out)@ + json_escaped(s@.take(i as int)),
        decreases s@.len() - i,
    {
        let mut piece = escape_byte_bytes(s[i]);
        out.append(&mut piece);
        proof {
            assert(s@.take(i + 1 as int).drop_last() =~= s@.take(i as int));
            assert(s@.take(i + 1 as int).last() == s@[i as int]);
        }
        i = i + 1;
    }
    proof {
        assert(s@.take(s@.len() as int) =~= s@);
    }
}

/// Append the UTF-8 bytes of `text` to `out`.
pub fn push_text(out: &mut Vec<u8>, text: &str)
    ensures
        final(out)@ == old(out)@ + text.spec_bytes(),
{
    let mut piece = text.as_bytes_vec();
    out.append(&mut piece);
}

/// Append the given bytes to `out`.
pub fn push_bytes(out: &mut Vec<u8>, bytes: &Vec<u8>)
    ensures
        final(out)@ == old(out)@ + bytes@,
{
    let mut i: usize = 0;
    while i < bytes.len()
        invariant
            i <= bytes@.len(),
            out@ == old(out)@ + bytes@.take(i as int),
        decreases bytes@.len() - i,
    {
        out.push(bytes[i]);
        proof {
            assert(old(out)@ + bytes@.take(i + 1 as int) =~= (old(out)@ + bytes@.take(
                i as int,
            )).push(bytes@[i as int]));
        }
        i = i + 1;
    }
    proof {
        assert(bytes@.take(bytes@.len() as int) =~= bytes@);
    }
}

/// Append `n` in ASCII decimal to `out`.
pub fn push_dec(out: &mut Vec<u8>, n: u64)
    ensures
        final(out)@ == old(out)@ + dec_digits(n as nat),
{
    let mut digits = dec_bytes(n);
    out.append(&mut digits);
}

} // verus!
