//! Lower-case hexadecimal encoding of bytes, and its decoding.
use vstd::prelude::*;

use vstd::utf8::encode_utf8;

use crate::text::string_of;

verus! {

/// The lower-case hex digit for `d < 16`.
pub open spec fn hex_digit(d: nat) -> char {
    if d < 10 {
        ((48 + d) as u8) as char
    } else {
        ((87 + d) as u8) as char
    }
}

/// Two lower-case hex digits per byte, high nibble first.
pub open spec fn hex_of(b: Seq<u8>) -> Seq<char>
    decreases b.len(),
{
    if b.len() == 0 {
        Seq::empty()
    } else {
        hex_of(b.drop_last()) + seq![
            hex_digit((b.last() / 16) as nat),
            hex_digit((b.last() % 16) as nat),
        ]
    }
}

fn digit(d: u8) -> (c: char)
    requires
        d < 16,
    ensures
        c == hex_digit(d as nat),
{
    if d < 10 {
        (48u8 + d) as char
    } else {
        (87u8 + d) as char
    }
}

/// Encodes bytes as lower-case hex, two digits per byte.
pub fn hex_encode(bytes: &[u8]) -> (r: String)
    ensures
        r@ == hex_of(bytes@),
{
    let mut out: Vec<char> = Vec::new();
    let mut i: usize = 0;
    while i < bytes.len()
        invariant
            0 <= i <= bytes@.len(),
            out@ == hex_of(bytes@.take(i as int)),
        decreases bytes@.len() - i,
    {
        let b = bytes[i];
        out.push(digit(b / 16));
        out.push(digit(b % 16));
        assert(bytes@.take(i + 1).drop_last() =~= bytes@.take(i as int));
        i = i + 1;
    }
    assert(bytes@.take(i as int) =~= bytes@);
    string_of(&out)
}

/// The value of an ASCII hex digit of either case.
pub open spec fn hex_value(c: u8) -> Option<u8> {
    if 48 <= c <= 57 {
        Some((c - 48) as u8)
    } else if 97 <= c <= 102 {
        Some((c - 87) as u8)
    } else if 65 <= c <= 70 {
        Some((c - 55) as u8)
    } else {
        None
    }
}

/// The byte that two hex digits stand for, high nibble first; `None` where
/// either is not a hex digit.
pub open spec fn pair_byte(a: u8, b: u8) -> Option<u8> {
    match (hex_value(a), hex_value(b)) {
        (Some(h), Some(l)) => Some((h * 16 + l) as u8),
        _ => None,
    }
}

/// The bytes that hex text of even length stands for, pair by pair.
pub open spec fn pairs_decoded(t: Seq<u8>) -> Option<Seq<u8>>
    decreases t.len(),
{
    if t.len() < 2 {
        Some(Seq::empty())
    } else {
        match (pair_byte(t[0], t[1]), pairs_decoded(t.skip(2))) {
            (Some(v), Some(rest)) => Some(seq![v] + rest),
            _ => None,
        }
    }
}

/// The bytes that hex text stands for; `None` where its length is odd or it
/// holds anything but hex digits.
pub open spec fn hex_decoded(t: Seq<u8>) -> Option<Seq<u8>> {
    if t.len() % 2 != 0 {
        None
    } else {
        pairs_decoded(t)
    }
}

fn value(c: u8) -> (r: Option<u8>)
    ensures
        r == hex_value(c),
{
    if 48 <= c && c <= 57 {
        Some(c - 48)
    } else if 97 <= c && c <= 102 {
        Some(c - 87)
    } else if 65 <= c && c <= 70 {
        Some(c - 55)
    } else {
        None
    }
}

fn byte_of_pair(a: u8, b: u8) -> (r: Option<u8>)
    ensures
        r == pair_byte(a, b),
{
    match (value(a), value(b)) {
        (Some(h), Some(l)) => Some(h * 16 + l),
        _ => None,
    }
}

/// Decodes hex text (of either case) into bytes: `None` where its length in
/// bytes is odd or it holds anything but hex digits.
pub fn hex_decode(value: &str) -> (r: Option<Vec<u8>>)
    ensures
        match r {
            Some(v) => hex_decoded(encode_utf8(value@)) == Some(v@),
            None => hex_decoded(encode_utf8(value@)) is None,
        },
{
    let t = value.as_bytes();
    let n = t.len();
    if n % 2 != 0 {
        return None;
    }
    let mut out: Vec<u8> = Vec::new();
    let mut i: usize = 0;
    assert(t@.skip(0) =~= t@);
    while i < n
        invariant
            0 <= i <= n == t@.len(),
            n % 2 == 0,
            i % 2 == 0,
            t@ == encode_utf8(value@),
            pairs_decoded(t@) == match pairs_decoded(t@.skip(i as int)) {
                Some(rest) => Some(out@ + rest),
                None => None,
            },
        decreases n - i,
    {
        let ghost rest = t@.skip(i as int);
        assert(rest[0] == t@[i as int] && rest[1] == t@[i + 1]);
        assert(rest.skip(2) =~= t@.skip(i + 2));
        match byte_of_pair(t[i], t[i + 1]) {
            Some(v) => {
                let ghost before_push = out@;
                out.push(v);
                proof {
                    match pairs_decoded(t@.skip(i + 2)) {
                        Some(r2) => {
                            assert(before_push + (seq![v] + r2) =~= out@ + r2);
                        },
                        None => {},
                    }
                }
            },
            None => {
                return None;
            },
        }
        i = i + 2;
    }
    assert(t@.skip(i as int).len() == 0);
    assert(out@ + Seq::<u8>::empty() =~= out@);
    Some(out)
}

} // verus!
