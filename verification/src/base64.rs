//! Base64 (standard alphabet, padded) for raw bytes inside JSON bodies.
//!
//! `encode` and `decode` are inverse on every byte string, see
//! `law_decode_inverts_encode`.
use crate::text::{decimal_string, digit};
use vstd::prelude::*;
use vstd::string::*;
use vstd::utf8::*;

verus! {

/// Why a text is not base64.
pub enum Fault {
    /// The text's length in bytes, which is no multiple of four.
    Length(usize),
    /// A group goes on after its padding.
    PadThenData,
    /// A byte outside the alphabet.
    BadChar(u8),
}

/// The character that stands for the six-bit value `n`.
pub open spec fn sextet_char(n: int) -> char {
    if n < 26 {
        (('A' as u32) + n) as char
    } else if n < 52 {
        (('a' as u32) + n - 26) as char
    } else if n < 62 {
        (('0' as u32) + n - 52) as char
    } else if n == 62 {
        '+'
    } else {
        '/'
    }
}

/// The six-bit value that the byte `c` stands for, where it is in the alphabet.
pub open spec fn sextet_value(c: u8) -> Option<u8> {
    if 65 <= c <= 90 {
        Some((c - 65) as u8)
    } else if 97 <= c <= 122 {
        Some((c - 97 + 26) as u8)
    } else if 48 <= c <= 57 {
        Some((c - 48 + 52) as u8)
    } else if c == 43 {
        Some(62u8)
    } else if c == 47 {
        Some(63u8)
    } else {
        None
    }
}

/// The padding character as a byte.
pub const PAD: u8 = 61;

/// The base64 text of `b`: four characters for each three bytes, the last
/// group padded.
pub open spec fn encoded(b: Seq<u8>) -> Seq<char>
    decreases b.len(),
{
    if b.len() == 0 {
        Seq::empty()
    } else if b.len() == 1 {
        seq![sextet_char(b[0] as int / 4), sextet_char((b[0] as int % 4) * 16), '=', '=']
    } else if b.len() == 2 {
        seq![
            sextet_char(b[0] as int / 4),
            sextet_char((b[0] as int % 4) * 16 + b[1] as int / 16),
            sextet_char((b[1] as int % 16) * 4),
            '=',
        ]
    } else {
        encoded_triple(b) + encoded(b.skip(3))
    }
}

pub open spec fn encoded_triple(b: Seq<u8>) -> Seq<char> {
    seq![
        sextet_char(b[0] as int / 4),
        sextet_char((b[0] as int % 4) * 16 + b[1] as int / 16),
        sextet_char((b[1] as int % 16) * 4 + b[2] as int / 64),
        sextet_char(b[2] as int % 64),
    ]
}

/// What is wrong with position `j` of the group `g`: nothing for padding or
/// for an alphabet byte with no padding before it.
pub open spec fn position_fault(g: Seq<u8>, j: int) -> Option<Fault> {
    if g[j] == PAD {
        None
    } else if exists|i: int| 0 <= i < j && g[i] == PAD {
        Some(Fault::PadThenData)
    } else if sextet_value(g[j]) is None {
        Some(Fault::BadChar(g[j]))
    } else {
        None
    }
}

/// The first fault in the group `g` of four bytes.
pub open spec fn group_fault(g: Seq<u8>) -> Option<Fault> {
    if position_fault(g, 0) is Some {
        position_fault(g, 0)
    } else if position_fault(g, 1) is Some {
        position_fault(g, 1)
    } else if position_fault(g, 2) is Some {
        position_fault(g, 2)
    } else {
        position_fault(g, 3)
    }
}

/// The value at position `j`, where padding counts as zero.
pub open spec fn value_at(g: Seq<u8>, j: int) -> int {
    if g[j] == PAD {
        0
    } else {
        sextet_value(g[j])->0 as int
    }
}

/// How many of the four bytes are padding.
pub open spec fn pads(g: Seq<u8>) -> int {
    (if g[0] == PAD { 1int } else { 0 }) + (if g[1] == PAD { 1int } else { 0 }) + (if g[2] == PAD {
        1int
    } else {
        0
    }) + (if g[3] == PAD { 1int } else { 0 })
}

/// The bytes of one group: three, less one for each padding character, and at
/// least one.
pub open spec fn group_bytes(g: Seq<u8>) -> Seq<u8> {
    let b0 = (value_at(g, 0) * 4 + value_at(g, 1) / 16) as u8;
    let b1 = ((value_at(g, 1) % 16) * 16 + value_at(g, 2) / 4) as u8;
    let b2 = ((value_at(g, 2) % 4) * 64 + value_at(g, 3)) as u8;
    if pads(g) < 1 {
        seq![b0, b1, b2]
    } else if pads(g) < 2 {
        seq![b0, b1]
    } else {
        seq![b0]
    }
}

/// The bytes that the groups of `s` stand for, or the first fault.
pub open spec fn decoded_groups(s: Seq<u8>) -> Result<Seq<u8>, Fault>
    decreases s.len(),
{
    if s.len() < 4 {
        Ok(Seq::empty())
    } else {
        match group_fault(s.take(4)) {
            Some(f) => Err(f),
            None => match decoded_groups(s.skip(4)) {
                Ok(rest) => Ok(group_bytes(s.take(4)) + rest),
                Err(f) => Err(f),
            },
        }
    }
}

/// What decoding the text with the bytes `s` gives.
pub open spec fn decoded(s: Seq<u8>) -> Result<Seq<u8>, Fault> {
    if s.len() % 4 != 0 {
        Err(Fault::Length(s.len() as usize))
    } else {
        decoded_groups(s)
    }
}

/// The lower-case hexadecimal digit with value `d`.
pub open spec fn hex_digit(d: nat) -> char {
    if d < 10 {
        digit(d)
    } else {
        (('a' as u32) + d - 10) as char
    }
}

/// `c` in hexadecimal with its `0x` prefix and no leading zero.
pub open spec fn hex_byte(c: u8) -> Seq<char> {
    if c < 16 {
        seq!['0', 'x', hex_digit(c as nat)]
    } else {
        seq!['0', 'x', hex_digit(c as nat / 16), hex_digit(c as nat % 16)]
    }
}

/// The message that reports a fault.
pub open spec fn fault_message(f: Fault) -> Seq<char> {
    match f {
        Fault::Length(n) => "base64 length "@ + crate::text::decimal(n as nat)
            + " not a multiple of 4"@,
        Fault::PadThenData => "base64: non-pad after pad"@,
        Fault::BadChar(c) => "invalid base64 char "@ + hex_byte(c),
    }
}

fn push_sextet(out: &mut String, n: u8)
    requires
        n < 64,
    ensures
        final(out)@ == old(out)@.push(sextet_char(n as int)),
{
    let c: char = if n < 26 {
        (65u8 + n) as char
    } else if n < 52 {
        (97u8 + (n - 26)) as char
    } else if n < 62 {
        (48u8 + (n - 52)) as char
    } else if n == 62 {
        '+'
    } else {
        '/'
    };
    out.push(c);
}

/// The base64 text of `input`.
pub fn encode(input: &[u8]) -> (r: String)
    ensures
        r@ == encoded(input@),
{
    let mut out = String::new();
    let mut i: usize = 0;
    assert(input@.skip(0) =~= input@);
    assert(out@ + encoded(input@) =~= encoded(input@));
    while input.len() - i >= 3
        invariant
            i <= input@.len(),
            encoded(input@) == out@ + encoded(input@.skip(i as int)),
        decreases input@.len() - i,
    {
        let ghost before = out@;
        let b0: u8 = input[i];
        let b1: u8 = input[i + 1];
        let b2: u8 = input[i + 2];
        push_sextet(&mut out, b0 / 4);
        push_sextet(&mut out, (b0 % 4) * 16 + b1 / 16);
        push_sextet(&mut out, (b1 % 16) * 4 + b2 / 64);
        push_sextet(&mut out, b2 % 64);
        proof {
            let rest = input@.skip(i as int);
            assert(rest[0] == b0 && rest[1] == b1 && rest[2] == b2);
            assert(rest.skip(3) =~= input@.skip(i + 3));
            assert(out@ =~= before + encoded_triple(rest));
            assert(before + (encoded_triple(rest) + encoded(rest.skip(3))) =~= out@ + encoded(
                input@.skip(i + 3),
            ));
        }
        i = i + 3;
    }
    let ghost before = out@;
    let ghost rest = input@.skip(i as int);
    let left: usize = input.len() - i;
    if left == 2 {
        let b0: u8 = input[i];
        let b1: u8 = input[i + 1];
        push_sextet(&mut out, b0 / 4);
        push_sextet(&mut out, (b0 % 4) * 16 + b1 / 16);
        push_sextet(&mut out, (b1 % 16) * 4);
        out.push('=');
        assert(rest[0] == b0 && rest[1] == b1);
    } else if left == 1 {
        let b0: u8 = input[i];
        push_sextet(&mut out, b0 / 4);
        push_sextet(&mut out, (b0 % 4) * 16);
        out.push('=');
        out.push('=');
        assert(rest[0] == b0);
    }
    assert(out@ =~= before + encoded(rest));
    out
}

/// The value of one alphabet byte.
pub fn decode_char(c: u8) -> (r: Result<u8, Fault>)
    ensures
        r == match sextet_value(c) {
            Some(v) => Ok::<u8, Fault>(v),
            None => Err(Fault::BadChar(c)),
        },
{
    if 65 <= c && c <= 90 {
        Ok(c - 65)
    } else if 97 <= c && c <= 122 {
        Ok(c - 97 + 26)
    } else if 48 <= c && c <= 57 {
        Ok(c - 48 + 52)
    } else if c == 43 {
        Ok(62)
    } else if c == 47 {
        Ok(63)
    } else {
        Err(Fault::BadChar(c))
    }
}

/// One position of a group: its value and the padding seen so far.
fn decode_position(g: &[u8], at: usize, j: usize, pad: u8) -> (r: Result<(u8, u8), Fault>)
    requires
        at + 4 <= g@.len(),
        j < 4,
        pad <= j,
        pad > 0 <==> exists|i: int|
            0 <= i < j && (#[trigger] g@.subrange(at as int, at + 4)[i]) == PAD,
    ensures
        match (r, position_fault(g@.subrange(at as int, at + 4), j as int)) {
            (Ok((v, p)), None) => v == value_at(g@.subrange(at as int, at + 4), j as int) && v < 64
                && p == pad + (if g@[at + j] == PAD { 1int } else { 0 }),
            (Err(f), Some(e)) => f == e,
            _ => false,
        },
{
    let len: usize = g.len();
    let c: u8 = g[at + j];
    assert(g@.subrange(at as int, at + 4)[j as int] == c);
    if c == 61 {
        return Ok((0, pad + 1));
    }
    if pad > 0 {
        return Err(Fault::PadThenData);
    }
    match decode_char(c) {
        Ok(v) => Ok((v, pad)),
        Err(f) => Err(f),
    }
}

/// The bytes of the group that starts at `at`.
fn decode_group(g: &[u8], at: usize, out: &mut Vec<u8>) -> (r: Result<(), Fault>)
    requires
        at + 4 <= g@.len(),
    ensures
        match (r, group_fault(g@.subrange(at as int, at + 4))) {
            (Ok(_), None) => final(out)@ == old(out)@ + group_bytes(
                g@.subrange(at as int, at + 4),
            ),
            (Err(f), Some(e)) => f == e,
            _ => false,
        },
{
    let ghost s = g@.subrange(at as int, at + 4);
    let (v0, p0) = match decode_position(g, at, 0, 0) {
        Ok(x) => x,
        Err(f) => return Err(f),
    };
    assert(p0 > 0 <==> s[0] == PAD);
    let (v1, p1) = match decode_position(g, at, 1, p0) {
        Ok(x) => x,
        Err(f) => return Err(f),
    };
    assert(p1 > 0 <==> (s[0] == PAD || s[1] == PAD));
    let (v2, p2) = match decode_position(g, at, 2, p1) {
        Ok(x) => x,
        Err(f) => return Err(f),
    };
    assert(p2 > 0 <==> (s[0] == PAD || s[1] == PAD || s[2] == PAD));
    let (v3, p3) = match decode_position(g, at, 3, p2) {
        Ok(x) => x,
        Err(f) => return Err(f),
    };
    let ghost start = out@;
    out.push(v0 * 4 + v1 / 16);
    if p3 < 2 {
        out.push((v1 % 16) * 16 + v2 / 4);
    }
    if p3 < 1 {
        out.push((v2 % 4) * 64 + v3);
    }
    proof {
        assert(p3 as int == pads(s));
        assert(out@ =~= start + group_bytes(s));
    }
    Ok(())
}

/// The message for a fault.
pub fn describe(f: Fault) -> (r: String)
    ensures
        r@ == fault_message(f),
{
    match f {
        Fault::Length(n) => {
            let mut s = "base64 length ".to_owned();
            s.append(decimal_string(n as u64).as_str());
            s.append(" not a multiple of 4");
            s
        },
        Fault::PadThenData => "base64: non-pad after pad".to_owned(),
        Fault::BadChar(c) => {
            let mut s = "invalid base64 char ".to_owned();
            let ghost head = s@;
            s.push('0');
            s.push('x');
            if c >= 16 {
                s.push(hex_char(c / 16));
            }
            s.push(hex_char(c % 16));
            assert(s@ =~= head + hex_byte(c));
            s
        },
    }
}

fn hex_char(d: u8) -> (r: char)
    requires
        d < 16,
    ensures
        r == hex_digit(d as nat),
{
    if d < 10 {
        (48u8 + d) as char
    } else {
        (97u8 + (d - 10)) as char
    }
}

/// The bytes that the base64 text `input` stands for.
pub fn decode(input: &str) -> (r: Result<Vec<u8>, String>)
    ensures
        match (r, decoded(input.spec_bytes())) {
            (Ok(v), Ok(b)) => v@ == b,
            (Err(m), Err(f)) => m@ == fault_message(f),
            _ => false,
        },
{
    let bytes = input.as_bytes();
    if bytes.len() % 4 != 0 {
        return Err(describe(Fault::Length(bytes.len())));
    }
    let mut out: Vec<u8> = Vec::new();
    let mut i: usize = 0;
    proof {
        assert(bytes@.skip(0) =~= bytes@);
        match decoded_groups(bytes@) {
            Ok(rest) => {
                assert(out@ + rest =~= rest);
            },
            Err(_) => {},
        }
    }
    while i < bytes.len()
        invariant
            bytes@.len() % 4 == 0,
            bytes@ == input.spec_bytes(),
            i <= bytes@.len(),
            i % 4 == 0,
            decoded(input.spec_bytes()) == match decoded_groups(bytes@.skip(i as int)) {
                Ok(rest) => Ok::<Seq<u8>, Fault>(out@ + rest),
                Err(f) => Err(f),
            },
        decreases bytes@.len() - i,
    {
        let ghost before = out@;
        proof {
            assert(bytes@.skip(i as int).take(4) =~= bytes@.subrange(i as int, i + 4));
            assert(bytes@.skip(i as int).skip(4) =~= bytes@.skip(i + 4));
        }
        match decode_group(bytes, i, &mut out) {
            Ok(_) => {},
            Err(f) => return Err(describe(f)),
        }
        proof {
            let g = bytes@.subrange(i as int, i + 4);
            match decoded_groups(bytes@.skip(i + 4)) {
                Ok(rest) => {
                    assert(before + (group_bytes(g) + rest) =~= out@ + rest);
                },
                Err(_) => {},
            }
        }
        i = i + 4;
    }
    proof {
        assert(out@ + Seq::<u8>::empty() =~= out@);
    }
    Ok(out)
}

proof fn lemma_sextet(n: int)
    requires
        0 <= n < 64,
    ensures
        (sextet_char(n) as u32) < 128,
        (sextet_char(n) as u8) != PAD,
        sextet_value(sextet_char(n) as u8) == Some(n as u8),
{
}

pub open spec fn ascii_bytes(s: Seq<char>) -> Seq<u8> {
    Seq::new(s.len(), |i: int| s[i] as u8)
}

proof fn lemma_encoded_ascii(b: Seq<u8>)
    ensures
        is_ascii_chars(encoded(b)),
        encoded(b).len() == (b.len() + 2) / 3 * 4,
    decreases b.len(),
{
    if b.len() >= 3 {
        lemma_encoded_ascii(b.skip(3));
        lemma_sextet(b[0] as int / 4);
        lemma_sextet((b[0] as int % 4) * 16 + b[1] as int / 16);
        lemma_sextet((b[1] as int % 16) * 4 + b[2] as int / 64);
        lemma_sextet(b[2] as int % 64);
    } else if b.len() == 2 {
        lemma_sextet(b[0] as int / 4);
        lemma_sextet((b[0] as int % 4) * 16 + b[1] as int / 16);
        lemma_sextet((b[1] as int % 16) * 4);
    } else if b.len() == 1 {
        lemma_sextet(b[0] as int / 4);
        lemma_sextet((b[0] as int % 4) * 16);
    }
}

proof fn lemma_triple(b: Seq<u8>)
    requires
        b.len() >= 3,
    ensures
        group_fault(ascii_bytes(encoded_triple(b))) is None,
        group_bytes(ascii_bytes(encoded_triple(b))) == b.take(3),
{
    let g = ascii_bytes(encoded_triple(b));
    lemma_sextet(b[0] as int / 4);
    lemma_sextet((b[0] as int % 4) * 16 + b[1] as int / 16);
    lemma_sextet((b[1] as int % 16) * 4 + b[2] as int / 64);
    lemma_sextet(b[2] as int % 64);
    assert(value_at(g, 0) == b[0] as int / 4);
    assert(value_at(g, 1) == (b[0] as int % 4) * 16 + b[1] as int / 16);
    assert(value_at(g, 2) == (b[1] as int % 16) * 4 + b[2] as int / 64);
    assert(value_at(g, 3) == b[2] as int % 64);
    assert(group_bytes(g) =~= b.take(3));
}

proof fn lemma_tail(b: Seq<u8>)
    requires
        1 <= b.len() <= 2,
    ensures
        group_fault(ascii_bytes(encoded(b))) is None,
        group_bytes(ascii_bytes(encoded(b))) == b,
{
    let g = ascii_bytes(encoded(b));
    lemma_sextet(b[0] as int / 4);
    if b.len() == 2 {
        lemma_sextet((b[0] as int % 4) * 16 + b[1] as int / 16);
        lemma_sextet((b[1] as int % 16) * 4);
        assert(value_at(g, 1) == (b[0] as int % 4) * 16 + b[1] as int / 16);
        assert(value_at(g, 2) == (b[1] as int % 16) * 4);
    } else {
        lemma_sextet((b[0] as int % 4) * 16);
        assert(value_at(g, 1) == (b[0] as int % 4) * 16);
    }
    assert(value_at(g, 0) == b[0] as int / 4);
    assert(group_bytes(g) =~= b);
}

proof fn lemma_roundtrip(b: Seq<u8>)
    ensures
        decoded_groups(ascii_bytes(encoded(b))) == Ok::<Seq<u8>, Fault>(b),
    decreases b.len(),
{
    let s = ascii_bytes(encoded(b));
    if b.len() == 0 {
        assert(b =~= Seq::empty());
    } else if b.len() >= 3 {
        lemma_triple(b);
        lemma_roundtrip(b.skip(3));
        assert(s.take(4) =~= ascii_bytes(encoded_triple(b)));
        assert(s.skip(4) =~= ascii_bytes(encoded(b.skip(3))));
        assert(b.take(3) + b.skip(3) =~= b);
    } else {
        lemma_tail(b);
        assert(s.take(4) =~= s);
        assert(s.skip(4).len() == 0);
        assert(decoded_groups(s.skip(4)) == Ok::<Seq<u8>, Fault>(Seq::empty()));
        assert(b + Seq::<u8>::empty() =~= b);
    }
}

/// Decoding gives back what was encoded, for every byte string.
pub proof fn law_decode_inverts_encode(b: Seq<u8>)
    ensures
        decoded(encode_utf8(encoded(b))) == Ok::<Seq<u8>, Fault>(b),
{
    lemma_encoded_ascii(b);
    is_ascii_chars_encode_utf8(encoded(b));
    assert(encode_utf8(encoded(b)) =~= ascii_bytes(encoded(b)));
    lemma_roundtrip(b);
}

/// The text of `b` has four characters for each three bytes begun.
pub proof fn law_encoded_length(b: Seq<u8>)
    ensures
        encoded(b).len() == (b.len() + 2) / 3 * 4,
{
    lemma_encoded_ascii(b);
}

} // verus!
