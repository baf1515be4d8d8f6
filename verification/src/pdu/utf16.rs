use vstd::prelude::*;
use ironrdp_core::ReadCursor;
use ironrdp_pdu::utils::{read_string_from_cursor, to_utf16_bytes, CharacterSet};

verus! {

pub open spec fn is_high_surrogate(u: u16) -> bool {
    0xD800 <= u < 0xDC00
}

pub open spec fn is_low_surrogate(u: u16) -> bool {
    0xDC00 <= u < 0xE000
}

/// The UTF-16 code units of one character.
pub open spec fn char_utf16(c: char) -> Seq<u16> {
    let v = c as u32;
    if v < 0x10000 {
        seq![v as u16]
    } else {
        let w = v - 0x10000;
        seq![(0xD800 + w / 0x400) as u16, (0xDC00 + w % 0x400) as u16]
    }
}

/// The UTF-16 code units of a character sequence.
pub open spec fn str_utf16(s: Seq<char>) -> Seq<u16>
    decreases s.len(),
{
    if s.len() == 0 {
        seq![]
    } else {
        char_utf16(s[0]) + str_utf16(s.drop_first())
    }
}

/// The character formed by a high and a low surrogate.
pub open spec fn surrogate_pair_char(hi: u16, lo: u16) -> char {
    (0x10000 + (hi - 0xD800) * 0x400 + (lo - 0xDC00)) as char
}

/// Decodes UTF-16 code units; `None` on an unpaired surrogate.
pub open spec fn from_utf16(u: Seq<u16>) -> Option<Seq<char>>
    decreases u.len(),
{
    if u.len() == 0 {
        Some(seq![])
    } else if is_high_surrogate(u[0]) {
        if u.len() >= 2 && is_low_surrogate(u[1]) {
            match from_utf16(u.skip(2)) {
                Some(rest) => Some(seq![surrogate_pair_char(u[0], u[1])] + rest),
                None => None,
            }
        } else {
            None
        }
    } else if is_low_surrogate(u[0]) {
        None
    } else {
        match from_utf16(u.drop_first()) {
            Some(rest) => Some(seq![u[0] as char] + rest),
            None => None,
        }
    }
}

pub proof fn lemma_char_roundtrip(c: char)
    ensures
        from_utf16(char_utf16(c)) == Some(seq![c]),
{
    let v = c as u32;
    let u = char_utf16(c);
    if v < 0x10000 {
        assert(u.drop_first() =~= Seq::<u16>::empty());
        assert((v as u16) as char == c);
        assert(from_utf16(u.drop_first()) == Some(Seq::<char>::empty()));
        assert(seq![c] + Seq::<char>::empty() =~= seq![c]);
    } else {
        let w = v - 0x10000;
        assert(u.skip(2) =~= Seq::<u16>::empty());
        assert(surrogate_pair_char(u[0], u[1]) == c);
        assert(from_utf16(u.skip(2)) == Some(Seq::<char>::empty()));
        assert(seq![c] + Seq::<char>::empty() =~= seq![c]);
    }
}

/// The little-endian bytes of a 16-bit value.
pub open spec fn le16(v: u16) -> Seq<u8> {
    seq![(v % 0x100) as u8, (v / 0x100) as u8]
}

/// The little-endian bytes of a sequence of 16-bit code units.
pub open spec fn units_le_bytes(u: Seq<u16>) -> Seq<u8>
    decreases u.len(),
{
    if u.len() == 0 {
        seq![]
    } else {
        le16(u[0]) + units_le_bytes(u.drop_first())
    }
}

/// The 16-bit little-endian value stored at `b[i]`, `b[i + 1]`.
pub open spec fn u16_at(b: Seq<u8>, i: int) -> u16 {
    (b[i] as int + b[i + 1] as int * 0x100) as u16
}

/// The code units read from `b` two bytes at a time; an odd last byte is left out.
pub open spec fn le_units(b: Seq<u8>) -> Seq<u16>
    decreases b.len(),
{
    if b.len() < 2 {
        seq![]
    } else {
        seq![u16_at(b, 0)] + le_units(b.skip(2))
    }
}

/// `s` without its trailing NUL characters.
pub open spec fn trim_trailing_nul(s: Seq<char>) -> Seq<char>
    decreases s.len(),
{
    if s.len() > 0 && s.last() == '\0' {
        trim_trailing_nul(s.drop_last())
    } else {
        s
    }
}

/// The UTF-16LE encoding of a character sequence, without terminator.
pub open spec fn utf16_le_bytes(s: Seq<char>) -> Seq<u8> {
    units_le_bytes(str_utf16(s))
}

/// The string that a UTF-16LE byte field holds: its code units decoded and
/// trailing NULs removed; `None` where the units are not valid UTF-16.
pub open spec fn utf16_le_decode(b: Seq<u8>) -> Option<Seq<char>> {
    match from_utf16(le_units(b)) {
        Some(s) => Some(trim_trailing_nul(s)),
        None => None,
    }
}

pub open spec fn has_trailing_nul(s: Seq<char>) -> bool {
    s.len() > 0 && s.last() == '\0'
}

proof fn lemma_from_utf16_prepend_char(c: char, rest: Seq<u16>)
    ensures
        from_utf16(char_utf16(c) + rest) == (match from_utf16(rest) {
            Some(r) => Some(seq![c] + r),
            None => None,
        }),
{
    let v = c as u32;
    let u = char_utf16(c) + rest;
    if v < 0x10000 {
        assert(u.drop_first() =~= rest);
        assert((v as u16) as char == c);
    } else {
        assert(u.skip(2) =~= rest);
        assert(surrogate_pair_char(u[0], u[1]) == c);
    }
}

/// Decoding the UTF-16 units of a character sequence gives it back.
pub proof fn lemma_utf16_roundtrip(s: Seq<char>)
    ensures
        from_utf16(str_utf16(s)) == Some(s),
    decreases s.len(),
{
    if s.len() == 0 {
    } else {
        lemma_utf16_roundtrip(s.drop_first());
        lemma_from_utf16_prepend_char(s[0], str_utf16(s.drop_first()));
        assert(seq![s[0]] + s.drop_first() =~= s);
    }
}

/// Reading code units back from their little-endian bytes gives them back.
pub proof fn lemma_le_units_roundtrip(u: Seq<u16>)
    ensures
        le_units(units_le_bytes(u)) == u,
        units_le_bytes(u).len() == 2 * u.len(),
    decreases u.len(),
{
    if u.len() > 0 {
        lemma_le_units_roundtrip(u.drop_first());
        let b = units_le_bytes(u);
        assert(b.skip(2) =~= units_le_bytes(u.drop_first()));
        assert(u16_at(b, 0) == u[0]);
        assert(seq![u[0]] + u.drop_first() =~= u);
    }
}

/// Decoding the UTF-16LE bytes of a character sequence gives it back, less its trailing NULs.
pub proof fn lemma_utf16_le_roundtrip(s: Seq<char>)
    ensures
        utf16_le_decode(utf16_le_bytes(s)) == Some(trim_trailing_nul(s)),
        utf16_le_bytes(s).len() == 2 * str_utf16(s).len(),
{
    lemma_le_units_roundtrip(str_utf16(s));
    lemma_utf16_roundtrip(s);
}

/// Calls `ironrdp_pdu::utils::to_utf16_bytes`, which encodes the string as
/// UTF-16 and writes each code unit little-endian; the contract states that
/// encoding, no terminator added.
#[verifier::external_body]
pub(crate) fn utf16_bytes(value: &str) -> (bytes: Vec<u8>)
    ensures
        bytes@ == utf16_le_bytes(value@),
{
    to_utf16_bytes(value)
}

/// Calls `ironrdp_pdu::utils::read_string_from_cursor` with the Unicode
/// character set and no terminator on a cursor over `bytes`: it reads the
/// largest even prefix as little-endian code units, fails on invalid UTF-16,
/// and trims trailing NULs. The outside error is dropped to `None`.
#[verifier::external_body]
pub(crate) fn decode_utf16_bytes(bytes: &[u8]) -> (s: Option<String>)
    ensures
        s is Some <==> utf16_le_decode(bytes@) is Some,
        s matches Some(v) ==> v@ == utf16_le_decode(bytes@).unwrap(),
{
    let mut cursor = ReadCursor::new(bytes);
    read_string_from_cursor(&mut cursor, CharacterSet::Unicode, false).ok()
}

} // verus!
