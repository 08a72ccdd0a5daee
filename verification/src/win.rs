//! Text encodings that Win32 and Task Scheduler expect.
use vstd::prelude::*;

verus! {

/// The UTF-16 code units of one character.
pub open spec fn utf16_of_char(c: char) -> Seq<u16> {
    let u = c as u32;
    if u < 0x10000 {
        seq![u as u16]
    } else {
        let v = (u - 0x10000) as u32;
        seq![(0xD800 + v / 0x400) as u16, (0xDC00 + v % 0x400) as u16]
    }
}

/// The UTF-16 encoding of a text, as `str::encode_utf16` produces it.
pub open spec fn utf16_seq(s: Seq<char>) -> Seq<u16>
    decreases s.len(),
{
    if s.len() == 0 {
        Seq::empty()
    } else {
        utf16_seq(s.drop_last()) + utf16_of_char(s.last())
    }
}

/// Encodes one character, appending its code units to `out`.
fn push_utf16(out: &mut Vec<u16>, c: char)
    ensures
        final(out)@ == old(out)@ + utf16_of_char(c),
{
    let u = c as u32;
    if u < 0x10000 {
        out.push(u as u16);
        assert(final(out)@ =~= old(out)@ + utf16_of_char(c));
    } else {
        assert(u <= 0x10FFFF);
        let v = u - 0x10000;
        out.push((0xD800 + v / 0x400) as u16);
        out.push((0xDC00 + v % 0x400) as u16);
        assert(final(out)@ =~= old(out)@ + utf16_of_char(c));
    }
}

/// The UTF-16 code units of `s`.
pub fn encode_utf16(s: &str) -> (r: Vec<u16>)
    ensures
        r@ == utf16_seq(s@),
{
    let mut out: Vec<u16> = Vec::new();
    for c in it: s.chars()
        invariant
            out@ == utf16_seq(s@.take(it.index() as int)),
            it.seq() == s@,
    {
        let ghost k = it.index();
        assert(s@.take(k + 1).drop_last() =~= s@.take(k as int));
        push_utf16(&mut out, c);
    }
    assert(s@.take(s@.len() as int) =~= s@);
    out
}

/// `s` as a NUL-terminated UTF-16 buffer for the `*W` Win32 functions.
pub fn wide(s: &str) -> (r: Vec<u16>)
    ensures
        r@ == utf16_seq(s@).push(0u16),
{
    let mut v = encode_utf16(s);
    v.push(0u16);
    v
}

/// Little-endian bytes of UTF-16 code units.
pub open spec fn le_bytes(units: Seq<u16>) -> Seq<u8>
    decreases units.len(),
{
    if units.len() == 0 {
        Seq::empty()
    } else {
        le_bytes(units.drop_last()) + seq![
            (units.last() % 256) as u8,
            (units.last() / 256) as u8,
        ]
    }
}

/// `s` as UTF-16 little-endian bytes preceded by the byte-order mark
/// `FF FE`: the form `schtasks /xml` accepts.
pub fn utf16le_with_bom(s: &str) -> (r: Vec<u8>)
    ensures
        r@ == seq![0xFFu8, 0xFEu8] + le_bytes(utf16_seq(s@)),
{
    let units = encode_utf16(s);
    let mut out: Vec<u8> = Vec::new();
    out.push(0xFFu8);
    out.push(0xFEu8);
    let mut i: usize = 0;
    while i < units.len()
        invariant
            i <= units@.len(),
            out@ == seq![0xFFu8, 0xFEu8] + le_bytes(units@.take(i as int)),
        decreases units.len() - i,
    {
        let u = units[i];
        out.push((u % 256) as u8);
        out.push((u / 256) as u8);
        assert(units@.take(i + 1).drop_last() =~= units@.take(i as int));
        i = i + 1;
        assert(out@ =~= seq![0xFFu8, 0xFEu8] + le_bytes(units@.take(i as int)));
    }
    assert(units@.take(units@.len() as int) =~= units@);
    out
}

} // verus!
