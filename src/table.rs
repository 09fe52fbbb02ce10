//! Single-byte encodings given by a table of 256 optional code units.

use vstd::prelude::*;
use crate::utf16::{char_units, is_surrogate, lossy_scalars, scalars, text_from_utf16_lossy, text_utf16_units, utf16_units};

verus! {

/// Slot `b` holds the code unit that byte `b` stands for, if any.
pub type ByteToGlyphMap = [Option<u16>; 256];

/// The code units that decoding `b` against table `t` keeps: unmapped bytes are dropped.
pub open spec fn table_decode_units(t: Seq<Option<u16>>, b: Seq<u8>) -> Seq<u16>
    decreases b.len(),
{
    if b.len() == 0 {
        seq![]
    } else {
        let prev = table_decode_units(t, b.drop_last());
        match t[b.last() as int] {
            Some(c) => prev.push(c),
            None => prev,
        }
    }
}

/// The first slot at or after `i` that holds `u`.
pub open spec fn first_slot_from(t: Seq<Option<u16>>, u: u16, i: int) -> Option<int>
    decreases t.len() - i,
{
    if i < 0 || i >= t.len() {
        None
    } else if t[i] == Some(u) {
        Some(i)
    } else {
        first_slot_from(t, u, i + 1)
    }
}

/// The smallest byte whose slot holds `u`, if any.
pub open spec fn first_byte_for(t: Seq<Option<u16>>, u: u16) -> Option<int> {
    first_slot_from(t, u, 0)
}

/// The bytes that encoding code units `u` against table `t` gives: each unit
/// becomes the smallest byte that maps to it, or nothing.
pub open spec fn table_encode_units(t: Seq<Option<u16>>, u: Seq<u16>) -> Seq<u8>
    decreases u.len(),
{
    if u.len() == 0 {
        seq![]
    } else {
        let prev = table_encode_units(t, u.drop_last());
        match first_byte_for(t, u.last()) {
            Some(b) => prev.push(b as u8),
            None => prev,
        }
    }
}

/// A single byte decoded against a table and encoded back: an unmapped byte
/// decodes to the empty text; a byte mapped to a code unit outside the
/// surrogate range, and the smallest byte mapped to that unit, comes back
/// unchanged. `s` is the text that decoding gives.
pub proof fn lemma_single_byte_round_trip(t: Seq<Option<u16>>, b: u8, s: Seq<char>)
    requires
        t.len() == 256,
        scalars(s) == lossy_scalars(table_decode_units(t, seq![b])),
    ensures
        t[b as int] is None ==> s.len() == 0,
        t[b as int] matches Some(c) && !is_surrogate(c) && first_byte_for(t, c) == Some(b as int)
            ==> table_encode_units(t, utf16_units(s)) == seq![b],
{
    let one = seq![b];
    assert(one.drop_last() =~= Seq::<u8>::empty());
    assert(one.last() == b);
    assert(table_decode_units(t, one.drop_last()) == Seq::<u16>::empty());
    assert(scalars(s).len() == s.len());
    match t[b as int] {
        None => {
            assert(table_decode_units(t, one) == Seq::<u16>::empty());
        },
        Some(c) => {
            let units = table_decode_units(t, one);
            assert(units =~= seq![c]);
            if !is_surrogate(c) {
                assert(units.drop_first() =~= Seq::<u16>::empty());
                assert(lossy_scalars(units.drop_first()) == Seq::<u32>::empty());
                assert(lossy_scalars(units) =~= seq![c as u32]);
                assert(s.len() == 1);
                assert(scalars(s)[0] == s[0] as u32);
                assert(s.drop_first() =~= Seq::<char>::empty());
                assert(char_units(s[0]) =~= seq![c]);
                assert(utf16_units(s.drop_first()) == Seq::<u16>::empty());
                assert(utf16_units(s) =~= seq![c]);
                assert(seq![c].drop_last() =~= Seq::<u16>::empty());
                assert(table_encode_units(t, seq![c].drop_last()) == Seq::<u8>::empty());
                assert(seq![c].last() == c);
                if first_byte_for(t, c) == Some(b as int) {
                    assert(table_encode_units(t, seq![c]) =~= seq![b]);
                }
            }
        },
    }
}

/// Decodes `bytes` against `encoding`: each mapped byte gives its code unit, an
/// unmapped byte gives nothing, and the units are read as UTF-16 with unpaired
/// surrogates replaced by U+FFFD.
pub fn bytes_to_string(encoding: &ByteToGlyphMap, bytes: &[u8]) -> (r: String)
    ensures
        scalars(r@) == lossy_scalars(table_decode_units(encoding@, bytes@)),
{
    let mut units: Vec<u16> = Vec::new();
    let mut i: usize = 0;
    while i < bytes.len()
        invariant
            i <= bytes@.len(),
            units@ == table_decode_units(encoding@, bytes@.subrange(0, i as int)),
        decreases bytes@.len() - i,
    {
        let b = bytes[i];
        assert(bytes@.subrange(0, i + 1).drop_last() == bytes@.subrange(0, i as int));
        if let Some(c) = encoding[b as usize] {
            units.push(c);
        }
        i = i + 1;
    }
    assert(bytes@.subrange(0, i as int) == bytes@);
    text_from_utf16_lossy(units.as_slice())
}

/// The smallest byte that `table` maps to `u`, if any.
fn first_byte_of(table: &ByteToGlyphMap, u: u16) -> (r: Option<u8>)
    ensures
        r matches Some(b) ==> first_byte_for(table@, u) == Some(b as int),
        r is None ==> first_byte_for(table@, u) is None,
{
    let mut i: usize = 0;
    while i < 256
        invariant
            i <= 256,
            table@.len() == 256,
            first_slot_from(table@, u, 0) == first_slot_from(table@, u, i as int),
        decreases 256 - i,
    {
        if table[i] == Some(u) {
            return Some(i as u8);
        }
        i = i + 1;
    }
    None
}

/// Encodes `text` against `encoding`: each UTF-16 code unit becomes the smallest
/// byte that maps to it; a unit that no byte maps to is dropped.
pub fn string_to_bytes(encoding: &ByteToGlyphMap, text: &str) -> (r: Vec<u8>)
    ensures
        r@ == table_encode_units(encoding@, utf16_units(text@)),
{
    let units = text_utf16_units(text);
    let mut out: Vec<u8> = Vec::new();
    let mut i: usize = 0;
    while i < units.len()
        invariant
            i <= units@.len(),
            out@ == table_encode_units(encoding@, units@.subrange(0, i as int)),
        decreases units@.len() - i,
    {
        assert(units@.subrange(0, i + 1).drop_last() == units@.subrange(0, i as int));
        if let Some(b) = first_byte_of(encoding, units[i]) {
            out.push(b);
        }
        i = i + 1;
    }
    assert(units@.subrange(0, i as int) == units@);
    out
}


/// The standard Latin text encoding of Type 1 fonts, byte by byte.
pub open spec fn standard_glyph(b: u8) -> Option<u16> {
    if b == 0x27 {
        Some(0x2019u16)
    } else if b == 0x60 {
        Some(0x2018u16)
    } else if 0x20 <= b && b <= 0x7E {
        Some(b as u16)
    } else {
        match b {
            0xA1 => Some(0x00A1u16),
            0xA2 => Some(0x00A2u16),
            0xA3 => Some(0x00A3u16),
            0xA4 => Some(0x2044u16),
            0xA5 => Some(0x00A5u16),
            0xA6 => Some(0x0192u16),
            0xA7 => Some(0x00A7u16),
            0xA8 => Some(0x00A4u16),
            0xA9 => Some(0x0027u16),
            0xAA => Some(0x201Cu16),
            0xAB => Some(0x00ABu16),
            0xAC => Some(0x2039u16),
            0xAD => Some(0x203Au16),
            0xAE => Some(0xFB01u16),
            0xAF => Some(0xFB02u16),
            0xB1 => Some(0x2013u16),
            0xB2 => Some(0x2020u16),
            0xB3 => Some(0x2021u16),
            0xB4 => Some(0x00B7u16),
            0xB6 => Some(0x00B6u16),
            0xB7 => Some(0x2022u16),
            0xB8 => Some(0x201Au16),
            0xB9 => Some(0x201Eu16),
            0xBA => Some(0x201Du16),
            0xBB => Some(0x00BBu16),
            0xBC => Some(0x2026u16),
            0xBD => Some(0x2030u16),
            0xBF => Some(0x00BFu16),
            0xC1 => Some(0x0060u16),
            0xC2 => Some(0x00B4u16),
            0xC3 => Some(0x02C6u16),
            0xC4 => Some(0x02DCu16),
            0xC5 => Some(0x00AFu16),
            0xC6 => Some(0x02D8u16),
            0xC7 => Some(0x02D9u16),
            0xC8 => Some(0x00A8u16),
            0xCA => Some(0x02DAu16),
            0xCB => Some(0x00B8u16),
            0xCD => Some(0x02DDu16),
            0xCE => Some(0x02DBu16),
            0xCF => Some(0x02C7u16),
            0xD0 => Some(0x2014u16),
            0xE1 => Some(0x00C6u16),
            0xE3 => Some(0x00AAu16),
            0xE8 => Some(0x0141u16),
            0xE9 => Some(0x00D8u16),
            0xEA => Some(0x0152u16),
            0xEB => Some(0x00BAu16),
            0xF1 => Some(0x00E6u16),
            0xF5 => Some(0x0131u16),
            0xF8 => Some(0x0142u16),
            0xF9 => Some(0x00F8u16),
            0xFA => Some(0x0153u16),
            0xFB => Some(0x00DFu16),
            _ => None,
        }
    }
}

fn standard_glyph_of(b: u8) -> (r: Option<u16>)
    ensures
        r == standard_glyph(b),
{
    if b == 0x27 {
        Some(0x2019u16)
    } else if b == 0x60 {
        Some(0x2018u16)
    } else if 0x20 <= b && b <= 0x7E {
        Some(b as u16)
    } else {
        match b {
            0xA1 => Some(0x00A1u16),
            0xA2 => Some(0x00A2u16),
            0xA3 => Some(0x00A3u16),
            0xA4 => Some(0x2044u16),
            0xA5 => Some(0x00A5u16),
            0xA6 => Some(0x0192u16),
            0xA7 => Some(0x00A7u16),
            0xA8 => Some(0x00A4u16),
            0xA9 => Some(0x0027u16),
            0xAA => Some(0x201Cu16),
            0xAB => Some(0x00ABu16),
            0xAC => Some(0x2039u16),
            0xAD => Some(0x203Au16),
            0xAE => Some(0xFB01u16),
            0xAF => Some(0xFB02u16),
            0xB1 => Some(0x2013u16),
            0xB2 => Some(0x2020u16),
            0xB3 => Some(0x2021u16),
            0xB4 => Some(0x00B7u16),
            0xB6 => Some(0x00B6u16),
            0xB7 => Some(0x2022u16),
            0xB8 => Some(0x201Au16),
            0xB9 => Some(0x201Eu16),
            0xBA => Some(0x201Du16),
            0xBB => Some(0x00BBu16),
            0xBC => Some(0x2026u16),
            0xBD => Some(0x2030u16),
            0xBF => Some(0x00BFu16),
            0xC1 => Some(0x0060u16),
            0xC2 => Some(0x00B4u16),
            0xC3 => Some(0x02C6u16),
            0xC4 => Some(0x02DCu16),
            0xC5 => Some(0x00AFu16),
            0xC6 => Some(0x02D8u16),
            0xC7 => Some(0x02D9u16),
            0xC8 => Some(0x00A8u16),
            0xCA => Some(0x02DAu16),
            0xCB => Some(0x00B8u16),
            0xCD => Some(0x02DDu16),
            0xCE => Some(0x02DBu16),
            0xCF => Some(0x02C7u16),
            0xD0 => Some(0x2014u16),
            0xE1 => Some(0x00C6u16),
            0xE3 => Some(0x00AAu16),
            0xE8 => Some(0x0141u16),
            0xE9 => Some(0x00D8u16),
            0xEA => Some(0x0152u16),
            0xEB => Some(0x00BAu16),
            0xF1 => Some(0x00E6u16),
            0xF5 => Some(0x0131u16),
            0xF8 => Some(0x0142u16),
            0xF9 => Some(0x00F8u16),
            0xFA => Some(0x0153u16),
            0xFB => Some(0x00DFu16),
            _ => None,
        }
    }
}

/// The standard Latin text encoding as a sequence of 256 slots.
pub open spec fn standard_table() -> Seq<Option<u16>> {
    Seq::new(256, |i: int| standard_glyph(i as u8))
}

/// The standard Latin text encoding as a table: the default for text whose
/// named encoding is not otherwise understood.
pub fn standard_encoding() -> (t: ByteToGlyphMap)
    ensures
        t@ == standard_table(),
{
    let mut t: ByteToGlyphMap = [None; 256];
    let mut i: usize = 0;
    while i < 256
        invariant
            i <= 256,
            t@.len() == 256,
            forall|j: int| 0 <= j < i ==> #[trigger] t@[j] == standard_glyph(j as u8),
        decreases 256 - i,
    {
        t[i] = standard_glyph_of(i as u8);
        i = i + 1;
    }
    assert(t@ =~= standard_table());
    t
}

} // verus!
