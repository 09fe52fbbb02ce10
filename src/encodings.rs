//! The encoding of a font's text, chosen once per font: a single-byte table,
//! a named encoding, or a ToUnicode code map.

use vstd::prelude::*;
use crate::cmap::{best_reverse, cmap_decode_pairs, cmap_decode_units, cmap_encode_units, code_at, ToUnicodeCMap};
use crate::table::{standard_encoding, standard_table, string_to_bytes, table_decode_units, table_encode_units, ByteToGlyphMap};
use crate::utf16::{be_bytes, lossy_scalars, scalars, text_from_utf16_lossy, text_utf16_units, utf16_units, utf16be_decode, utf16be_decoded, utf16be_encode};

verus! {

/// Why a text could not be decoded.
#[derive(Debug, Clone, Copy, PartialEq, Eq, Structural)]
pub enum Error {
    /// The text's named encoding is not one that can be decoded.
    ContentDecode,
}

/// The names under which decoding reads text as UTF-16BE. The second is
/// written with U+2212 MINUS SIGN where the encoding side has a hyphen.
pub open spec fn is_decode_wide_label(l: Seq<char>) -> bool {
    l == "UniGB-UCS2-H"@ || l == "UniGB\u{2212}UTF16\u{2212}H"@
}

/// The names under which encoding writes text as UTF-16BE.
pub open spec fn is_encode_wide_label(l: Seq<char>) -> bool {
    l == "UniGB-UCS2-H"@ || l == "UniGB-UTF16-H"@
}

fn str_eq(a: &str, b: &str) -> (r: bool)
    ensures
        r == (a@ == b@),
{
    let n = a.unicode_len();
    if n != b.unicode_len() {
        return false;
    }
    let mut i: usize = 0;
    while i < n
        invariant
            n == a@.len(),
            n == b@.len(),
            i <= n,
            forall|j: int| 0 <= j < i ==> a@[j] == b@[j],
        decreases n - i,
    {
        if a.get_char(i) != b.get_char(i) {
            return false;
        }
        i = i + 1;
    }
    assert(a@ =~= b@);
    true
}

/// How the bytes of a font's strings stand for text.
pub enum Encoding<'a> {
    /// One byte per code unit, through a table.
    OneByteEncoding(&'a ByteToGlyphMap),
    /// An encoding known by name only.
    SimpleEncoding(&'a str),
    /// Two-byte source codes, through a ToUnicode code map.
    UnicodeMapEncoding(ToUnicodeCMap),
}

impl<'a> Encoding<'a> {
    /// Decodes the bytes of a string into text. Only a named encoding other
    /// than the UTF-16BE names fails; every other decoding drops or replaces
    /// what it cannot read.
    pub fn bytes_to_string(&self, bytes: &[u8]) -> (r: Result<String, Error>)
        ensures
            match self {
                Encoding::OneByteEncoding(t) => r is Ok && scalars(r->Ok_0@) == lossy_scalars(
                    table_decode_units(t@, bytes@),
                ),
                Encoding::SimpleEncoding(l) => if is_decode_wide_label(l@) {
                    &&& r is Ok
                    &&& r->Ok_0@ == utf16be_decoded(bytes@)
                    &&& forall|s: Seq<char>| #[trigger]
                        be_bytes(utf16_units(s)) == bytes@ ==> r->Ok_0@ == s
                } else {
                    r == Err::<String, Error>(Error::ContentDecode)
                },
                Encoding::UnicodeMapEncoding(m) => r is Ok && scalars(r->Ok_0@) == lossy_scalars(
                    cmap_decode_units(m@, bytes@),
                ),
            },
    {
        match self {
            Encoding::OneByteEncoding(map) => Ok(crate::table::bytes_to_string(map, bytes)),
            Encoding::SimpleEncoding(name) => {
                if str_eq(name, "UniGB-UCS2-H") || str_eq(name, "UniGB\u{2212}UTF16\u{2212}H") {
                    match utf16be_decode(bytes) {
                        Ok(s) => Ok(s),
                        Err(_) => Err(Error::ContentDecode),
                    }
                } else {
                    Err(Error::ContentDecode)
                }
            },
            Encoding::UnicodeMapEncoding(unicode_map) => {
                let mut units: Vec<u16> = Vec::new();
                let n: usize = bytes.len() / 2;
                let mut k: usize = 0;
                while k < n
                    invariant
                        n == bytes.len() / 2,
                        k <= n,
                        units@ == cmap_decode_pairs(unicode_map@, bytes@, k as int),
                    decreases n - k,
                {
                    assert(k + k + 1 < bytes.len());
                    let j: usize = k + k;
                    let code: u16 = (bytes[j] as u16) * 256 + (bytes[j + 1] as u16);
                    assert(code == code_at(bytes@, k as int));
                    let mut target = unicode_map.get_or_replacement_char(code);
                    units.append(&mut target);
                    k = k + 1;
                }
                Ok(text_from_utf16_lossy(units.as_slice()))
            },
        }
    }

    /// Encodes text into the bytes of a string. Never fails: what cannot be
    /// encoded is dropped, and a named encoding other than the UTF-16BE names
    /// falls back to the standard Latin table.
    pub fn string_to_bytes(&self, text: &str) -> (r: Vec<u8>)
        ensures
            match self {
                Encoding::OneByteEncoding(t) => r@ == table_encode_units(t@, utf16_units(text@)),
                Encoding::SimpleEncoding(l) => if is_encode_wide_label(l@) {
                    r@ == be_bytes(utf16_units(text@))
                } else {
                    r@ == table_encode_units(standard_table(), utf16_units(text@))
                },
                Encoding::UnicodeMapEncoding(m) => r@ == cmap_encode_units(
                    best_reverse(m@),
                    utf16_units(text@),
                ),
            },
    {
        match self {
            Encoding::OneByteEncoding(map) => string_to_bytes(map, text),
            Encoding::SimpleEncoding(name) => {
                if str_eq(name, "UniGB-UCS2-H") || str_eq(name, "UniGB-UTF16-H") {
                    utf16be_encode(text)
                } else {
                    let standard = standard_encoding();
                    string_to_bytes(&standard, text)
                }
            },
            Encoding::UnicodeMapEncoding(unicode_map) => {
                let rev = unicode_map.get_best_possible_reverse_map();
                let units = text_utf16_units(text);
                let mut out: Vec<u8> = Vec::new();
                let mut i: usize = 0;
                while i < units.len()
                    invariant
                        i <= units@.len(),
                        rev@ == best_reverse(unicode_map@),
                        out@ == cmap_encode_units(rev@, units@.subrange(0, i as int)),
                    decreases units@.len() - i,
                {
                    assert(units@.subrange(0, i + 1).drop_last() == units@.subrange(0, i as int));
                    if let Some(code) = rev.get(&units[i]) {
                        out.push((*code / 256) as u8);
                        out.push((*code % 256) as u8);
                    }
                    i = i + 1;
                }
                assert(units@.subrange(0, i as int) == units@);
                out
            },
        }
    }
}

/// The name "Identity-H" is neither of the UTF-16BE names: decoding under it
/// always fails with `Error::ContentDecode`, whatever the bytes, and encoding
/// under it always succeeds through the standard Latin table.
pub proof fn lemma_identity_h_is_not_wide()
    ensures
        !is_decode_wide_label("Identity-H"@),
        !is_encode_wide_label("Identity-H"@),
{
    reveal_strlit("Identity-H");
    reveal_strlit("UniGB-UCS2-H");
    reveal_strlit("UniGB\u{2212}UTF16\u{2212}H");
    reveal_strlit("UniGB-UTF16-H");
    assert("Identity-H"@[0] != "UniGB-UCS2-H"@[0]);
    assert("Identity-H"@[0] != "UniGB\u{2212}UTF16\u{2212}H"@[0]);
    assert("Identity-H"@[0] != "UniGB-UTF16-H"@[0]);
}

} // verus!
