//! UTF-16 code units, their big-endian byte form, and the conversions
//! between text and code units that the codecs rely on.

use encoding::Encoding as _;
use vstd::prelude::*;

verus! {

pub open spec fn is_surrogate(u: u16) -> bool {
    0xD800 <= u <= 0xDFFF
}

pub open spec fn is_high_surrogate(u: u16) -> bool {
    0xD800 <= u <= 0xDBFF
}

pub open spec fn is_low_surrogate(u: u16) -> bool {
    0xDC00 <= u <= 0xDFFF
}

/// The scalar values of a text, one per char.
pub open spec fn scalars(s: Seq<char>) -> Seq<u32> {
    s.map_values(|c: char| c as u32)
}

/// The UTF-16 code units of one char.
pub open spec fn char_units(c: char) -> Seq<u16> {
    let v = c as u32;
    if v < 0x10000 {
        seq![v as u16]
    } else {
        seq![(0xD800 + (v - 0x10000) / 0x400) as u16, (0xDC00 + (v - 0x10000) % 0x400) as u16]
    }
}

/// The UTF-16 code units of a text.
pub open spec fn utf16_units(s: Seq<char>) -> Seq<u16>
    decreases s.len(),
{
    if s.len() == 0 {
        seq![]
    } else {
        char_units(s[0]) + utf16_units(s.drop_first())
    }
}

/// Scalar values decoded from code units, each unpaired surrogate becoming U+FFFD.
pub open spec fn lossy_scalars(u: Seq<u16>) -> Seq<u32>
    decreases u.len(),
{
    if u.len() == 0 {
        seq![]
    } else if u.len() >= 2 && is_high_surrogate(u[0]) && is_low_surrogate(u[1]) {
        seq![(0x10000 + (u[0] - 0xD800) * 0x400 + (u[1] - 0xDC00)) as u32] + lossy_scalars(
            u.subrange(2, u.len() as int),
        )
    } else if is_surrogate(u[0]) {
        seq![0xFFFDu32] + lossy_scalars(u.drop_first())
    } else {
        seq![u[0] as u32] + lossy_scalars(u.drop_first())
    }
}

/// Each code unit as two bytes, most significant first.
pub open spec fn be_bytes(u: Seq<u16>) -> Seq<u8>
    decreases u.len(),
{
    if u.len() == 0 {
        seq![]
    } else {
        be_bytes(u.drop_last()) + seq![(u.last() / 256) as u8, (u.last() % 256) as u8]
    }
}

/// What the UTF-16BE decoder of the `encoding` crate, with malformed input
/// ignored, makes of a byte string.
pub uninterp spec fn utf16be_decoded(b: Seq<u8>) -> Seq<char>;

/// Relies on `str::encode_utf16`: the UTF-16 code units of the text, in order.
#[verifier::external_body]
pub(crate) fn text_utf16_units(s: &str) -> (r: Vec<u16>)
    ensures
        r@ == utf16_units(s@),
{
    s.encode_utf16().collect()
}

/// Relies on `String::from_utf16_lossy`: UTF-16 decoding in which each unpaired
/// surrogate is replaced by U+FFFD.
#[verifier::external_body]
pub(crate) fn text_from_utf16_lossy(u: &[u16]) -> (r: String)
    ensures
        scalars(r@) == lossy_scalars(u@),
{
    String::from_utf16_lossy(u)
}

/// Relies on `encoding::all::UTF_16BE.encode` with `EncoderTrap::Ignore`: every
/// char of a `str` has a UTF-16 form, which is written big-endian; no error arises.
#[verifier::external_body]
pub(crate) fn utf16be_encode(s: &str) -> (r: Vec<u8>)
    ensures
        r@ == be_bytes(utf16_units(s@)),
{
    encoding::all::UTF_16BE.encode(s, encoding::EncoderTrap::Ignore).unwrap_or_default()
}

/// Relies on `encoding::all::UTF_16BE.decode` with `DecoderTrap::Ignore`: the
/// ignore trap never stops decoding, and well-formed UTF-16BE bytes decode to
/// the text they encode.
#[verifier::external_body]
pub(crate) fn utf16be_decode(b: &[u8]) -> (r: Result<String, ()>)
    ensures
        r is Ok,
        r matches Ok(t) ==> t@ == utf16be_decoded(b@),
        r matches Ok(t) ==> forall|s: Seq<char>| #[trigger] be_bytes(utf16_units(s)) == b@ ==> t@ == s,
{
    encoding::all::UTF_16BE.decode(b, encoding::DecoderTrap::Ignore).map_err(|_| ())
}

} // verus!
