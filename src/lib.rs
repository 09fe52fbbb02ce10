//! Text encodings of a content stream: single-byte glyph tables, UTF-16BE
//! passthrough for two named encodings, and ToUnicode code maps.

pub mod utf16;
pub mod table;
pub mod cmap;
pub mod encodings;

pub use table::{bytes_to_string, string_to_bytes, standard_encoding, ByteToGlyphMap};
pub use cmap::ToUnicodeCMap;
pub use encodings::{Encoding, Error};
