use pdf_text_encoding::{bytes_to_string, standard_encoding, string_to_bytes};
use pdf_text_encoding::{ByteToGlyphMap, Encoding, Error, ToUnicodeCMap};

fn small_table() -> ByteToGlyphMap {
    let mut t: ByteToGlyphMap = [None; 256];
    t[0x41] = Some(0x0041);
    t[0x42] = Some(0x0042);
    t[0x10] = Some(0x00E9);
    t[0x20] = Some(0x00E9);
    t[0x01] = Some(0xD800);
    t
}

#[test]
fn table_decode_keeps_mapped_bytes_and_drops_others() {
    let t = small_table();
    assert_eq!(bytes_to_string(&t, &[0x41, 0x99, 0x42, 0x10]), "AB\u{e9}");
    assert_eq!(bytes_to_string(&t, &[]), "");
}

#[test]
fn table_decode_unmapped_byte_is_empty() {
    let t = small_table();
    assert_eq!(bytes_to_string(&t, &[0x99]), "");
}

#[test]
fn table_decode_replaces_unpaired_surrogate() {
    let t = small_table();
    assert_eq!(bytes_to_string(&t, &[0x01, 0x41]), "\u{fffd}A");
}

#[test]
fn table_encode_picks_smallest_byte_and_drops_unmapped() {
    let t = small_table();
    assert_eq!(string_to_bytes(&t, "\u{e9}AzB"), vec![0x10, 0x41, 0x42]);
    assert_eq!(string_to_bytes(&t, ""), Vec::<u8>::new());
}

#[test]
fn table_single_byte_round_trip() {
    let t = small_table();
    for b in [0x41u8, 0x42, 0x10] {
        let text = bytes_to_string(&t, &[b]);
        assert_eq!(string_to_bytes(&t, &text), vec![b]);
    }
    // a second byte for the same unit comes back as the smaller one
    let text = bytes_to_string(&t, &[0x20]);
    assert_eq!(string_to_bytes(&t, &text), vec![0x10]);
}

#[test]
fn standard_encoding_slots() {
    let t = standard_encoding();
    assert_eq!(t[0x1F], None);
    assert_eq!(t[0x20], Some(0x0020));
    assert_eq!(t[0x27], Some(0x2019));
    assert_eq!(t[0x60], Some(0x2018));
    assert_eq!(t[0x7E], Some(0x007E));
    assert_eq!(t[0x7F], None);
    assert_eq!(t[0xA9], Some(0x0027));
    assert_eq!(t[0xAE], Some(0xFB01));
    assert_eq!(t[0xFB], Some(0x00DF));
    assert_eq!(t[0xFF], None);
}

#[test]
fn one_byte_encoding_dispatch() {
    let t = small_table();
    let e = Encoding::OneByteEncoding(&t);
    assert_eq!(e.bytes_to_string(&[0x42, 0x41]), Ok("BA".to_string()));
    assert_eq!(e.string_to_bytes("BA\u{e9}"), vec![0x42, 0x41, 0x10]);
}

#[test]
fn identity_h_decode_is_an_error() {
    let e = Encoding::SimpleEncoding("Identity-H");
    assert_eq!(e.bytes_to_string(&[]), Err(Error::ContentDecode));
    assert_eq!(e.bytes_to_string(&[0x00, 0x41]), Err(Error::ContentDecode));
}

#[test]
fn identity_h_encode_uses_standard_table() {
    let e = Encoding::SimpleEncoding("Identity-H");
    assert_eq!(e.string_to_bytes("Hi\u{2019}'\u{fb01}"), vec![0x48, 0x69, 0x27, 0xA9, 0xAE]);
    assert_eq!(e.string_to_bytes("\u{e9}"), Vec::<u8>::new());
}

#[test]
fn ucs2_label_encodes_big_endian_utf16() {
    let e = Encoding::SimpleEncoding("UniGB-UCS2-H");
    assert_eq!(
        e.string_to_bytes("A\u{4e2d}\u{1f600}"),
        vec![0x00, 0x41, 0x4E, 0x2D, 0xD8, 0x3D, 0xDE, 0x00]
    );
}

#[test]
fn ucs2_label_round_trip() {
    let e = Encoding::SimpleEncoding("UniGB-UCS2-H");
    for s in ["", "A", "A\u{4e2d}\u{1f600}z", "\u{ffff}\u{10ffff}"] {
        let bytes = e.string_to_bytes(s);
        assert_eq!(e.bytes_to_string(&bytes), Ok(s.to_string()));
    }
}

#[test]
fn ucs2_label_decode_ignores_malformed_units() {
    let e = Encoding::SimpleEncoding("UniGB-UCS2-H");
    let r = e.bytes_to_string(&[0x00, 0x41, 0xDC, 0x00, 0x00, 0x42]).unwrap();
    assert!(r.starts_with('A'));
    assert!(r.ends_with('B'));
    assert!(!r.contains('\u{fffd}'));
}

#[test]
fn utf16_label_with_hyphens_only_encodes() {
    let e = Encoding::SimpleEncoding("UniGB-UTF16-H");
    assert_eq!(e.bytes_to_string(&[0x00, 0x41]), Err(Error::ContentDecode));
    assert_eq!(e.string_to_bytes("A"), vec![0x00, 0x41]);
}

#[test]
fn utf16_label_with_minus_signs_only_decodes() {
    let e = Encoding::SimpleEncoding("UniGB\u{2212}UTF16\u{2212}H");
    assert_eq!(e.bytes_to_string(&[0x00, 0x41, 0x00, 0x42]), Ok("AB".to_string()));
    assert_eq!(e.string_to_bytes("A\u{4e2d}"), vec![0x41]);
}

fn sample_cmap() -> ToUnicodeCMap {
    let mut m = ToUnicodeCMap::new();
    m.put(0x0041, vec![0x0041]);
    m.put(0x0042, vec![0x0041]);
    m.put(0x0001, vec![0x0066, 0x0069]);
    m.put(0x1234, vec![]);
    m.put(0x0300, vec![0x4E2D]);
    m
}

#[test]
fn cmap_lookup_with_replacement() {
    let m = sample_cmap();
    assert_eq!(m.get_or_replacement_char(0x0001), vec![0x0066, 0x0069]);
    assert_eq!(m.get_or_replacement_char(0x0999), vec![0xFFFD]);
    let mut m2 = sample_cmap();
    m2.put(0x0001, vec![0x0031]);
    assert_eq!(m2.get_or_replacement_char(0x0001), vec![0x0031]);
}

#[test]
fn cmap_decode_pairs_in_order() {
    let e = Encoding::UnicodeMapEncoding(sample_cmap());
    assert_eq!(
        e.bytes_to_string(&[0x00, 0x01, 0x03, 0x00, 0x12, 0x34, 0x09, 0x99]),
        Ok("fi\u{4e2d}\u{fffd}".to_string())
    );
    assert_eq!(e.bytes_to_string(&[]), Ok(String::new()));
}

#[test]
fn cmap_decode_odd_length_drops_last_byte() {
    let e = Encoding::UnicodeMapEncoding(sample_cmap());
    assert_eq!(e.bytes_to_string(&[0x00, 0x41, 0x00]), Ok("A".to_string()));
    assert_eq!(e.bytes_to_string(&[0x00]), Ok(String::new()));
    assert_eq!(
        e.bytes_to_string(&[0x00, 0x01, 0x00, 0x41, 0x07]),
        e.bytes_to_string(&[0x00, 0x01, 0x00, 0x41])
    );
}

#[test]
fn cmap_reverse_map_picks_one_code() {
    let m = sample_cmap();
    let r1 = m.get_best_possible_reverse_map();
    let r2 = m.get_best_possible_reverse_map();
    assert_eq!(r1.get(&0x0041), Some(&0x0041));
    assert_eq!(r1.get(&0x4E2D), Some(&0x0300));
    assert_eq!(r1.get(&0x0066), None);
    assert_eq!(r1.len(), 2);
    assert_eq!(r1, r2);
}

#[test]
fn cmap_encode_through_reverse_map() {
    let e = Encoding::UnicodeMapEncoding(sample_cmap());
    assert_eq!(e.string_to_bytes("A\u{4e2d}fB"), vec![0x00, 0x41, 0x03, 0x00]);
    assert_eq!(e.string_to_bytes(""), Vec::<u8>::new());
}
