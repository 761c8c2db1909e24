use orbfont::font::{announced_fonts, PARSE_FAILURE};
use orbfont::Font;

fn push_u16(out: &mut Vec<u8>, v: u16) {
    out.extend_from_slice(&v.to_be_bytes());
}

fn push_u32(out: &mut Vec<u8>, v: u32) {
    out.extend_from_slice(&v.to_be_bytes());
}

/// The smallest face the parser accepts: a table directory with `head`,
/// `hhea` and `maxp`, placed `base` bytes into the file.
fn minimal_face(base: u32) -> Vec<u8> {
    let mut out = Vec::new();
    push_u32(&mut out, 0x0001_0000);
    push_u16(&mut out, 3);
    push_u16(&mut out, 32);
    push_u16(&mut out, 1);
    push_u16(&mut out, 16);
    let tables = base + 12 + 3 * 16;
    for (tag, offset, len) in [(b"head", 0u32, 54u32), (b"hhea", 54, 36), (b"maxp", 90, 6)] {
        out.extend_from_slice(tag);
        push_u32(&mut out, 0);
        push_u32(&mut out, tables + offset);
        push_u32(&mut out, len);
    }
    // head
    let mut head = vec![0u8; 54];
    head[0..4].copy_from_slice(&0x0001_0000u32.to_be_bytes());
    head[12..16].copy_from_slice(&0x5F0F_3CF5u32.to_be_bytes());
    head[18..20].copy_from_slice(&1000u16.to_be_bytes());
    out.extend_from_slice(&head);
    // hhea
    let mut hhea = vec![0u8; 36];
    hhea[0..4].copy_from_slice(&0x0001_0000u32.to_be_bytes());
    hhea[4..6].copy_from_slice(&800i16.to_be_bytes());
    hhea[6..8].copy_from_slice(&(-200i16).to_be_bytes());
    hhea[34..36].copy_from_slice(&1u16.to_be_bytes());
    out.extend_from_slice(&hhea);
    // maxp
    push_u32(&mut out, 0x0000_5000);
    push_u16(&mut out, 1);
    out
}

/// A collection that announces `count` fonts, each entry pointing at the
/// one face that follows the header.
fn collection(count: u32) -> Vec<u8> {
    let mut out = Vec::new();
    out.extend_from_slice(b"ttcf");
    push_u32(&mut out, 0x0001_0000);
    push_u32(&mut out, count);
    let base = 12 + 4 * count;
    for _ in 0..count {
        push_u32(&mut out, base);
    }
    out.extend_from_slice(&minimal_face(base));
    out
}

fn leak(data: Vec<u8>) -> &'static [u8] {
    Vec::leak(data)
}

#[test]
fn single_font_loads() {
    assert!(Font::from_data(leak(minimal_face(0))).is_ok());
    assert!(Font::from_vec(minimal_face(0)).is_ok());
}

#[test]
fn loaded_font_can_be_cloned() {
    let font = Font::from_vec(minimal_face(0)).ok().unwrap();
    let copy = font.clone();
    assert_eq!(font.inner().units_per_em(), 1000);
    assert_eq!(copy.inner().units_per_em(), 1000);
    assert_eq!(copy.inner().glyph_count(), 1);
}

#[test]
fn garbage_is_a_parse_error() {
    assert_eq!(Font::from_data(b"not a font at all").err().unwrap(), PARSE_FAILURE);
    assert_eq!(Font::from_vec(vec![0u8; 64]).err().unwrap(), PARSE_FAILURE);
    assert_eq!(
        Font::from_vec(Vec::new()).err().unwrap(),
        "error constructing a Font from bytes"
    );
    assert_eq!(
        Font::from_data(&[]).err().unwrap(),
        "error constructing a Font from bytes"
    );
}

#[test]
fn truncated_font_is_a_parse_error() {
    let mut face = minimal_face(0);
    face.truncate(80);
    assert!(Font::from_vec(face.clone()).is_err());
    assert!(Font::from_data(leak(face)).is_err());
}

#[test]
fn collection_of_one_loads() {
    assert!(Font::from_vec(collection(1)).is_ok());
    assert!(Font::from_data(leak(collection(1))).is_ok());
}

#[test]
fn empty_collection_is_rejected() {
    assert_eq!(Font::from_vec(collection(0)).err().unwrap(), PARSE_FAILURE);
    assert_eq!(Font::from_data(leak(collection(0))).err().unwrap(), PARSE_FAILURE);
}

#[test]
fn collection_of_several_is_rejected() {
    for count in [2u32, 3, 17] {
        assert_eq!(Font::from_vec(collection(count)).err().unwrap(), PARSE_FAILURE);
        assert_eq!(Font::from_data(leak(collection(count))).err().unwrap(), PARSE_FAILURE);
    }
}

#[test]
fn collection_with_short_header_is_rejected() {
    assert!(Font::from_vec(b"ttcf".to_vec()).is_err());
    assert!(Font::from_vec(b"ttcf\x00\x01\x00\x00\x00\x00\x00".to_vec()).is_err());
}

#[test]
fn announced_fonts_reads_the_header() {
    assert_eq!(announced_fonts(&[]), 1);
    assert_eq!(announced_fonts(b"OTTO"), 1);
    assert_eq!(announced_fonts(b"ttc"), 1);
    assert_eq!(announced_fonts(&minimal_face(0)), 1);
    assert_eq!(announced_fonts(b"ttcf"), 0);
    assert_eq!(announced_fonts(b"ttcf\x00\x01\x00\x00\x00\x00\x00"), 0);
    assert_eq!(announced_fonts(b"ttcf\x00\x01\x00\x00\x00\x00\x00\x00"), 0);
    assert_eq!(announced_fonts(b"ttcf\x00\x01\x00\x00\x00\x00\x00\x01"), 1);
    assert_eq!(announced_fonts(b"ttcf\x00\x02\x00\x00\x00\x00\x01\x02"), 258);
    assert_eq!(announced_fonts(b"ttcf\x00\x02\x00\x00\x01\x02\x03\x04rest"), 0x0102_0304);
    assert_eq!(announced_fonts(b"ttcf\x00\x02\x00\x00\xff\xff\xff\xff"), u32::MAX);
}

#[test]
fn fetched_bytes_are_parsed() {
    assert!(Font::from_fetched("Arial", Some(minimal_face(0))).is_ok());
    assert_eq!(
        Font::from_fetched("Arial", Some(vec![1, 2, 3])).err().unwrap(),
        "error constructing a Font from bytes"
    );
    assert_eq!(Font::from_fetched("Arial", Some(collection(2))).err().unwrap(), PARSE_FAILURE);
}

#[test]
fn missing_bytes_name_the_match() {
    assert_eq!(
        Font::from_fetched("Arial", None).err().unwrap(),
        "Could not get font Arial from data"
    );
    assert_eq!(
        Font::from_fetched("", None).err().unwrap(),
        "Could not get font  from data"
    );
}
