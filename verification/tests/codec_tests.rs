//! Tests of the byte-order decoders.

use chunk_parser::codec;
use chunk_parser::engine::HeaderParser;
use chunk_parser::iff::{IffParser, IffParserCustom};
use chunk_parser::error::Error;

#[test]
fn u16_values() {
    assert_eq!(codec::u16_from_le(0x34, 0x12), 0x1234);
    assert_eq!(codec::u16_from_be(0x12, 0x34), 0x1234);
}

#[test]
fn u32_values() {
    assert_eq!(codec::u32_from_le(&[0x78, 0x56, 0x34, 0x12]), 0x12345678);
    assert_eq!(codec::u32_from_be(&[0x12, 0x34, 0x56, 0x78]), 0x12345678);
}

#[test]
fn u64_values() {
    let le = [0xf0, 0xde, 0xbc, 0x9a, 0x78, 0x56, 0x34, 0x12];
    let be = [0x12, 0x34, 0x56, 0x78, 0x9a, 0xbc, 0xde, 0xf0];
    assert_eq!(codec::u64_from_le(&le), 0x123456789abcdef0);
    assert_eq!(codec::u64_from_be(&be), 0x123456789abcdef0);
}

#[test]
fn be_equals_le_of_reversed() {
    let b = [0x01, 0x02, 0x03, 0x04, 0x05, 0x06, 0x07, 0x08];
    let mut r = b;
    r.reverse();
    assert_eq!(codec::u16_from_be(b[0], b[1]), codec::u16_from_le(b[1], b[0]));
    assert_eq!(
        codec::u32_from_be(&[b[0], b[1], b[2], b[3]]),
        codec::u32_from_le(&[b[3], b[2], b[1], b[0]])
    );
    assert_eq!(codec::u64_from_be(&b), codec::u64_from_le(&r));
}

#[test]
fn header_decode_is_exact() {
    let mut p = IffParser::cursor(
        vec![0x46, 0x4f, 0x52, 0x4d, 0x00, 0x00, 0x00, 0x10, 0xaa, 0xbb],
    );
    let h = p.header().unwrap();
    assert_eq!(h.typeid, *b"FORM");
    assert_eq!(h.length, 16);
}

#[test]
fn custom_header_subtracts_its_own_bytes() {
    let mut p = IffParserCustom::cursor(
        vec![0x46, 0x4f, 0x52, 0x4d, 0x00, 0x00, 0x00, 0x10, 0xaa, 0xbb],
    );
    let h = p.header().unwrap();
    assert_eq!(h.typeid, *b"FORM");
    assert_eq!(h.length, 8);
}

#[test]
fn custom_header_refuses_a_length_below_eight() {
    let mut p = IffParserCustom::cursor(
        vec![0x46, 0x4f, 0x52, 0x4d, 0x00, 0x00, 0x00, 0x07],
    );
    let r = p.header();
    assert!(matches!(r, Err(Error::ParseError)));
}
