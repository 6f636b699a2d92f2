//! Tests of the concrete scanner whose contracts pin the parse outcome by
//! the bytes.

use chunk_parser::error::{Error, IoErrorKind};
use chunk_parser::iff::IffParser;
use chunk_parser::parser::{ParserDepth, ParserSeek};

const CONTAINER: [u8; 24] = [
    0x46, 0x4f, 0x52, 0x4d, // "FORM" group typeid
    0x00, 0x00, 0x00, 0x10, // group size (16 bytes)
    0x54, 0x45, 0x53, 0x54, // sub-format typeid ("TEST")
    0x54, 0x45, 0x53, 0x54, // "TEST" chunk typeid
    0x00, 0x00, 0x00, 0x04, // chunk size (4 bytes)
    0x01, 0x02, 0x03, 0x04, // payload
];

#[test]
fn scan_accepts_the_well_formed_container() {
    let mut iff = IffParser::cursor(CONTAINER.to_vec());
    let r = iff.scan(b"FORM");
    assert!(matches!(r, Ok(())));
    assert_eq!(iff.position(), Ok(24));
    assert_eq!(iff.depth(), 0);
}

#[test]
fn scan_rejects_the_short_outer_size_as_a_mismatch() {
    let mut data = CONTAINER.to_vec();
    data[7] = 0x0f;
    let mut iff = IffParser::cursor(data);
    let r = iff.scan(b"FORM");
    assert!(matches!(r, Err(Error::ParseError)));
    assert_eq!(iff.depth(), 0);
}

#[test]
fn scan_descends_through_two_group_levels() {
    // A group whose payload is a sub-format tag followed by the whole
    // 24-byte container: the scanner recurses through both levels and
    // returns with the depth it started at.
    let mut data = Vec::new();
    data.extend_from_slice(b"FORM");
    data.extend_from_slice(&[0x00, 0x00, 0x00, 0x1c]); // 4 + 24 payload bytes
    data.extend_from_slice(b"AAAA");
    data.extend_from_slice(&CONTAINER);
    let mut iff = IffParser::cursor(data);
    let r = iff.scan(b"FORM");
    assert!(matches!(r, Ok(())));
    assert_eq!(iff.position(), Ok(36));
    assert_eq!(iff.depth(), 0);
}

#[test]
fn scan_reports_a_mismatch_two_levels_down() {
    // The same doubly nested container, with the innermost group's size one
    // byte short: the failure surfaces as the size-mismatch kind and the
    // depth tracker unwinds to where it began.
    let mut data = Vec::new();
    data.extend_from_slice(b"FORM");
    data.extend_from_slice(&[0x00, 0x00, 0x00, 0x1c]);
    data.extend_from_slice(b"AAAA");
    data.extend_from_slice(&CONTAINER);
    data[19] = 0x0f; // the inner group's declared size, one byte short
    let mut iff = IffParser::cursor(data);
    let r = iff.scan(b"FORM");
    assert!(matches!(r, Err(Error::ParseError)));
    assert_eq!(iff.depth(), 0);
}

#[test]
fn scan_skips_plain_chunks_whole() {
    let mut data = Vec::new();
    data.extend_from_slice(b"ONE ");
    data.extend_from_slice(&[0x00, 0x00, 0x00, 0x02]);
    data.extend_from_slice(&[0xaa, 0xbb]);
    data.extend_from_slice(b"TWO ");
    data.extend_from_slice(&[0x00, 0x00, 0x00, 0x01]);
    data.extend_from_slice(&[0xcc]);
    let mut iff = IffParser::cursor(data);
    let r = iff.scan(b"FORM");
    assert!(matches!(r, Ok(())));
    assert_eq!(iff.position(), Ok(19));
}

#[test]
fn scan_rejects_a_group_too_small_for_its_subtype() {
    let mut data = Vec::new();
    data.extend_from_slice(b"FORM");
    data.extend_from_slice(&[0x00, 0x00, 0x00, 0x03]);
    data.extend_from_slice(&[0x01, 0x02, 0x03]);
    let mut iff = IffParser::cursor(data);
    let r = iff.scan(b"FORM");
    assert!(matches!(r, Err(Error::ParseError)));
}

#[test]
fn skip_region_consumes_a_well_formed_region() {
    let mut data = Vec::new();
    data.extend_from_slice(b"ONE ");
    data.extend_from_slice(&[0x00, 0x00, 0x00, 0x02]);
    data.extend_from_slice(&[0xaa, 0xbb]);
    data.extend_from_slice(b"TWO ");
    data.extend_from_slice(&[0x00, 0x00, 0x00, 0x01]);
    data.extend_from_slice(&[0xcc]);
    let mut iff = IffParser::cursor(data);
    let r = iff.skip_region(19);
    assert!(matches!(r, Ok(())));
    assert_eq!(iff.position(), Ok(19));
}

#[test]
fn skip_region_rejects_an_overrunning_chunk() {
    // The one chunk ends at offset 12, one byte past a region ending at 11.
    let mut data = Vec::new();
    data.extend_from_slice(b"TEST");
    data.extend_from_slice(&[0x00, 0x00, 0x00, 0x04]);
    data.extend_from_slice(&[0x01, 0x02, 0x03, 0x04]);
    let mut iff = IffParser::cursor(data);
    let r = iff.skip_region(11);
    assert!(matches!(r, Err(Error::ParseError)));
}

#[test]
fn skip_region_fails_short_of_an_underfilled_region() {
    // The chunk ends at 12, the region at 15, and the three bytes left
    // cannot hold another header.
    let mut data = Vec::new();
    data.extend_from_slice(b"TEST");
    data.extend_from_slice(&[0x00, 0x00, 0x00, 0x04]);
    data.extend_from_slice(&[0x01, 0x02, 0x03, 0x04]);
    data.extend_from_slice(&[0xff, 0xff, 0xff]);
    let mut iff = IffParser::cursor(data);
    let r = iff.skip_region(15);
    assert!(matches!(r, Err(Error::IoError(IoErrorKind::UnexpectedEof))));
}

#[test]
fn skip_region_reads_a_header_even_when_exhausted_on_entry() {
    let mut iff = IffParser::cursor(Vec::new());
    let r = iff.skip_region(0);
    assert!(matches!(r, Err(Error::IoError(IoErrorKind::UnexpectedEof))));
}
