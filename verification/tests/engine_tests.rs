//! Tests of the parse engine over IFF-style containers.

use chunk_parser::bodies::{
    DepthCheckBody, DescendBody, FixedSizeBody, SkipBody, SkipWithHeaderBody, TagSkipBody,
};
use chunk_parser::engine::{validate, ChunkParser, Step};
use chunk_parser::error::{Error, IoErrorKind};
use chunk_parser::iff::{IffParser, IffParserCustom};
use chunk_parser::parser::{ParserDepth, ParserSeek};
use chunk_parser::reader::ByteReader;

// A 24-byte container: a FORM group whose 16-byte payload is a 4-byte
// sub-format tag followed by one 12-byte TEST chunk (header + 4 data bytes).
const DATA: [u8; 24] = [
    0x46, 0x4f, 0x52, 0x4d, // "FORM" chunk typeid
    0x00, 0x00, 0x00, 0x10, // chunk size (16 bytes)
    0x54, 0x45, 0x53, 0x54, // sub-format typeid ("TEST")
    0x54, 0x45, 0x53, 0x54, // "TEST" chunk typeid
    0x00, 0x00, 0x00, 0x04, // chunk size (4 bytes)
    0x01, 0x02, 0x03, 0x04, // test data
];

#[test]
fn without_macro() {
    let cursor = ByteReader::new(DATA.to_vec());
    let mut iff = IffParser::new(cursor);
    let r = iff.parse(&TagSkipBody { want: *b"FORM" });
    assert!(matches!(r, Ok(())));
}

#[test]
fn with_macro() {
    let cursor = ByteReader::new(DATA.to_vec());
    let mut iff = IffParser::new(cursor);
    let r = iff.parse(&SkipBody);
    assert!(matches!(r, Ok(())));
}

#[test]
fn cursor() {
    let r = IffParser::cursor(DATA.to_vec()).parse(&SkipBody);
    assert!(matches!(r, Ok(())));
}

#[test]
fn custom() {
    let mut iff = IffParserCustom::cursor(DATA.to_vec());
    let r = iff.parse(&SkipWithHeaderBody);
    assert!(matches!(r, Ok(())));
}

#[test]
fn nested_group_parses_to_end() {
    // The 24-byte container parses to completion through the
    // group body, with depth 0 at the end and the final position 24.
    let mut iff = IffParser::cursor(DATA.to_vec());
    let body = DescendBody { group_tag: *b"FORM", inner: SkipBody };
    let r = iff.parse(&body);
    assert!(matches!(r, Ok(())));
    assert_eq!(iff.depth(), 0);
    assert_eq!(iff.position(), Ok(24));
}

#[test]
fn short_outer_size_is_a_mismatch() {
    // The same container, with the outer declared size one byte
    // short (15): the inner chunk ends past its region's end offset, which
    // must fail as a size mismatch, after the inner chunk completed.
    let mut data = DATA.to_vec();
    data[7] = 0x0f;
    let mut iff = IffParser::cursor(data);
    let body = DescendBody { group_tag: *b"FORM", inner: SkipBody };
    let r = iff.parse(&body);
    assert!(matches!(r, Err(Error::ParseError)));
    assert_eq!(iff.depth(), 0);
}

#[test]
fn depth_is_one_inside_a_group() {
    // The depth tracker pairs entry and exit around the recursive descent:
    // inside the group the depth is exactly one, outside it is zero.
    let mut iff = IffParser::cursor(DATA.to_vec());
    let body = DescendBody { group_tag: *b"FORM", inner: DepthCheckBody { want: 1 } };
    let r = iff.parse(&body);
    assert!(matches!(r, Ok(())));
    assert_eq!(iff.depth(), 0);
}

#[test]
fn depth_is_zero_at_top_level() {
    let mut data = Vec::new();
    data.extend_from_slice(b"TEST");
    data.extend_from_slice(&[0x00, 0x00, 0x00, 0x04]);
    data.extend_from_slice(&[0x01, 0x02, 0x03, 0x04]);
    let mut iff = IffParser::cursor(data);
    let r = iff.parse(&DepthCheckBody { want: 0 });
    assert!(matches!(r, Ok(())));
}

#[test]
fn depth_restored_after_failure_inside_group() {
    // The wrong expected depth makes the inner body fail; the depth tracker
    // must still come back to zero on the failure path.
    let mut iff = IffParser::cursor(DATA.to_vec());
    let body = DescendBody { group_tag: *b"FORM", inner: DepthCheckBody { want: 2 } };
    let r = iff.parse(&body);
    assert!(matches!(r, Err(Error::ParseError)));
    assert_eq!(iff.depth(), 0);
}

#[test]
fn underdeclared_size_is_a_mismatch() {
    // The body consumes 8 bytes but declares 9: the engine must fail with
    // the size-mismatch kind, never silently continue.
    let mut iff = IffParser::cursor(DATA.to_vec());
    let r = iff.parse(&FixedSizeBody { consume: 8, declare: 9 });
    assert!(matches!(r, Err(Error::ParseError)));
}

#[test]
fn overdeclared_size_is_a_mismatch() {
    let mut iff = IffParser::cursor(DATA.to_vec());
    let r = iff.parse(&FixedSizeBody { consume: 8, declare: 7 });
    assert!(matches!(r, Err(Error::ParseError)));
}

#[test]
fn declared_end_past_size_type_is_an_overflow() {
    // start + declared size exceeds the size type: a fatal overflow, never
    // silently wrapped.
    let mut iff = IffParser::cursor(DATA.to_vec());
    let r = iff.parse(&FixedSizeBody { consume: 0, declare: u64::MAX });
    assert!(matches!(r, Err(Error::SizeOverflow)));
}

#[test]
fn region_ending_short_fails_on_next_header() {
    // The last chunk ends short of the region's end with no further valid
    // header behind it: the next header read must fail and propagate.
    let mut data = Vec::new();
    data.extend_from_slice(b"TEST");
    data.extend_from_slice(&[0x00, 0x00, 0x00, 0x04]);
    data.extend_from_slice(&[0x01, 0x02, 0x03, 0x04]);
    data.extend_from_slice(&[0xff, 0xff, 0xff]); // trailing garbage, too short for a header
    let mut iff = IffParser::cursor(data);
    let r = iff.parse(&SkipBody);
    assert!(matches!(r, Err(Error::IoError(IoErrorKind::UnexpectedEof))));
}

#[test]
fn unknown_tag_is_reported_by_the_body() {
    let mut iff = IffParser::cursor(DATA.to_vec());
    let r = iff.parse(&TagSkipBody { want: *b"LIST" });
    assert!(matches!(r, Err(Error::UnknownChunk)));
}

#[test]
fn truncated_header_is_a_short_read() {
    let mut iff = IffParser::cursor(DATA[..7].to_vec());
    let r = iff.parse(&SkipBody);
    assert!(matches!(r, Err(Error::IoError(IoErrorKind::UnexpectedEof))));
}

#[test]
fn two_chunks_in_sequence() {
    // Two sibling chunks exactly filling the source: the loop continues
    // after the first and terminates after the second.
    let mut data = Vec::new();
    data.extend_from_slice(b"ONE ");
    data.extend_from_slice(&[0x00, 0x00, 0x00, 0x02]);
    data.extend_from_slice(&[0xaa, 0xbb]);
    data.extend_from_slice(b"TWO ");
    data.extend_from_slice(&[0x00, 0x00, 0x00, 0x01]);
    data.extend_from_slice(&[0xcc]);
    let mut iff = IffParser::cursor(data);
    let r = iff.parse(&SkipBody);
    assert!(matches!(r, Ok(())));
    assert_eq!(iff.position(), Ok(19));
    assert_eq!(iff.depth(), 0);
}

#[test]
fn consuming_to_the_region_end_succeeds_whatever_was_declared() {
    // The region-exhausted check comes first: a body that lands exactly on
    // the region's end offset ends the loop successfully even though its
    // declared size disagrees with its consumption.
    let mut iff = IffParser::cursor(DATA.to_vec());
    let r = iff.parse(&FixedSizeBody { consume: 16, declare: 15 });
    assert!(matches!(r, Ok(())));
}

#[test]
fn group_payload_too_small_for_subtype() {
    // A group chunk whose declared payload cannot hold the four-byte
    // sub-format tag is malformed.
    let mut data = Vec::new();
    data.extend_from_slice(b"FORM");
    data.extend_from_slice(&[0x00, 0x00, 0x00, 0x03]);
    data.extend_from_slice(&[0x01, 0x02, 0x03]);
    let mut iff = IffParser::cursor(data);
    let body = DescendBody { group_tag: *b"FORM", inner: SkipBody };
    let r = iff.parse(&body);
    assert!(matches!(r, Err(Error::ParseError)));
}

#[test]
fn custom_header_length_below_header_size_is_malformed() {
    let mut data = Vec::new();
    data.extend_from_slice(b"FORM");
    data.extend_from_slice(&[0x00, 0x00, 0x00, 0x07]); // counts the header, so at least 8
    let mut iff = IffParserCustom::cursor(data);
    let r = iff.parse(&SkipWithHeaderBody);
    assert!(matches!(r, Err(Error::ParseError)));
}

#[test]
fn custom_loop_continues_between_chunks() {
    // Two chunks of the header-counting variant, each sixteen bytes in all:
    // the body consumes the eight payload bytes and declares zero, which the
    // custom loop tops up with the eight header bytes it accounts for.
    let mut data = Vec::new();
    data.extend_from_slice(b"ONE ");
    data.extend_from_slice(&[0x00, 0x00, 0x00, 0x10]);
    data.extend_from_slice(&[0x01, 0x02, 0x03, 0x04, 0x05, 0x06, 0x07, 0x08]);
    data.extend_from_slice(b"TWO ");
    data.extend_from_slice(&[0x00, 0x00, 0x00, 0x10]);
    data.extend_from_slice(&[0x11, 0x12, 0x13, 0x14, 0x15, 0x16, 0x17, 0x18]);
    let mut iff = IffParserCustom::cursor(data);
    let r = iff.parse(&FixedSizeBody { consume: 8, declare: 0 });
    assert!(matches!(r, Ok(())));
    assert_eq!(iff.position(), Ok(32));
    assert_eq!(iff.depth(), 0);
}

#[test]
fn empty_source_is_an_error() {
    // The loop always attempts a header read, so an empty source fails
    // rather than succeeding vacuously.
    let mut iff = IffParser::cursor(Vec::new());
    let r = iff.parse(&SkipBody);
    assert!(matches!(r, Err(Error::IoError(IoErrorKind::UnexpectedEof))));
}

#[test]
fn zero_length_region_is_an_error() {
    // A nested region of zero bytes still reads one header: the chunk it
    // finds belongs to the enclosing region, so consuming it overruns the
    // empty region and fails.
    let mut iff = IffParser::cursor(DATA.to_vec());
    let r = iff.subchunks(&SkipBody, 0);
    assert!(matches!(r, Err(Error::ParseError)));
    assert_eq!(iff.depth(), 0);
}

#[test]
fn validate_outcomes() {
    assert_eq!(validate(8, 16, 24, 24), Step::Done);
    assert_eq!(validate(8, 4, 12, 24), Step::Next);
    assert_eq!(validate(8, 9, 16, 24), Step::Mismatch);
    assert_eq!(validate(20, 4, 24, 23), Step::Mismatch);
    assert_eq!(validate(u64::MAX, 1, 8, 24), Step::Overflow);
}
