//! A concrete IFF-style parser: a four-byte type tag followed by a
//! big-endian four-byte payload length, then that many payload bytes.
//!
//! `IffParser` reads headers whose declared length counts the payload alone;
//! `IffParserCustom` reads a variant whose declared length also counts the
//! eight header bytes, and replaces the engine loop accordingly.

use vstd::prelude::*;

use crate::codec;
use crate::engine::{validate, BodyHandler, ChunkParser, HeaderParser, Step};
use crate::error::{Error, IoErrorKind};
use crate::parser::{ParserDepth, ParserPath, ParserRead, ParserReader, ParserSeek, ParserView};
use crate::reader::{ByteReader, ReaderView};

verus! {

/// An IFF chunk header: a type tag and the declared payload size.
pub struct IffHeader {
    /// The chunk's four-byte type tag.
    pub typeid: [u8; 4],
    /// The declared size of the payload, excluding the header's own bytes.
    pub length: u32,
}

/// Whether two four-byte tags hold the same bytes.
pub fn tag_matches(a: &[u8; 4], b: &[u8; 4]) -> (r: bool)
    ensures
        r <==> a@ == b@,
{
    let same = a[0] == b[0] && a[1] == b[1] && a[2] == b[2] && a[3] == b[3];
    proof {
        if same {
            assert(a@ =~= b@);
        }
    }
    same
}

/// A parser over an IFF-style source, owning the byte source and the
/// nesting-depth counter.
pub struct IffParser {
    reader: ByteReader,
    depth: u8,
    path: String,
}

impl View for IffParser {
    type V = ParserView;

    closed spec fn view(&self) -> ParserView {
        ParserView { reader: self.reader@, depth: self.depth, path: self.path@ }
    }
}

impl IffParser {
    /// Wrap a reader in a parser, at depth zero, with an empty path.
    pub fn new(reader: ByteReader) -> (p: IffParser)
        ensures
            p@ == (ParserView { reader: reader@, depth: 0, path: Seq::<char>::empty() }),
    {
        IffParser { reader, depth: 0, path: String::new() }
    }

    /// Wrap an in-memory buffer in a parser, with the cursor at its start.
    pub fn cursor(data: Vec<u8>) -> (p: IffParser)
        ensures
            p@ == (ParserView {
                reader: ReaderView { data: data@, pos: 0 },
                depth: 0,
                path: Seq::<char>::empty(),
            }),
    {
        IffParser { reader: ByteReader::new(data), depth: 0, path: String::new() }
    }

    /// Wrap a buffer read from a file, recording where it came from.
    pub fn with_path(data: Vec<u8>, path: String) -> (p: IffParser)
        ensures
            p@ == (ParserView { reader: ReaderView { data: data@, pos: 0 }, depth: 0, path: path@ }),
    {
        IffParser { reader: ByteReader::new(data), depth: 0, path }
    }
}

impl ParserReader for IffParser {
    fn reader(&mut self) -> (r: &mut ByteReader) {
        &mut self.reader
    }
}

impl ParserDepth for IffParser {
    fn inner_depth(&mut self) -> (d: &mut u8) {
        &mut self.depth
    }
}

impl ParserPath for IffParser {
    fn path(&self) -> (p: &String) {
        &self.path
    }
}

impl ParserSeek for IffParser {
}

impl ParserRead for IffParser {
}

impl ChunkParser for IffParser {
}

impl HeaderParser<IffHeader> for IffParser {
    /// Decode one IFF header at the cursor: the tag's four bytes as they
    /// stand, then the payload length as a big-endian `u32`.
    fn header(&mut self) -> (r: Result<IffHeader, Error>)
        ensures
            ({
                let d = old(self)@.reader.data;
                let p = old(self)@.reader.pos;
                if p + 8 <= d.len() {
                    r matches Ok(h) && h.typeid@ == d.subrange(p, p + 4) && h.length
                        == codec::be_u32(d[p + 4], d[p + 5], d[p + 6], d[p + 7])
                        && final(self)@ == (ParserView {
                        reader: old(self)@.reader.at(p + 8),
                        ..old(self)@
                    })
                } else {
                    (r matches Err(e) && e == Error::IoError(IoErrorKind::UnexpectedEof))
                }
            }),
    {
        let typeid = match self.read_tag() {
            Ok(t) => t,
            Err(e) => return Err(e),
        };
        let length = match self.read_be_u32() {
            Ok(v) => v,
            Err(e) => return Err(e),
        };
        Ok(IffHeader { typeid, length })
    }
}

/// A parser for an IFF variant whose declared chunk length counts the eight
/// header bytes as well as the payload: the header decode subtracts them,
/// and a custom engine loop adds them back when it validates consumption.
/// The custom loop also brackets the whole region with the depth tracker.
pub struct IffParserCustom {
    reader: ByteReader,
    depth: u8,
    path: String,
}

impl View for IffParserCustom {
    type V = ParserView;

    closed spec fn view(&self) -> ParserView {
        ParserView { reader: self.reader@, depth: self.depth, path: self.path@ }
    }
}

impl IffParserCustom {
    /// Wrap a reader in a parser, at depth zero, with an empty path.
    pub fn new(reader: ByteReader) -> (p: IffParserCustom)
        ensures
            p@ == (ParserView { reader: reader@, depth: 0, path: Seq::<char>::empty() }),
    {
        IffParserCustom { reader, depth: 0, path: String::new() }
    }

    /// Wrap an in-memory buffer in a parser, with the cursor at its start.
    pub fn cursor(data: Vec<u8>) -> (p: IffParserCustom)
        ensures
            p@ == (ParserView {
                reader: ReaderView { data: data@, pos: 0 },
                depth: 0,
                path: Seq::<char>::empty(),
            }),
    {
        IffParserCustom { reader: ByteReader::new(data), depth: 0, path: String::new() }
    }
}

impl ParserReader for IffParserCustom {
    fn reader(&mut self) -> (r: &mut ByteReader) {
        &mut self.reader
    }
}

impl ParserDepth for IffParserCustom {
    fn inner_depth(&mut self) -> (d: &mut u8) {
        &mut self.depth
    }
}

impl ParserPath for IffParserCustom {
    fn path(&self) -> (p: &String) {
        &self.path
    }
}

impl ParserSeek for IffParserCustom {
}

impl ParserRead for IffParserCustom {
}

impl HeaderParser<IffHeader> for IffParserCustom {
    /// Decode one header of the variant: the tag's four bytes, then the
    /// declared chunk length as a big-endian `u32`, which must at least
    /// cover the eight header bytes it counts; the payload length reported
    /// onward is what remains after them.
    fn header(&mut self) -> (r: Result<IffHeader, Error>)
        ensures
            ({
                let d = old(self)@.reader.data;
                let p = old(self)@.reader.pos;
                if p + 8 <= d.len() {
                    ({
                        let raw = codec::be_u32(d[p + 4], d[p + 5], d[p + 6], d[p + 7]);
                        if raw >= 8 {
                            r matches Ok(h) && h.typeid@ == d.subrange(p, p + 4) && h.length == raw
                                - 8 && final(self)@ == (ParserView {
                                reader: old(self)@.reader.at(p + 8),
                                ..old(self)@
                            })
                        } else {
                            r == Err::<IffHeader, Error>(Error::ParseError)
                        }
                    })
                } else {
                    (r matches Err(e) && e == Error::IoError(IoErrorKind::UnexpectedEof))
                }
            }),
    {
        let typeid = match self.read_tag() {
            Ok(t) => t,
            Err(e) => return Err(e),
        };
        let raw = match self.read_be_u32() {
            Ok(v) => v,
            Err(e) => return Err(e),
        };
        if raw < 8 {
            // The declared length cannot even cover the header it counts.
            return Err(Error::ParseError);
        }
        Ok(IffHeader { typeid, length: raw - 8 })
    }
}

impl ChunkParser for IffParserCustom {
    fn parse_loop<H, F>(&mut self, f: &F, total_size: u64) -> (r: Result<(), Error>) where
        Self: HeaderParser<H>,
        F: BodyHandler<Self, H>,

        ensures
            old(self)@.depth == 255 ==> r == Err::<(), Error>(Error::ParseError) && final(self)@
                == old(self)@,
    {
        let d = self.depth();
        if d == 255 {
            return Err(Error::ParseError);
        }
        self.push();
        loop
            invariant
                self@.reader.wf(),
                self@.reader.data == old(self)@.reader.data,
                self@.depth == old(self)@.depth + 1,
            decreases self@.reader.data.len() - self@.reader.pos,
        {
            let header = match self.header() {
                Ok(h) => h,
                Err(e) => {
                    self.pop();
                    return Err(e);
                },
            };
            let start = self.reader().position();
            let size = match f.on_chunk(self, &header) {
                Ok(s) => s,
                Err(e) => {
                    self.pop();
                    return Err(e);
                },
            };
            // The declared length counts the eight header bytes too.
            let declared = match size.checked_add(8) {
                Some(s) => s,
                None => {
                    self.pop();
                    return Err(Error::SizeOverflow);
                },
            };
            let pos = self.reader().position();
            match validate(start, declared, pos, total_size) {
                Step::Overflow => {
                    self.pop();
                    return Err(Error::SizeOverflow);
                },
                Step::Done => {
                    self.pop();
                    return Ok(());
                },
                Step::Mismatch => {
                    self.pop();
                    return Err(Error::ParseError);
                },
                Step::Next => (),
            }
        }
    }
}

} // verus!
