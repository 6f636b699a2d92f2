//! Body handlers for IFF-style chunks: the caller-supplied half of the
//! engine's loop. Each handler consumes one chunk's payload and reports the
//! size it occupied, so the engine can hold the declared and the actual
//! consumption against each other.

use vstd::prelude::*;

use crate::engine::{BodyHandler, ChunkParser, HeaderParser};
use crate::error::{Error, IoErrorKind};
use crate::iff::{tag_matches, IffHeader};
use crate::parser::{ParserDepth, ParserSeek, ParserView};

verus! {

/// Skips every chunk's declared payload without looking at it.
pub struct SkipBody;

impl<P: ParserSeek> BodyHandler<P, IffHeader> for SkipBody {
    fn on_chunk(&self, parser: &mut P, header: &IffHeader) -> (r: Result<u64, Error>)
        ensures
            ({
                let v = old(parser)@;
                if v.reader.pos + header.length <= v.reader.data.len() {
                    r == Ok::<u64, Error>(header.length as u64) && final(parser)@ == (ParserView {
                        reader: v.reader.at(v.reader.pos + header.length),
                        ..v
                    })
                } else {
                    r == Err::<u64, Error>(Error::IoError(IoErrorKind::SeekOutOfRange)) && final(parser)@ == v
                }
            }),
    {
        parser.skip(header.length as u64)
    }
}

/// Skips chunks of one known type tag and reports any other tag as an
/// unknown chunk.
pub struct TagSkipBody {
    /// The one chunk type this body recognises.
    pub want: [u8; 4],
}

impl<P: ParserSeek> BodyHandler<P, IffHeader> for TagSkipBody {
    fn on_chunk(&self, parser: &mut P, header: &IffHeader) -> (r: Result<u64, Error>)
        ensures
            ({
                let v = old(parser)@;
                if header.typeid@ != self.want@ {
                    r == Err::<u64, Error>(Error::UnknownChunk) && final(parser)@ == v
                } else if v.reader.pos + header.length <= v.reader.data.len() {
                    r == Ok::<u64, Error>(header.length as u64) && final(parser)@ == (ParserView {
                        reader: v.reader.at(v.reader.pos + header.length),
                        ..v
                    })
                } else {
                    r == Err::<u64, Error>(Error::IoError(IoErrorKind::SeekOutOfRange)) && final(parser)@ == v
                }
            }),
    {
        if tag_matches(&header.typeid, &self.want) {
            parser.skip(header.length as u64)
        } else {
            Err(Error::UnknownChunk)
        }
    }
}

/// Skips the declared payload plus the eight header bytes, for formats whose
/// declared chunk length counts the header as well as the payload.
pub struct SkipWithHeaderBody;

impl<P: ParserSeek> BodyHandler<P, IffHeader> for SkipWithHeaderBody {
    fn on_chunk(&self, parser: &mut P, header: &IffHeader) -> (r: Result<u64, Error>)
        ensures
            ({
                let v = old(parser)@;
                if v.reader.pos + header.length + 8 <= v.reader.data.len() {
                    r == Ok::<u64, Error>((header.length + 8) as u64) && final(parser)@
                        == (ParserView {
                        reader: v.reader.at(v.reader.pos + header.length + 8),
                        ..v
                    })
                } else {
                    r == Err::<u64, Error>(Error::IoError(IoErrorKind::SeekOutOfRange)) && final(parser)@ == v
                }
            }),
    {
        parser.skip(header.length as u64 + 8)
    }
}

/// Consumes a fixed number of bytes and declares a fixed size, for chunks
/// whose payload size is implied by their type rather than by the header.
/// Declaring a size other than `consume` misreports the consumption, which
/// the engine's validation then refuses.
pub struct FixedSizeBody {
    /// How many bytes to consume.
    pub consume: u64,
    /// The payload size to declare to the engine.
    pub declare: u64,
}

impl<P: ParserSeek> BodyHandler<P, IffHeader> for FixedSizeBody {
    fn on_chunk(&self, parser: &mut P, header: &IffHeader) -> (r: Result<u64, Error>)
        ensures
            ({
                let v = old(parser)@;
                if v.reader.pos + self.consume <= v.reader.data.len() {
                    r == Ok::<u64, Error>(self.declare) && final(parser)@ == (ParserView {
                        reader: v.reader.at(v.reader.pos + self.consume),
                        ..v
                    })
                } else {
                    r == Err::<u64, Error>(Error::IoError(IoErrorKind::SeekOutOfRange)) && final(parser)@ == v
                }
            }),
    {
        match parser.skip(self.consume) {
            Ok(_) => Ok(self.declare),
            Err(e) => Err(e),
        }
    }
}

/// Skips every chunk, but first checks that the parser stands at one
/// expected nesting depth, and refuses the chunk otherwise.
pub struct DepthCheckBody {
    /// The nesting depth at which this body expects to run.
    pub want: u8,
}

impl<P: ParserSeek + ParserDepth> BodyHandler<P, IffHeader> for DepthCheckBody {
    fn on_chunk(&self, parser: &mut P, header: &IffHeader) -> (r: Result<u64, Error>)
        ensures
            ({
                let v = old(parser)@;
                if v.depth != self.want {
                    r == Err::<u64, Error>(Error::ParseError) && final(parser)@ == v
                } else if v.reader.pos + header.length <= v.reader.data.len() {
                    r == Ok::<u64, Error>(header.length as u64) && final(parser)@ == (ParserView {
                        reader: v.reader.at(v.reader.pos + header.length),
                        ..v
                    })
                } else {
                    r == Err::<u64, Error>(Error::IoError(IoErrorKind::SeekOutOfRange)) && final(parser)@ == v
                }
            }),
    {
        let d = parser.depth();
        if d != self.want {
            return Err(Error::ParseError);
        }
        parser.skip(header.length as u64)
    }
}

/// Descends into chunks of one group tag and skips the rest.
///
/// A group chunk's payload is a four-byte sub-format tag followed by nested
/// chunks; this body reads the sub-format tag and recursively parses the
/// remainder with the inner body, bracketed by the depth tracker. Nesting
/// deeper than the depth counter can count is refused; a bound on the depth
/// is the caller's concern, not the engine's.
pub struct DescendBody<G> {
    /// The tag that marks a chunk as a group of nested chunks.
    pub group_tag: [u8; 4],
    /// The body that handles the chunks inside a group.
    pub inner: G,
}

impl<
    P: ChunkParser + ParserSeek + HeaderParser<IffHeader>,
    G: BodyHandler<P, IffHeader>,
> BodyHandler<P, IffHeader> for DescendBody<G> {
    fn on_chunk(&self, parser: &mut P, header: &IffHeader) -> (r: Result<u64, Error>)
        ensures
            r.is_ok() ==> r == Ok::<u64, Error>(header.length as u64) && final(parser)@.reader.pos
                == old(parser)@.reader.pos + header.length,
            ({
                let v = old(parser)@;
                if header.typeid@ != self.group_tag@ {
                    // A plain chunk is skipped whole.
                    if v.reader.pos + header.length <= v.reader.data.len() {
                        r == Ok::<u64, Error>(header.length as u64) && final(parser)@
                            == (ParserView {
                            reader: v.reader.at(v.reader.pos + header.length),
                            ..v
                        })
                    } else {
                        r == Err::<u64, Error>(Error::IoError(IoErrorKind::SeekOutOfRange))
                            && final(parser)@ == v
                    }
                } else if header.length < 4 {
                    r == Err::<u64, Error>(Error::ParseError) && final(parser)@ == v
                } else if v.reader.pos + 4 > v.reader.data.len() {
                    r == Err::<u64, Error>(Error::IoError(IoErrorKind::UnexpectedEof))
                        && final(parser)@ == v
                } else if v.depth == 255 {
                    r == Err::<u64, Error>(Error::ParseError) && final(parser)@ == (ParserView {
                        reader: v.reader.at(v.reader.pos + 4),
                        ..v
                    })
                } else {
                    true
                }
            }),
    {
        if tag_matches(&header.typeid, &self.group_tag) {
            if header.length < 4 {
                // The payload cannot hold the sub-format tag it must start with.
                return Err(Error::ParseError);
            }
            match parser.read_tag() {
                Ok(_) => (),
                Err(e) => return Err(e),
            }
            let d = parser.depth();
            if d == 255 {
                return Err(Error::ParseError);
            }
            match parser.subchunks(&self.inner, (header.length - 4) as u64) {
                Ok(()) => Ok(header.length as u64),
                Err(e) => Err(e),
            }
        } else {
            parser.skip(header.length as u64)
        }
    }
}

} // verus!
