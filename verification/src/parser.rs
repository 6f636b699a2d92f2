//! The parsing traits: access to the inner reader, positional operations,
//! typed reads, depth tracking, and the source path.
//!
//! Every trait states its contract over one abstract `ParserView`: the
//! reader's contents and cursor, the nesting depth, and the source path.
//! A parser type implements the accessors; the positional and typed
//! operations come as default methods proved once, here, for every
//! implementation.

use vstd::prelude::*;

use crate::codec;
use crate::error::{Error, IoErrorKind};
use crate::reader::{ByteReader, DummyReader, ReaderView};

verus! {

/// The abstract state of a chunk parser.
#[verifier::ext_equal]
pub struct ParserView {
    /// Contents and cursor of the byte source.
    pub reader: ReaderView,
    /// Current nesting depth of chunk groups.
    pub depth: u8,
    /// Where the source was loaded from; empty when it was not a file.
    pub path: Seq<char>,
}

/// The `ParserReader` trait defines access to the inner reader.
pub trait ParserReader: Sized + View<V = ParserView> {
    /// Access the inner reader.
    fn reader(&mut self) -> (r: &mut ByteReader)
        ensures
            r@ == old(self)@.reader,
            final(self)@ == (ParserView { reader: final(r)@, ..old(self)@ }),
    ;

    /// Take the inner reader out, leaving a dummy in its place.
    fn take_reader(&mut self) -> (r: ByteReader)
        ensures
            r@ == old(self)@.reader,
            final(self)@ == (ParserView {
                reader: ReaderView { data: Seq::empty(), pos: 0 },
                ..old(self)@
            }),
    {
        let mut taken = ByteReader::dummy();
        core::mem::swap(self.reader(), &mut taken);
        taken
    }
}

/// The `ParserSeek` trait implements the positional API.
///
/// Seek operations are an essential part of efficiently parsing block chunk
/// file formats where each header declares how long its chunk is.
pub trait ParserSeek: ParserReader {
    /// Seek to an absolute position in the reader.
    fn seek(&mut self, offset: u64) -> (r: Result<u64, Error>)
        requires
            old(self)@.reader.wf(),
        ensures
            final(self)@.reader.wf(),
            if offset <= old(self)@.reader.data.len() {
                r == Ok::<u64, Error>(offset) && final(self)@ == (ParserView {
                    reader: old(self)@.reader.at(offset as int),
                    ..old(self)@
                })
            } else {
                r == Err::<u64, Error>(Error::IoError(IoErrorKind::SeekOutOfRange)) && final(self)@
                    == old(self)@
            },
    {
        self.reader().seek_to(offset)
    }

    /// Skip a number of bytes.
    fn skip(&mut self, offset: u64) -> (r: Result<u64, Error>)
        requires
            old(self)@.reader.wf(),
        ensures
            final(self)@.reader.wf(),
            if old(self)@.reader.pos + offset <= old(self)@.reader.data.len() {
                r == Ok::<u64, Error>(offset) && final(self)@ == (ParserView {
                    reader: old(self)@.reader.at(old(self)@.reader.pos + offset),
                    ..old(self)@
                })
            } else {
                r == Err::<u64, Error>(Error::IoError(IoErrorKind::SeekOutOfRange)) && final(self)@
                    == old(self)@
            },
    {
        self.reader().skip_by(offset)
    }

    /// Rewind a number of bytes and return the new position.
    fn rewind(&mut self, offset: u64) -> (r: Result<u64, Error>)
        requires
            old(self)@.reader.wf(),
        ensures
            final(self)@.reader.wf(),
            if offset <= old(self)@.reader.pos {
                r == Ok::<u64, Error>((old(self)@.reader.pos - offset) as u64) && final(self)@
                    == (ParserView {
                    reader: old(self)@.reader.at(old(self)@.reader.pos - offset),
                    ..old(self)@
                })
            } else {
                r == Err::<u64, Error>(Error::IoError(IoErrorKind::SeekOutOfRange)) && final(self)@
                    == old(self)@
            },
    {
        self.reader().rewind_by(offset)
    }

    /// Get the current reader position.
    fn position(&mut self) -> (r: Result<u64, Error>)
        requires
            old(self)@.reader.wf(),
        ensures
            final(self)@ == old(self)@,
            r == Ok::<u64, Error>(old(self)@.reader.pos as u64),
    {
        let p = self.reader().position();
        Ok(p)
    }
}

/// The `ParserDepth` trait can be used to track depth.
///
/// Many block chunk file formats use nested groups to give their data a
/// hierarchical structure. This trait adds API for tracking the parser depth;
/// the parse engine brackets every descent into a nested region with one
/// `push` and one `pop`, on success and failure paths alike.
pub trait ParserDepth: Sized + View<V = ParserView> {
    /// Access the inner depth counter.
    fn inner_depth(&mut self) -> (d: &mut u8)
        ensures
            *d == old(self)@.depth,
            final(self)@ == (ParserView { depth: *final(d), ..old(self)@ }),
    ;

    /// Get the current parser depth.
    fn depth(&mut self) -> (d: u8)
        ensures
            d == old(self)@.depth,
            final(self)@ == old(self)@,
    {
        *self.inner_depth()
    }

    /// Increment the parser depth.
    fn push(&mut self)
        requires
            old(self)@.depth < 255,
        ensures
            final(self)@ == (ParserView { depth: (old(self)@.depth + 1) as u8, ..old(self)@ }),
    {
        let d = self.inner_depth();
        *d = *d + 1;
    }

    /// Decrement the parser depth.
    fn pop(&mut self)
        requires
            old(self)@.depth > 0,
        ensures
            final(self)@ == (ParserView { depth: (old(self)@.depth - 1) as u8, ..old(self)@ }),
    {
        let d = self.inner_depth();
        *d = *d - 1;
    }
}

/// The `ParserPath` trait accesses the source's file path.
///
/// It can be useful to know where a resource was loaded from, not least of
/// all for diagnostics. This trait adds access to the original location used
/// to create the parser; a parser over a plain buffer reports an empty path.
pub trait ParserPath: View<V = ParserView> {
    /// Access the parser file path.
    fn path(&self) -> (p: &String)
        ensures
            p@ == self@.path,
    ;
}

/// The `ParserRead` trait provides the typed read API.
///
/// Each method decodes a fixed-size unsigned value from the next bytes of
/// the reader, in the source's declared order (`read_*`) or byte-swapped
/// (`read_be_*`); `read_tag` takes the next four bytes as they stand. The
/// byte swap exists for each supported integer width and for nothing else,
/// so it cannot be misapplied to a non-integer type. A failed read leaves
/// the cursor where it was.
pub trait ParserRead: ParserReader {
    /// Read one byte.
    fn read_u8(&mut self) -> (r: Result<u8, Error>)
        requires
            old(self)@.reader.wf(),
        ensures
            final(self)@.reader.wf(),
            if old(self)@.reader.pos + 1 <= old(self)@.reader.data.len() {
                r == Ok::<u8, Error>(old(self)@.reader.data[old(self)@.reader.pos]) && final(self)@
                    == (ParserView {
                    reader: old(self)@.reader.at(old(self)@.reader.pos + 1),
                    ..old(self)@
                })
            } else {
                r == Err::<u8, Error>(Error::IoError(IoErrorKind::UnexpectedEof)) && final(self)@
                    == old(self)@
            },
    {
        self.reader().read_byte()
    }

    /// Read a four-byte type tag.
    fn read_tag(&mut self) -> (r: Result<[u8; 4], Error>)
        requires
            old(self)@.reader.wf(),
        ensures
            final(self)@.reader.wf(),
            if old(self)@.reader.pos + 4 <= old(self)@.reader.data.len() {
                r matches Ok(b) && b@ == old(self)@.reader.data.subrange(
                    old(self)@.reader.pos,
                    old(self)@.reader.pos + 4,
                ) && final(self)@ == (ParserView {
                    reader: old(self)@.reader.at(old(self)@.reader.pos + 4),
                    ..old(self)@
                })
            } else {
                r == Err::<[u8; 4], Error>(Error::IoError(IoErrorKind::UnexpectedEof)) && final(self)@ == old(self)@
            },
    {
        self.reader().read_4()
    }

    /// Read a `u16` in the source's declared byte order.
    fn read_u16(&mut self) -> (r: Result<u16, Error>)
        requires
            old(self)@.reader.wf(),
        ensures
            final(self)@.reader.wf(),
            if old(self)@.reader.pos + 2 <= old(self)@.reader.data.len() {
                ({
                    let d = old(self)@.reader.data;
                    let p = old(self)@.reader.pos;
                    r == Ok::<u16, Error>(codec::le_u16(d[p], d[p + 1]))
                }) && final(self)@ == (ParserView {
                    reader: old(self)@.reader.at(old(self)@.reader.pos + 2),
                    ..old(self)@
                })
            } else {
                r == Err::<u16, Error>(Error::IoError(IoErrorKind::UnexpectedEof)) && final(self)@
                    == old(self)@
            },
    {
        match self.reader().read_2() {
            Ok(b) => Ok(codec::u16_from_le(b[0], b[1])),
            Err(e) => Err(e),
        }
    }

    /// Read a `u16` with the byte order swapped.
    fn read_be_u16(&mut self) -> (r: Result<u16, Error>)
        requires
            old(self)@.reader.wf(),
        ensures
            final(self)@.reader.wf(),
            if old(self)@.reader.pos + 2 <= old(self)@.reader.data.len() {
                ({
                    let d = old(self)@.reader.data;
                    let p = old(self)@.reader.pos;
                    r == Ok::<u16, Error>(codec::be_u16(d[p], d[p + 1]))
                }) && final(self)@ == (ParserView {
                    reader: old(self)@.reader.at(old(self)@.reader.pos + 2),
                    ..old(self)@
                })
            } else {
                r == Err::<u16, Error>(Error::IoError(IoErrorKind::UnexpectedEof)) && final(self)@
                    == old(self)@
            },
    {
        match self.reader().read_2() {
            Ok(b) => Ok(codec::u16_from_be(b[0], b[1])),
            Err(e) => Err(e),
        }
    }

    /// Read a `u32` in the source's declared byte order.
    fn read_u32(&mut self) -> (r: Result<u32, Error>)
        requires
            old(self)@.reader.wf(),
        ensures
            final(self)@.reader.wf(),
            if old(self)@.reader.pos + 4 <= old(self)@.reader.data.len() {
                ({
                    let d = old(self)@.reader.data;
                    let p = old(self)@.reader.pos;
                    r == Ok::<u32, Error>(codec::le_u32(d[p], d[p + 1], d[p + 2], d[p + 3]))
                }) && final(self)@ == (ParserView {
                    reader: old(self)@.reader.at(old(self)@.reader.pos + 4),
                    ..old(self)@
                })
            } else {
                r == Err::<u32, Error>(Error::IoError(IoErrorKind::UnexpectedEof)) && final(self)@
                    == old(self)@
            },
    {
        match self.reader().read_4() {
            Ok(b) => Ok(codec::u32_from_le(&b)),
            Err(e) => Err(e),
        }
    }

    /// Read a `u32` with the byte order swapped.
    fn read_be_u32(&mut self) -> (r: Result<u32, Error>)
        requires
            old(self)@.reader.wf(),
        ensures
            final(self)@.reader.wf(),
            if old(self)@.reader.pos + 4 <= old(self)@.reader.data.len() {
                ({
                    let d = old(self)@.reader.data;
                    let p = old(self)@.reader.pos;
                    r == Ok::<u32, Error>(codec::be_u32(d[p], d[p + 1], d[p + 2], d[p + 3]))
                }) && final(self)@ == (ParserView {
                    reader: old(self)@.reader.at(old(self)@.reader.pos + 4),
                    ..old(self)@
                })
            } else {
                r == Err::<u32, Error>(Error::IoError(IoErrorKind::UnexpectedEof)) && final(self)@
                    == old(self)@
            },
    {
        match self.reader().read_4() {
            Ok(b) => Ok(codec::u32_from_be(&b)),
            Err(e) => Err(e),
        }
    }

    /// Read a `u64` in the source's declared byte order.
    fn read_u64(&mut self) -> (r: Result<u64, Error>)
        requires
            old(self)@.reader.wf(),
        ensures
            final(self)@.reader.wf(),
            if old(self)@.reader.pos + 8 <= old(self)@.reader.data.len() {
                r == Ok::<u64, Error>(
                    codec::le_u64(
                        old(self)@.reader.data.subrange(
                            old(self)@.reader.pos,
                            old(self)@.reader.pos + 8,
                        ),
                    ),
                ) && final(self)@ == (ParserView {
                    reader: old(self)@.reader.at(old(self)@.reader.pos + 8),
                    ..old(self)@
                })
            } else {
                r == Err::<u64, Error>(Error::IoError(IoErrorKind::UnexpectedEof)) && final(self)@
                    == old(self)@
            },
    {
        match self.reader().read_8() {
            Ok(b) => Ok(codec::u64_from_le(&b)),
            Err(e) => Err(e),
        }
    }

    /// Read a `u64` with the byte order swapped.
    fn read_be_u64(&mut self) -> (r: Result<u64, Error>)
        requires
            old(self)@.reader.wf(),
        ensures
            final(self)@.reader.wf(),
            if old(self)@.reader.pos + 8 <= old(self)@.reader.data.len() {
                r == Ok::<u64, Error>(
                    codec::be_u64(
                        old(self)@.reader.data.subrange(
                            old(self)@.reader.pos,
                            old(self)@.reader.pos + 8,
                        ),
                    ),
                ) && final(self)@ == (ParserView {
                    reader: old(self)@.reader.at(old(self)@.reader.pos + 8),
                    ..old(self)@
                })
            } else {
                r == Err::<u64, Error>(Error::IoError(IoErrorKind::UnexpectedEof)) && final(self)@
                    == old(self)@
            },
    {
        match self.reader().read_8() {
            Ok(b) => Ok(codec::u64_from_be(&b)),
            Err(e) => Err(e),
        }
    }

    /// Read a `u32` in declared order, then restore the prior cursor
    /// position unconditionally, even when the read failed.
    fn peek_u32(&mut self) -> (r: Result<u32, Error>)
        requires
            old(self)@.reader.wf(),
        ensures
            final(self)@ == old(self)@,
            if old(self)@.reader.pos + 4 <= old(self)@.reader.data.len() {
                ({
                    let d = old(self)@.reader.data;
                    let p = old(self)@.reader.pos;
                    r == Ok::<u32, Error>(codec::le_u32(d[p], d[p + 1], d[p + 2], d[p + 3]))
                })
            } else {
                r == Err::<u32, Error>(Error::IoError(IoErrorKind::UnexpectedEof))
            },
    {
        let rd = self.reader();
        let saved = rd.position();
        let r = rd.read_4();
        let _ = rd.seek_to(saved);
        match r {
            Ok(b) => Ok(codec::u32_from_le(&b)),
            Err(e) => Err(e),
        }
    }

    /// Read the next four-byte tag, then restore the prior cursor position
    /// unconditionally, even when the read failed.
    fn peek_tag(&mut self) -> (r: Result<[u8; 4], Error>)
        requires
            old(self)@.reader.wf(),
        ensures
            final(self)@ == old(self)@,
            if old(self)@.reader.pos + 4 <= old(self)@.reader.data.len() {
                r matches Ok(b) && b@ == old(self)@.reader.data.subrange(
                    old(self)@.reader.pos,
                    old(self)@.reader.pos + 4,
                )
            } else {
                r == Err::<[u8; 4], Error>(Error::IoError(IoErrorKind::UnexpectedEof))
            },
    {
        let rd = self.reader();
        let saved = rd.position();
        let r = rd.read_4();
        let _ = rd.seek_to(saved);
        r
    }

    /// Read the next four-byte tag and compare it against `want`: a
    /// mismatch fails with `UnexpectedValue` and leaves the cursor advanced
    /// past the bytes that were read, not rewound.
    fn expect_tag(&mut self, want: [u8; 4]) -> (r: Result<(), Error>)
        requires
            old(self)@.reader.wf(),
        ensures
            final(self)@.reader.wf(),
            if old(self)@.reader.pos + 4 <= old(self)@.reader.data.len() {
                ({
                    let read = old(self)@.reader.data.subrange(
                        old(self)@.reader.pos,
                        old(self)@.reader.pos + 4,
                    );
                    (if read == want@ {
                        r == Ok::<(), Error>(())
                    } else {
                        r == Err::<(), Error>(Error::UnexpectedValue)
                    })
                }) && final(self)@ == (ParserView {
                    reader: old(self)@.reader.at(old(self)@.reader.pos + 4),
                    ..old(self)@
                })
            } else {
                r == Err::<(), Error>(Error::IoError(IoErrorKind::UnexpectedEof)) && final(self)@
                    == old(self)@
            },
    {
        match self.reader().read_4() {
            Ok(b) => {
                if b[0] == want[0] && b[1] == want[1] && b[2] == want[2] && b[3] == want[3] {
                    proof {
                        assert(b@ =~= want@);
                    }
                    Ok(())
                } else {
                    Err(Error::UnexpectedValue)
                }
            },
            Err(e) => Err(e),
        }
    }

    /// Read one byte as a signed value.
    fn read_i8(&mut self) -> (r: Result<i8, Error>)
        requires
            old(self)@.reader.wf(),
        ensures
            final(self)@.reader.wf(),
            if old(self)@.reader.pos + 1 <= old(self)@.reader.data.len() {
                r == Ok::<i8, Error>(old(self)@.reader.data[old(self)@.reader.pos] as i8) && final(self)@
                    == (ParserView {
                    reader: old(self)@.reader.at(old(self)@.reader.pos + 1),
                    ..old(self)@
                })
            } else {
                r == Err::<i8, Error>(Error::IoError(IoErrorKind::UnexpectedEof)) && final(self)@
                    == old(self)@
            },
    {
        match self.read_u8() {
            Ok(v) => Ok(v as i8),
            Err(e) => Err(e),
        }
    }

    /// Read an `i16` in the source's declared byte order.
    fn read_i16(&mut self) -> (r: Result<i16, Error>)
        requires
            old(self)@.reader.wf(),
        ensures
            final(self)@.reader.wf(),
            if old(self)@.reader.pos + 2 <= old(self)@.reader.data.len() {
                ({
                    let d = old(self)@.reader.data;
                    let p = old(self)@.reader.pos;
                    r == Ok::<i16, Error>(codec::le_u16(d[p], d[p + 1]) as i16)
                }) && final(self)@ == (ParserView {
                    reader: old(self)@.reader.at(old(self)@.reader.pos + 2),
                    ..old(self)@
                })
            } else {
                r == Err::<i16, Error>(Error::IoError(IoErrorKind::UnexpectedEof)) && final(self)@
                    == old(self)@
            },
    {
        match self.read_u16() {
            Ok(v) => Ok(v as i16),
            Err(e) => Err(e),
        }
    }

    /// Read an `i16` with the byte order swapped.
    fn read_be_i16(&mut self) -> (r: Result<i16, Error>)
        requires
            old(self)@.reader.wf(),
        ensures
            final(self)@.reader.wf(),
            if old(self)@.reader.pos + 2 <= old(self)@.reader.data.len() {
                ({
                    let d = old(self)@.reader.data;
                    let p = old(self)@.reader.pos;
                    r == Ok::<i16, Error>(codec::be_u16(d[p], d[p + 1]) as i16)
                }) && final(self)@ == (ParserView {
                    reader: old(self)@.reader.at(old(self)@.reader.pos + 2),
                    ..old(self)@
                })
            } else {
                r == Err::<i16, Error>(Error::IoError(IoErrorKind::UnexpectedEof)) && final(self)@
                    == old(self)@
            },
    {
        match self.read_be_u16() {
            Ok(v) => Ok(v as i16),
            Err(e) => Err(e),
        }
    }

    /// Read an `i32` in the source's declared byte order.
    fn read_i32(&mut self) -> (r: Result<i32, Error>)
        requires
            old(self)@.reader.wf(),
        ensures
            final(self)@.reader.wf(),
            if old(self)@.reader.pos + 4 <= old(self)@.reader.data.len() {
                ({
                    let d = old(self)@.reader.data;
                    let p = old(self)@.reader.pos;
                    r == Ok::<i32, Error>(codec::le_u32(d[p], d[p + 1], d[p + 2], d[p + 3]) as i32)
                }) && final(self)@ == (ParserView {
                    reader: old(self)@.reader.at(old(self)@.reader.pos + 4),
                    ..old(self)@
                })
            } else {
                r == Err::<i32, Error>(Error::IoError(IoErrorKind::UnexpectedEof)) && final(self)@
                    == old(self)@
            },
    {
        match self.read_u32() {
            Ok(v) => Ok(v as i32),
            Err(e) => Err(e),
        }
    }

    /// Read an `i32` with the byte order swapped.
    fn read_be_i32(&mut self) -> (r: Result<i32, Error>)
        requires
            old(self)@.reader.wf(),
        ensures
            final(self)@.reader.wf(),
            if old(self)@.reader.pos + 4 <= old(self)@.reader.data.len() {
                ({
                    let d = old(self)@.reader.data;
                    let p = old(self)@.reader.pos;
                    r == Ok::<i32, Error>(codec::be_u32(d[p], d[p + 1], d[p + 2], d[p + 3]) as i32)
                }) && final(self)@ == (ParserView {
                    reader: old(self)@.reader.at(old(self)@.reader.pos + 4),
                    ..old(self)@
                })
            } else {
                r == Err::<i32, Error>(Error::IoError(IoErrorKind::UnexpectedEof)) && final(self)@
                    == old(self)@
            },
    {
        match self.read_be_u32() {
            Ok(v) => Ok(v as i32),
            Err(e) => Err(e),
        }
    }

    /// Read an `i64` in the source's declared byte order.
    fn read_i64(&mut self) -> (r: Result<i64, Error>)
        requires
            old(self)@.reader.wf(),
        ensures
            final(self)@.reader.wf(),
            if old(self)@.reader.pos + 8 <= old(self)@.reader.data.len() {
                r == Ok::<i64, Error>(
                    codec::le_u64(
                        old(self)@.reader.data.subrange(
                            old(self)@.reader.pos,
                            old(self)@.reader.pos + 8,
                        ),
                    ) as i64,
                ) && final(self)@ == (ParserView {
                    reader: old(self)@.reader.at(old(self)@.reader.pos + 8),
                    ..old(self)@
                })
            } else {
                r == Err::<i64, Error>(Error::IoError(IoErrorKind::UnexpectedEof)) && final(self)@
                    == old(self)@
            },
    {
        match self.read_u64() {
            Ok(v) => Ok(v as i64),
            Err(e) => Err(e),
        }
    }

    /// Read an `i64` with the byte order swapped.
    fn read_be_i64(&mut self) -> (r: Result<i64, Error>)
        requires
            old(self)@.reader.wf(),
        ensures
            final(self)@.reader.wf(),
            if old(self)@.reader.pos + 8 <= old(self)@.reader.data.len() {
                r == Ok::<i64, Error>(
                    codec::be_u64(
                        old(self)@.reader.data.subrange(
                            old(self)@.reader.pos,
                            old(self)@.reader.pos + 8,
                        ),
                    ) as i64,
                ) && final(self)@ == (ParserView {
                    reader: old(self)@.reader.at(old(self)@.reader.pos + 8),
                    ..old(self)@
                })
            } else {
                r == Err::<i64, Error>(Error::IoError(IoErrorKind::UnexpectedEof)) && final(self)@
                    == old(self)@
            },
    {
        match self.read_be_u64() {
            Ok(v) => Ok(v as i64),
            Err(e) => Err(e),
        }
    }

    /// Read one byte, then restore the prior cursor position
    /// unconditionally, even when the read failed.
    fn peek_u8(&mut self) -> (r: Result<u8, Error>)
        requires
            old(self)@.reader.wf(),
        ensures
            final(self)@ == old(self)@,
            if old(self)@.reader.pos + 1 <= old(self)@.reader.data.len() {
                r == Ok::<u8, Error>(old(self)@.reader.data[old(self)@.reader.pos])
            } else {
                r == Err::<u8, Error>(Error::IoError(IoErrorKind::UnexpectedEof))
            },
    {
        let rd = self.reader();
        let saved = rd.position();
        let r = rd.read_byte();
        let _ = rd.seek_to(saved);
        r
    }

    /// Read a `u16` in declared order, then restore the prior cursor
    /// position unconditionally, even when the read failed.
    fn peek_u16(&mut self) -> (r: Result<u16, Error>)
        requires
            old(self)@.reader.wf(),
        ensures
            final(self)@ == old(self)@,
            if old(self)@.reader.pos + 2 <= old(self)@.reader.data.len() {
                ({
                    let d = old(self)@.reader.data;
                    let p = old(self)@.reader.pos;
                    r == Ok::<u16, Error>(codec::le_u16(d[p], d[p + 1]))
                })
            } else {
                r == Err::<u16, Error>(Error::IoError(IoErrorKind::UnexpectedEof))
            },
    {
        let rd = self.reader();
        let saved = rd.position();
        let r = rd.read_2();
        let _ = rd.seek_to(saved);
        match r {
            Ok(b) => Ok(codec::u16_from_le(b[0], b[1])),
            Err(e) => Err(e),
        }
    }

    /// Read a `u64` in declared order, then restore the prior cursor
    /// position unconditionally, even when the read failed.
    fn peek_u64(&mut self) -> (r: Result<u64, Error>)
        requires
            old(self)@.reader.wf(),
        ensures
            final(self)@ == old(self)@,
            if old(self)@.reader.pos + 8 <= old(self)@.reader.data.len() {
                r == Ok::<u64, Error>(
                    codec::le_u64(
                        old(self)@.reader.data.subrange(
                            old(self)@.reader.pos,
                            old(self)@.reader.pos + 8,
                        ),
                    ),
                )
            } else {
                r == Err::<u64, Error>(Error::IoError(IoErrorKind::UnexpectedEof))
            },
    {
        let rd = self.reader();
        let saved = rd.position();
        let r = rd.read_8();
        let _ = rd.seek_to(saved);
        match r {
            Ok(b) => Ok(codec::u64_from_le(&b)),
            Err(e) => Err(e),
        }
    }

    /// Read a `u32` in declared order and compare it against `want`: a
    /// mismatch fails with `UnexpectedValue` and leaves the cursor advanced
    /// past the bytes that were read, not rewound.
    fn expect_u32(&mut self, want: u32) -> (r: Result<(), Error>)
        requires
            old(self)@.reader.wf(),
        ensures
            final(self)@.reader.wf(),
            if old(self)@.reader.pos + 4 <= old(self)@.reader.data.len() {
                ({
                    let d = old(self)@.reader.data;
                    let p = old(self)@.reader.pos;
                    (if codec::le_u32(d[p], d[p + 1], d[p + 2], d[p + 3]) == want {
                        r == Ok::<(), Error>(())
                    } else {
                        r == Err::<(), Error>(Error::UnexpectedValue)
                    })
                }) && final(self)@ == (ParserView {
                    reader: old(self)@.reader.at(old(self)@.reader.pos + 4),
                    ..old(self)@
                })
            } else {
                r == Err::<(), Error>(Error::IoError(IoErrorKind::UnexpectedEof)) && final(self)@
                    == old(self)@
            },
    {
        match self.read_u32() {
            Ok(v) => {
                if v == want {
                    Ok(())
                } else {
                    Err(Error::UnexpectedValue)
                }
            },
            Err(e) => Err(e),
        }
    }
}

} // verus!
