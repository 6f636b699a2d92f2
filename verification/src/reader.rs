//! The cursor over an addressable byte source.
//!
//! `ByteReader` owns the whole source as an in-memory buffer and keeps the
//! current read position. Every operation is all-or-nothing: on failure the
//! position is left where it was, and the failure names what the source
//! reported (a short read, a seek out of range). Bounds violations are never
//! silently clamped.

use vstd::prelude::*;

use crate::codec;
use crate::error::{Error, IoErrorKind};

verus! {

/// The abstract state of a byte source: its contents and the cursor position.
#[verifier::ext_equal]
pub struct ReaderView {
    pub data: Seq<u8>,
    pub pos: int,
}

impl ReaderView {
    /// A reader is well formed when its position lies inside the source,
    /// or just past its last byte.
    pub open spec fn wf(&self) -> bool {
        0 <= self.pos <= self.data.len()
    }

    /// The same source with the cursor moved to `pos`.
    pub open spec fn at(self, pos: int) -> ReaderView {
        ReaderView { data: self.data, pos }
    }
}

/// A seekable reader over a fully addressable in-memory byte source.
pub struct ByteReader {
    data: Vec<u8>,
    pos: usize,
}

impl View for ByteReader {
    type V = ReaderView;

    closed spec fn view(&self) -> ReaderView {
        ReaderView { data: self.data@, pos: self.pos as int }
    }
}

/// Dummy constructor trait for reader types.
pub trait DummyReader: Sized + View<V = ReaderView> {
    /// An empty reader, fit to stand in for one that was taken away.
    fn dummy() -> (r: Self)
        ensures
            r@ == (ReaderView { data: Seq::empty(), pos: 0 }),
    ;
}

impl DummyReader for ByteReader {
    fn dummy() -> (r: ByteReader) {
        ByteReader { data: Vec::new(), pos: 0 }
    }
}

impl ByteReader {
    /// Wrap a buffer as a byte source, with the cursor at its start.
    pub fn new(data: Vec<u8>) -> (r: ByteReader)
        ensures
            r@ == (ReaderView { data: data@, pos: 0 }),
    {
        ByteReader { data, pos: 0 }
    }

    /// The current cursor position.
    pub fn position(&self) -> (p: u64)
        requires
            self@.wf(),
        ensures
            p == self@.pos,
    {
        self.pos as u64
    }

    /// The total length of the source.
    pub fn len(&self) -> (n: u64)
        ensures
            n == self@.data.len(),
    {
        self.data.len() as u64
    }

    /// Move the cursor to an absolute position.
    pub fn seek_to(&mut self, offset: u64) -> (r: Result<u64, Error>)
        requires
            old(self)@.wf(),
        ensures
            final(self)@.wf(),
            if offset <= old(self)@.data.len() {
                r == Ok::<u64, Error>(offset) && final(self)@ == old(self)@.at(offset as int)
            } else {
                r == Err::<u64, Error>(Error::IoError(IoErrorKind::SeekOutOfRange)) && final(self)@
                    == old(self)@
            },
    {
        if offset <= self.data.len() as u64 {
            self.pos = offset as usize;
            Ok(offset)
        } else {
            Err(Error::IoError(IoErrorKind::SeekOutOfRange))
        }
    }

    /// Move the cursor to the end of the source and return the total length.
    pub fn seek_to_end(&mut self) -> (n: u64)
        requires
            old(self)@.wf(),
        ensures
            n == old(self)@.data.len(),
            final(self)@ == old(self)@.at(old(self)@.data.len() as int),
    {
        self.pos = self.data.len();
        self.data.len() as u64
    }

    /// Move the cursor forward by `offset` bytes.
    pub fn skip_by(&mut self, offset: u64) -> (r: Result<u64, Error>)
        requires
            old(self)@.wf(),
        ensures
            final(self)@.wf(),
            if old(self)@.pos + offset <= old(self)@.data.len() {
                r == Ok::<u64, Error>(offset) && final(self)@ == old(self)@.at(
                    old(self)@.pos + offset,
                )
            } else {
                r == Err::<u64, Error>(Error::IoError(IoErrorKind::SeekOutOfRange)) && final(self)@
                    == old(self)@
            },
    {
        if offset <= (self.data.len() - self.pos) as u64 {
            self.pos = self.pos + offset as usize;
            Ok(offset)
        } else {
            Err(Error::IoError(IoErrorKind::SeekOutOfRange))
        }
    }

    /// Move the cursor backward by `offset` bytes and return the new position.
    pub fn rewind_by(&mut self, offset: u64) -> (r: Result<u64, Error>)
        requires
            old(self)@.wf(),
        ensures
            final(self)@.wf(),
            if offset <= old(self)@.pos {
                r == Ok::<u64, Error>((old(self)@.pos - offset) as u64) && final(self)@ == old(self)@.at(old(self)@.pos - offset)
            } else {
                r == Err::<u64, Error>(Error::IoError(IoErrorKind::SeekOutOfRange)) && final(self)@
                    == old(self)@
            },
    {
        if offset <= self.pos as u64 {
            self.pos = self.pos - offset as usize;
            Ok(self.pos as u64)
        } else {
            Err(Error::IoError(IoErrorKind::SeekOutOfRange))
        }
    }

    /// Read the next byte.
    pub fn read_byte(&mut self) -> (r: Result<u8, Error>)
        requires
            old(self)@.wf(),
        ensures
            final(self)@.wf(),
            if old(self)@.pos + 1 <= old(self)@.data.len() {
                r == Ok::<u8, Error>(old(self)@.data[old(self)@.pos]) && final(self)@ == old(self)@.at(old(self)@.pos + 1)
            } else {
                r == Err::<u8, Error>(Error::IoError(IoErrorKind::UnexpectedEof)) && final(self)@
                    == old(self)@
            },
    {
        if self.pos < self.data.len() {
            let b = self.data[self.pos];
            self.pos = self.pos + 1;
            Ok(b)
        } else {
            Err(Error::IoError(IoErrorKind::UnexpectedEof))
        }
    }

    /// Read the next two bytes.
    pub fn read_2(&mut self) -> (r: Result<[u8; 2], Error>)
        requires
            old(self)@.wf(),
        ensures
            final(self)@.wf(),
            if old(self)@.pos + 2 <= old(self)@.data.len() {
                r matches Ok(b) && b@ == old(self)@.data.subrange(
                    old(self)@.pos,
                    old(self)@.pos + 2,
                ) && final(self)@ == old(self)@.at(old(self)@.pos + 2)
            } else {
                r == Err::<[u8; 2], Error>(Error::IoError(IoErrorKind::UnexpectedEof)) && final(self)@ == old(self)@
            },
    {
        if self.data.len() - self.pos >= 2 {
            let b = [self.data[self.pos], self.data[self.pos + 1]];
            self.pos = self.pos + 2;
            proof {
                assert(b@ =~= old(self)@.data.subrange(old(self)@.pos, old(self)@.pos + 2));
            }
            Ok(b)
        } else {
            Err(Error::IoError(IoErrorKind::UnexpectedEof))
        }
    }

    /// Read the next four bytes.
    pub fn read_4(&mut self) -> (r: Result<[u8; 4], Error>)
        requires
            old(self)@.wf(),
        ensures
            final(self)@.wf(),
            if old(self)@.pos + 4 <= old(self)@.data.len() {
                r matches Ok(b) && b@ == old(self)@.data.subrange(
                    old(self)@.pos,
                    old(self)@.pos + 4,
                ) && final(self)@ == old(self)@.at(old(self)@.pos + 4)
            } else {
                r == Err::<[u8; 4], Error>(Error::IoError(IoErrorKind::UnexpectedEof)) && final(self)@ == old(self)@
            },
    {
        if self.data.len() - self.pos >= 4 {
            let b = [
                self.data[self.pos],
                self.data[self.pos + 1],
                self.data[self.pos + 2],
                self.data[self.pos + 3],
            ];
            self.pos = self.pos + 4;
            proof {
                assert(b@ =~= old(self)@.data.subrange(old(self)@.pos, old(self)@.pos + 4));
            }
            Ok(b)
        } else {
            Err(Error::IoError(IoErrorKind::UnexpectedEof))
        }
    }

    /// Read the next eight bytes.
    pub fn read_8(&mut self) -> (r: Result<[u8; 8], Error>)
        requires
            old(self)@.wf(),
        ensures
            final(self)@.wf(),
            if old(self)@.pos + 8 <= old(self)@.data.len() {
                r matches Ok(b) && b@ == old(self)@.data.subrange(
                    old(self)@.pos,
                    old(self)@.pos + 8,
                ) && final(self)@ == old(self)@.at(old(self)@.pos + 8)
            } else {
                r == Err::<[u8; 8], Error>(Error::IoError(IoErrorKind::UnexpectedEof)) && final(self)@ == old(self)@
            },
    {
        if self.data.len() - self.pos >= 8 {
            let b = [
                self.data[self.pos],
                self.data[self.pos + 1],
                self.data[self.pos + 2],
                self.data[self.pos + 3],
                self.data[self.pos + 4],
                self.data[self.pos + 5],
                self.data[self.pos + 6],
                self.data[self.pos + 7],
            ];
            self.pos = self.pos + 8;
            proof {
                assert(b@ =~= old(self)@.data.subrange(old(self)@.pos, old(self)@.pos + 8));
            }
            Ok(b)
        } else {
            Err(Error::IoError(IoErrorKind::UnexpectedEof))
        }
    }
}

/// The `ReaderUninit` trait adds a typed read function.
///
/// A reader implements it once per supported value type; each
/// implementation decodes the next `width` bytes of the source as one value,
/// in the source's declared byte order, without ever fabricating a value
/// before its bytes are known: a failed read returns no value at all and
/// leaves the cursor where it was.
pub trait ReaderUninit<T>: Sized + View<V = ReaderView> {
    /// How many bytes one value of the type occupies.
    spec fn width(&self) -> int;

    /// The value the next bytes decode to.
    spec fn decode(&self, data: Seq<u8>, pos: int) -> T;

    /// Read one value of the type from the reader.
    fn read_uninit(&mut self) -> (r: Result<T, Error>)
        requires
            old(self)@.wf(),
        ensures
            final(self)@.wf(),
            if old(self)@.pos + old(self).width() <= old(self)@.data.len() {
                r == Ok::<T, Error>(old(self).decode(old(self)@.data, old(self)@.pos)) && final(self)@ == old(self)@.at(old(self)@.pos + old(self).width())
            } else {
                r == Err::<T, Error>(Error::IoError(IoErrorKind::UnexpectedEof)) && final(self)@
                    == old(self)@
            },
    ;
}

impl ReaderUninit<u8> for ByteReader {
    open spec fn width(&self) -> int {
        1
    }

    open spec fn decode(&self, data: Seq<u8>, pos: int) -> u8 {
        data[pos]
    }

    fn read_uninit(&mut self) -> (r: Result<u8, Error>) {
        self.read_byte()
    }
}

impl ReaderUninit<u16> for ByteReader {
    open spec fn width(&self) -> int {
        2
    }

    open spec fn decode(&self, data: Seq<u8>, pos: int) -> u16 {
        codec::le_u16(data[pos], data[pos + 1])
    }

    fn read_uninit(&mut self) -> (r: Result<u16, Error>) {
        match self.read_2() {
            Ok(b) => Ok(codec::u16_from_le(b[0], b[1])),
            Err(e) => Err(e),
        }
    }
}

impl ReaderUninit<u32> for ByteReader {
    open spec fn width(&self) -> int {
        4
    }

    open spec fn decode(&self, data: Seq<u8>, pos: int) -> u32 {
        codec::le_u32(data[pos], data[pos + 1], data[pos + 2], data[pos + 3])
    }

    fn read_uninit(&mut self) -> (r: Result<u32, Error>) {
        match self.read_4() {
            Ok(b) => Ok(codec::u32_from_le(&b)),
            Err(e) => Err(e),
        }
    }
}

impl ReaderUninit<u64> for ByteReader {
    open spec fn width(&self) -> int {
        8
    }

    open spec fn decode(&self, data: Seq<u8>, pos: int) -> u64 {
        codec::le_u64(data.subrange(pos, pos + 8))
    }

    fn read_uninit(&mut self) -> (r: Result<u64, Error>) {
        match self.read_8() {
            Ok(b) => Ok(codec::u64_from_le(&b)),
            Err(e) => Err(e),
        }
    }
}

} // verus!
