//! The parse engine: the chunk iteration loop, the size-consistency check it
//! enforces after every chunk body, and the recursive-descent entry for
//! nested chunk groups, bracketed by the depth tracker.

use vstd::prelude::*;

use crate::error::Error;
use crate::parser::{ParserDepth, ParserRead, ParserView};

verus! {

/// What the engine decides after one chunk body has run: `start` is the
/// cursor position right after the chunk's header, `size` the payload size
/// the body declared, `pos` the cursor position the body left behind, and
/// `total` the end offset of the region the loop must exactly fill.
#[derive(Clone, Copy, Debug, PartialEq, Eq, Structural)]
pub enum Step {
    /// `start + size` exceeds the range of the size type.
    Overflow,
    /// The region is exactly exhausted: the only successful exit.
    Done,
    /// The chunk was fully consumed and the region is not exhausted yet.
    Next,
    /// The body's declared size disagrees with the cursor movement it
    /// caused, or the chunk ran past the end of its region.
    Mismatch,
}

/// The engine's verdict after one chunk, as a function of the four offsets.
pub open spec fn validate_spec(start: int, size: int, pos: int, total: int) -> Step {
    if start + size > u64::MAX {
        Step::Overflow
    } else if pos == total {
        Step::Done
    } else if pos == start + size && pos < total {
        Step::Next
    } else {
        Step::Mismatch
    }
}

/// Decide the outcome of one chunk. The declared end `start + size` is
/// computed with an overflow-checked addition; exhausting the region is
/// checked before anything else and is the only success exit.
pub fn validate(start: u64, size: u64, pos: u64, total: u64) -> (s: Step)
    ensures
        s == validate_spec(start as int, size as int, pos as int, total as int),
{
    match start.checked_add(size) {
        None => Step::Overflow,
        Some(end) => {
            if pos == total {
                Step::Done
            } else if pos == end && pos < total {
                Step::Next
            } else {
                Step::Mismatch
            }
        },
    }
}

/// Strict mismatch detection: when a body's declared size disagrees with the
/// bytes it actually consumed, the engine never carries on to the next
/// header; unless the cursor happens to stand exactly at the region's end
/// offset, which counts as exhausting the region, the verdict is the
/// size-mismatch kind.
pub proof fn lemma_mismatch_detected(start: int, size: int, pos: int, total: int)
    requires
        pos != start + size,
    ensures
        validate_spec(start, size, pos, total) != Step::Next,
        pos != total && start + size <= u64::MAX ==> validate_spec(start, size, pos, total)
            == Step::Mismatch,
{
}

/// Exact termination: a chunk whose end lands exactly on the region's end
/// offset ends the loop successfully, whatever size was declared.
pub proof fn lemma_exact_termination(start: int, size: int, pos: int, total: int)
    requires
        start + size <= u64::MAX,
        pos == total,
    ensures
        validate_spec(start, size, pos, total) == Step::Done,
{
}

/// A chunk that runs past the end of its region is a size mismatch, never
/// grounds to continue.
pub proof fn lemma_overrun_detected(start: int, size: int, pos: int, total: int)
    requires
        start + size <= u64::MAX,
        pos > total,
    ensures
        validate_spec(start, size, pos, total) == Step::Mismatch,
{
}

/// The `HeaderParser` trait defines unique header parsing logic.
///
/// An implementation decodes one chunk header at the current cursor
/// position, with no side effect beyond advancing the cursor past the
/// header's bytes: a header occupies at least one byte, so a successful
/// decode always moves the cursor forward.
pub trait HeaderParser<H>: Sized + View<V = ParserView> {
    /// Decode the next chunk header.
    fn header(&mut self) -> (r: Result<H, Error>)
        requires
            old(self)@.reader.wf(),
        ensures
            final(self)@.reader.wf(),
            final(self)@.reader.data == old(self)@.reader.data,
            final(self)@.depth == old(self)@.depth,
            final(self)@.path == old(self)@.path,
            r.is_ok() ==> final(self)@.reader.pos > old(self)@.reader.pos,
    ;
}

/// A caller-supplied body, run once per chunk.
///
/// The body must consume the chunk's payload, by reading it, skipping it, or
/// recursively parsing it, and return the declared payload size, excluding
/// the header's bytes; the engine then verifies that the cursor moved by
/// exactly that amount. A body may move the cursor only within the source,
/// must not touch the source's contents, and must leave the nesting depth
/// as it found it, on success and failure paths alike.
pub trait BodyHandler<P: View<V = ParserView>, H> {
    /// Handle one chunk.
    fn on_chunk(&self, parser: &mut P, header: &H) -> (r: Result<u64, Error>)
        requires
            old(parser)@.reader.wf(),
        ensures
            final(parser)@.reader.wf(),
            final(parser)@.reader.data == old(parser)@.reader.data,
            final(parser)@.depth == old(parser)@.depth,
    ;
}

/// The `ChunkParser` trait defines the inner parser loop.
pub trait ChunkParser: ParserRead + ParserDepth {
    /// Internal parser loop: read a header, run the body, and validate the
    /// cursor against the body's declared size, until the cursor lands
    /// exactly on `total_size` (the only success exit) or a violation or
    /// collaborator failure ends the parse. No error is retried or
    /// downgraded; every failure is forwarded to the caller unchanged.
    ///
    /// The loop always attempts at least one header read, so a region that
    /// is already exhausted on entry fails rather than succeeding vacuously:
    /// an empty region is the caller's concern, not a success case.
    fn parse_loop<H, F>(&mut self, f: &F, total_size: u64) -> (r: Result<(), Error>) where
        Self: HeaderParser<H>,
        F: BodyHandler<Self, H>,

        requires
            old(self)@.reader.wf(),
        ensures
            final(self)@.reader.wf(),
            final(self)@.reader.data == old(self)@.reader.data,
            final(self)@.depth == old(self)@.depth,
            r.is_ok() ==> final(self)@.reader.pos == total_size,
    {
        loop
            invariant
                self@.reader.wf(),
                self@.reader.data == old(self)@.reader.data,
                self@.depth == old(self)@.depth,
            decreases self@.reader.data.len() - self@.reader.pos,
        {
            let header = match self.header() {
                Ok(h) => h,
                Err(e) => return Err(e),
            };
            let start = self.reader().position();
            // The body is responsible for consuming the payload and
            // reporting its declared size.
            let size = match f.on_chunk(self, &header) {
                Ok(s) => s,
                Err(e) => return Err(e),
            };
            let pos = self.reader().position();
            match validate(start, size, pos, total_size) {
                Step::Overflow => return Err(Error::SizeOverflow),
                Step::Done => return Ok(()),
                Step::Mismatch => return Err(Error::ParseError),
                Step::Next => (),
            }
        }
    }

    /// Parse top level chunk(s) from the reader: the whole source is the
    /// region to fill, and the cursor starts at its beginning.
    fn parse<H, F>(&mut self, f: &F) -> (r: Result<(), Error>) where
        Self: HeaderParser<H>,
        F: BodyHandler<Self, H>,

        requires
            old(self)@.reader.wf(),
        ensures
            final(self)@.reader.wf(),
            final(self)@.reader.data == old(self)@.reader.data,
            final(self)@.depth == old(self)@.depth,
            r.is_ok() ==> final(self)@.reader.pos == old(self)@.reader.data.len(),
    {
        let rd = self.reader();
        let total_size = rd.seek_to_end();
        let _ = rd.seek_to(0);
        self.parse_loop(f, total_size)
    }

    /// Parse nested subchunks within the main parse routine: the region is
    /// the next `total_size` bytes from the current cursor position, and
    /// the descent is bracketed by the depth tracker, on success and
    /// failure paths alike.
    fn subchunks<H, F>(&mut self, f: &F, total_size: u64) -> (r: Result<(), Error>) where
        Self: HeaderParser<H>,
        F: BodyHandler<Self, H>,

        requires
            old(self)@.reader.wf(),
            old(self)@.depth < 255,
        ensures
            final(self)@.reader.wf(),
            final(self)@.reader.data == old(self)@.reader.data,
            final(self)@.depth == old(self)@.depth,
            r.is_ok() ==> final(self)@.reader.pos == old(self)@.reader.pos + total_size,
            old(self)@.reader.pos + total_size > u64::MAX ==> r == Err::<(), Error>(
                Error::SizeOverflow,
            ) && final(self)@ == old(self)@,
    {
        self.push();
        let pos = self.reader().position();
        let limit = match pos.checked_add(total_size) {
            Some(l) => l,
            None => {
                self.pop();
                return Err(Error::SizeOverflow);
            },
        };
        let res = self.parse_loop(f, limit);
        self.pop();
        res
    }
}

} // verus!
