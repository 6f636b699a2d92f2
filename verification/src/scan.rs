//! Well-formedness of an IFF chunk stream, stated over the bytes, and a
//! concrete scanning parse whose outcome is pinned by it.
//!
//! The generic engine cannot promise success: its collaborators are caller
//! code. The scanner here fixes them, the IFF header decode and a body that
//! skips plain chunks and descends recursively into group chunks, and
//! restates the engine loop concretely, so that the contracts say which
//! byte streams parse to completion, which fail as a size mismatch, and
//! which fail on a header read past the end of the source.

use vstd::prelude::*;

use crate::codec;
use crate::engine::{validate, HeaderParser, Step};
use crate::error::{Error, IoErrorKind};
use crate::iff::{tag_matches, IffParser};
use crate::parser::{ParserDepth, ParserRead, ParserReader, ParserSeek, ParserView};

verus! {

/// The declared payload size of the chunk whose header stands at `from`.
pub open spec fn chunk_size(d: Seq<u8>, from: int) -> int {
    codec::be_u32(d[from + 4], d[from + 5], d[from + 6], d[from + 7]) as int
}

/// The end offset of the chunk whose header stands at `from`: the eight
/// header bytes plus the declared payload.
pub open spec fn chunk_end(d: Seq<u8>, from: int) -> int {
    from + 8 + chunk_size(d, from)
}

/// A well-formed flat region: one or more chunks whose declared sizes
/// exactly tile the interval `[from, to)` of the source.
pub open spec fn chunks_wf(d: Seq<u8>, from: int, to: int) -> bool
    decreases to - from,
{
    &&& from + 8 <= to <= d.len()
    &&& chunk_end(d, from) <= to
    &&& (chunk_end(d, from) == to || chunks_wf(d, chunk_end(d, from), to))
}

/// A flat region whose sizes disagree with it: chunks tile the source
/// correctly until one ends past the region's end offset `to`, while still
/// lying inside the source.
pub open spec fn chunks_overrun(d: Seq<u8>, from: int, to: int) -> bool
    decreases d.len() - from,
{
    &&& from + 8 <= d.len()
    &&& chunk_end(d, from) <= d.len()
    &&& chunk_end(d, from) != to
    &&& (chunk_end(d, from) > to || chunks_overrun(d, chunk_end(d, from), to))
}

/// A flat region that falls short: chunks end inside the region until too
/// few bytes remain in the source to hold another header, so the next
/// header read must fail. A region already exhausted on entry is included:
/// the loop reads a header there too.
pub open spec fn chunks_underrun(d: Seq<u8>, from: int, to: int) -> bool
    decreases d.len() - from,
{
    if from + 8 <= d.len() {
        &&& chunk_end(d, from) <= d.len()
        &&& chunk_end(d, from) < to
        &&& chunks_underrun(d, chunk_end(d, from), to)
    } else {
        true
    }
}

impl IffParser {
    /// Skip-parse the flat region ending at the absolute offset
    /// `total_size`: read a header, skip its declared payload, validate,
    /// repeat. The engine loop with the skipping body, restated concretely:
    /// a well-formed region is accepted and consumed whole, a region whose
    /// chunks overrun it fails as a size mismatch, and one whose chunks
    /// fall short fails on the header read past the end of the source.
    pub fn skip_region(&mut self, total_size: u64) -> (r: Result<(), Error>)
        requires
            old(self)@.reader.wf(),
        ensures
            final(self)@.reader.wf(),
            final(self)@.reader.data == old(self)@.reader.data,
            final(self)@.depth == old(self)@.depth,
            final(self)@.path == old(self)@.path,
            r.is_ok() ==> final(self)@.reader.pos == total_size,
            chunks_wf(old(self)@.reader.data, old(self)@.reader.pos, total_size as int) ==> r
                == Ok::<(), Error>(()) && final(self)@ == (ParserView {
                reader: old(self)@.reader.at(total_size as int),
                ..old(self)@
            }),
            chunks_overrun(old(self)@.reader.data, old(self)@.reader.pos, total_size as int) ==> r
                == Err::<(), Error>(Error::ParseError),
            chunks_underrun(old(self)@.reader.data, old(self)@.reader.pos, total_size as int) ==> r
                == Err::<(), Error>(Error::IoError(IoErrorKind::UnexpectedEof)),
    {
        loop
            invariant
                self@.reader.wf(),
                self@.reader.data == old(self)@.reader.data,
                self@.depth == old(self)@.depth,
                self@.path == old(self)@.path,
                chunks_wf(old(self)@.reader.data, old(self)@.reader.pos, total_size as int)
                    ==> chunks_wf(self@.reader.data, self@.reader.pos, total_size as int),
                chunks_overrun(old(self)@.reader.data, old(self)@.reader.pos, total_size as int)
                    ==> chunks_overrun(self@.reader.data, self@.reader.pos, total_size as int),
                chunks_underrun(old(self)@.reader.data, old(self)@.reader.pos, total_size as int)
                    ==> chunks_underrun(self@.reader.data, self@.reader.pos, total_size as int),
            decreases self@.reader.data.len() - self@.reader.pos,
        {
            let header = match self.header() {
                Ok(h) => h,
                Err(e) => return Err(e),
            };
            let start = self.reader().position();
            let size = match self.skip(header.length as u64) {
                Ok(s) => s,
                Err(e) => return Err(e),
            };
            let pos = self.reader().position();
            match validate(start, size, pos, total_size) {
                Step::Overflow => return Err(Error::SizeOverflow),
                Step::Done => {
                    proof {
                        assert(self@.reader =~= old(self)@.reader.at(total_size as int));
                        assert(self@ =~= (ParserView {
                            reader: old(self)@.reader.at(total_size as int),
                            ..old(self)@
                        }));
                    }
                    return Ok(());
                },
                Step::Mismatch => return Err(Error::ParseError),
                Step::Next => (),
            }
        }
    }
}

/// A well-formed nested region: chunks exactly tile `[from, to)`; each
/// chunk carrying the group tag holds a four-byte sub-format tag followed by
/// a well-formed nested region of its own, and needs one level of the
/// nesting budget; every other chunk is opaque payload.
pub open spec fn nested_wf(d: Seq<u8>, from: int, to: int, tag: Seq<u8>, levels: int) -> bool
    decreases to - from,
{
    &&& from + 8 <= to <= d.len()
    &&& chunk_end(d, from) <= to
    &&& (d.subrange(from, from + 4) == tag ==> chunk_size(d, from) >= 4 && levels >= 1
        && nested_wf(d, from + 12, chunk_end(d, from), tag, levels - 1))
    &&& (chunk_end(d, from) == to || nested_wf(d, chunk_end(d, from), to, tag, levels))
}

/// A nested region whose sizes disagree: chunks parse correctly, descending
/// into groups, until a chunk at some level ends past the end offset of its
/// region while still lying inside the source.
pub open spec fn nested_mismatch(d: Seq<u8>, from: int, to: int, tag: Seq<u8>, levels: int) -> bool
    decreases d.len() - from,
{
    &&& from + 8 <= d.len()
    &&& ({
        let end = chunk_end(d, from);
        if d.subrange(from, from + 4) == tag {
            &&& chunk_size(d, from) >= 4
            &&& from + 12 <= d.len()
            &&& end <= u64::MAX
            &&& levels >= 1
            &&& (nested_mismatch(d, from + 12, end, tag, levels - 1) || (nested_wf(
                d,
                from + 12,
                end,
                tag,
                levels - 1,
            ) && end <= d.len() && end != to && (end > to || nested_mismatch(d, end, to, tag, levels))))
        } else {
            &&& end <= d.len()
            &&& end != to
            &&& (end > to || nested_mismatch(d, end, to, tag, levels))
        }
    })
}

impl IffParser {
    /// Parse the region ending at the absolute offset `total_size`,
    /// descending into each chunk carrying `group_tag`: its four-byte
    /// sub-format tag is read, then its nested chunks are parsed recursively
    /// as the region its own header declared, bracketed by the depth
    /// tracker; every other chunk's payload is skipped whole. Nesting deeper
    /// than the depth counter can count is refused. A well-formed nested
    /// region is accepted and consumed whole; one whose sizes disagree, at
    /// any level, fails as a size mismatch. The nesting budget of the
    /// well-formedness statements is what is left of the depth counter.
    pub fn scan_region(&mut self, group_tag: &[u8; 4], total_size: u64) -> (r: Result<(), Error>)
        requires
            old(self)@.reader.wf(),
        ensures
            final(self)@.reader.wf(),
            final(self)@.reader.data == old(self)@.reader.data,
            final(self)@.depth == old(self)@.depth,
            final(self)@.path == old(self)@.path,
            r.is_ok() ==> final(self)@.reader.pos == total_size,
            nested_wf(
                old(self)@.reader.data,
                old(self)@.reader.pos,
                total_size as int,
                group_tag@,
                255 - old(self)@.depth,
            ) ==> r == Ok::<(), Error>(()) && final(self)@ == (ParserView {
                reader: old(self)@.reader.at(total_size as int),
                ..old(self)@
            }),
            nested_mismatch(
                old(self)@.reader.data,
                old(self)@.reader.pos,
                total_size as int,
                group_tag@,
                255 - old(self)@.depth,
            ) ==> r == Err::<(), Error>(Error::ParseError),
        decreases old(self)@.reader.data.len() - old(self)@.reader.pos,
    {
        loop
            invariant
                self@.reader.wf(),
                self@.reader.data == old(self)@.reader.data,
                self@.depth == old(self)@.depth,
                self@.path == old(self)@.path,
                self@.reader.pos >= old(self)@.reader.pos,
                nested_wf(
                    old(self)@.reader.data,
                    old(self)@.reader.pos,
                    total_size as int,
                    group_tag@,
                    255 - old(self)@.depth,
                ) ==> nested_wf(
                    self@.reader.data,
                    self@.reader.pos,
                    total_size as int,
                    group_tag@,
                    255 - self@.depth,
                ),
                nested_mismatch(
                    old(self)@.reader.data,
                    old(self)@.reader.pos,
                    total_size as int,
                    group_tag@,
                    255 - old(self)@.depth,
                ) ==> nested_mismatch(
                    self@.reader.data,
                    self@.reader.pos,
                    total_size as int,
                    group_tag@,
                    255 - self@.depth,
                ),
            decreases self@.reader.data.len() - self@.reader.pos,
        {
            let header = match self.header() {
                Ok(h) => h,
                Err(e) => return Err(e),
            };
            let start = self.reader().position();
            if tag_matches(&header.typeid, group_tag) {
                if header.length < 4 {
                    // The payload cannot hold the sub-format tag it must
                    // start with.
                    return Err(Error::ParseError);
                }
                match self.read_tag() {
                    Ok(_) => (),
                    Err(e) => return Err(e),
                }
                let limit = match start.checked_add(header.length as u64) {
                    Some(l) => l,
                    None => return Err(Error::SizeOverflow),
                };
                let d = self.depth();
                if d == 255 {
                    // The depth counter cannot count another level.
                    return Err(Error::ParseError);
                }
                self.push();
                let res = self.scan_region(group_tag, limit);
                self.pop();
                match res {
                    Ok(()) => (),
                    Err(e) => return Err(e),
                }
            } else {
                match self.skip(header.length as u64) {
                    Ok(_) => (),
                    Err(e) => return Err(e),
                }
            }
            let pos = self.reader().position();
            match validate(start, header.length as u64, pos, total_size) {
                Step::Overflow => return Err(Error::SizeOverflow),
                Step::Done => {
                    proof {
                        assert(self@.reader =~= old(self)@.reader.at(total_size as int));
                        assert(self@ =~= (ParserView {
                            reader: old(self)@.reader.at(total_size as int),
                            ..old(self)@
                        }));
                    }
                    return Ok(());
                },
                Step::Mismatch => return Err(Error::ParseError),
                Step::Next => (),
            }
        }
    }

    /// Scan the whole source as a nested chunk stream, from its beginning
    /// to its total length. A well-formed stream parses to completion: the
    /// result is success, the cursor stands at the total length, and the
    /// depth stands where it began; a stream whose declared sizes disagree
    /// with its actual extent, at any nesting level, fails as a size
    /// mismatch.
    pub fn scan(&mut self, group_tag: &[u8; 4]) -> (r: Result<(), Error>)
        requires
            old(self)@.reader.wf(),
        ensures
            final(self)@.reader.wf(),
            final(self)@.reader.data == old(self)@.reader.data,
            final(self)@.depth == old(self)@.depth,
            final(self)@.path == old(self)@.path,
            r.is_ok() ==> final(self)@.reader.pos == old(self)@.reader.data.len(),
            nested_wf(
                old(self)@.reader.data,
                0,
                old(self)@.reader.data.len() as int,
                group_tag@,
                255 - old(self)@.depth,
            ) ==> r == Ok::<(), Error>(()),
            nested_mismatch(
                old(self)@.reader.data,
                0,
                old(self)@.reader.data.len() as int,
                group_tag@,
                255 - old(self)@.depth,
            ) ==> r == Err::<(), Error>(Error::ParseError),
    {
        let rd = self.reader();
        let total_size = rd.seek_to_end();
        let _ = rd.seek_to(0);
        self.scan_region(group_tag, total_size)
    }
}

} // verus!
