//! A byte-range view over a shared backing store.
//!
//! An [`OffsetFile`] presents a sub-range of a larger random-access store —
//! one cached track's bytes inside a shared cache container, say — as an
//! independent stream with its own zero-based offset space. Construction
//! seeks the backing store to the view's base offset; reads and writes then
//! delegate directly to the store at its current position, so the view
//! assumes exclusive ownership of the store's cursor while in use. Only
//! start-relative seeks are offset-translated; end- and cursor-relative
//! seeks pass through unchanged, an intentional asymmetry. Reported
//! positions subtract the base offset with saturating semantics, so a
//! position at or before the base reports as logical zero instead of
//! underflowing.

use crate::store::{bytes_read, store_written, IoError, RandomAccess, SeekFrom};
use vstd::prelude::*;

verus! {

/// The logical position a view with base `offset` reports for the absolute
/// backing-store position `pos`: the difference, clamped at zero.
pub open spec fn logical_position(pos: int, offset: int) -> int {
    if pos >= offset {
        pos - offset
    } else {
        0
    }
}

/// A sub-range of a backing store, starting at a fixed base offset,
/// presented as an independent zero-based seekable stream.
pub struct OffsetFile<S> {
    stream: S,
    offset: u64,
}

impl<S: RandomAccess> OffsetFile<S> {
    /// The fixed base offset established at construction.
    pub closed spec fn base_offset(&self) -> u64 {
        self.offset
    }

    /// The bytes of the backing store.
    pub closed spec fn stream_contents(&self) -> Seq<u8> {
        self.stream.contents()
    }

    /// The absolute cursor of the backing store.
    pub closed spec fn stream_cursor(&self) -> nat {
        self.stream.cursor()
    }

    /// Takes ownership of the backing store and seeks it to `offset`, so
    /// the view starts at its own logical zero. An absolute seek cannot
    /// fail, so neither can construction.
    pub fn new(stream: S, offset: u64) -> (r: Result<OffsetFile<S>, IoError>)
        ensures
            match r {
                Ok(f) => {
                    &&& f.base_offset() == offset
                    &&& f.stream_contents() == stream.contents()
                    &&& f.stream_cursor() == offset
                },
                Err(_) => false,
            },
    {
        let mut stream = stream;
        match stream.seek(SeekFrom::Start(offset)) {
            Ok(_) => Ok(OffsetFile { stream, offset }),
            Err(e) => Err(e),
        }
    }

    /// Reads up to `n` bytes at the store's current position, exactly as
    /// the store itself would.
    pub fn read(&mut self, n: usize) -> (r: Result<Vec<u8>, IoError>)
        ensures
            final(self).base_offset() == old(self).base_offset(),
            final(self).stream_contents() == old(self).stream_contents(),
            match r {
                Ok(v) => {
                    &&& v@ == bytes_read(
                        old(self).stream_contents(),
                        old(self).stream_cursor(),
                        n as nat,
                    )
                    &&& final(self).stream_cursor() == old(self).stream_cursor() + v@.len()
                },
                Err(_) => final(self).stream_cursor() == old(self).stream_cursor(),
            },
    {
        self.stream.read(n)
    }

    /// Writes `buf` at the store's current position, exactly as the store
    /// itself would.
    pub fn write(&mut self, buf: &[u8]) -> (r: Result<usize, IoError>)
        requires
            old(self).stream_cursor() + buf@.len() <= usize::MAX,
        ensures
            final(self).base_offset() == old(self).base_offset(),
            match r {
                Ok(n) => {
                    &&& n == buf@.len()
                    &&& final(self).stream_contents() == store_written(
                        old(self).stream_contents(),
                        old(self).stream_cursor(),
                        buf@,
                    )
                    &&& final(self).stream_cursor() == old(self).stream_cursor() + buf@.len()
                },
                Err(_) => final(self).stream_contents() == old(self).stream_contents()
                    && final(self).stream_cursor() == old(self).stream_cursor(),
            },
    {
        self.stream.write(buf)
    }

    /// Flushes the backing store; observable state does not change.
    pub fn flush(&mut self) -> (r: Result<(), IoError>)
        ensures
            final(self).base_offset() == old(self).base_offset(),
            final(self).stream_contents() == old(self).stream_contents(),
            final(self).stream_cursor() == old(self).stream_cursor(),
    {
        self.stream.flush()
    }

    /// Seeks the view. `Start(n)` means absolute `base_offset + n` on the
    /// backing store; `End` and `Current` pass through unchanged. The
    /// reported position subtracts the base offset, clamped at zero, so
    /// landing at or before the base reports logical zero.
    pub fn seek(&mut self, pos: SeekFrom) -> (r: Result<u64, IoError>)
        requires
            match pos {
                SeekFrom::Start(n) => old(self).base_offset() + n <= u64::MAX,
                SeekFrom::End(d) => old(self).stream_contents().len() + d <= u64::MAX,
                SeekFrom::Current(d) => old(self).stream_cursor() + d <= u64::MAX,
            },
        ensures
            final(self).base_offset() == old(self).base_offset(),
            final(self).stream_contents() == old(self).stream_contents(),
            match pos {
                SeekFrom::Start(n) => {
                    &&& final(self).stream_cursor() == old(self).base_offset() + n
                    &&& r == Ok::<u64, IoError>(n)
                },
                SeekFrom::End(d) => if old(self).stream_contents().len() + d >= 0 {
                    &&& final(self).stream_cursor() == old(self).stream_contents().len() + d
                    &&& r == Ok::<u64, IoError>(
                        logical_position(
                            old(self).stream_contents().len() + d,
                            old(self).base_offset() as int,
                        ) as u64,
                    )
                } else {
                    &&& r == Err::<u64, IoError>(IoError::NegativePosition)
                    &&& final(self).stream_cursor() == old(self).stream_cursor()
                },
                SeekFrom::Current(d) => if old(self).stream_cursor() + d >= 0 {
                    &&& final(self).stream_cursor() == old(self).stream_cursor() + d
                    &&& r == Ok::<u64, IoError>(
                        logical_position(
                            old(self).stream_cursor() + d,
                            old(self).base_offset() as int,
                        ) as u64,
                    )
                } else {
                    &&& r == Err::<u64, IoError>(IoError::NegativePosition)
                    &&& final(self).stream_cursor() == old(self).stream_cursor()
                },
            },
    {
        let offset_pos = match pos {
            SeekFrom::Start(n) => SeekFrom::Start(self.offset + n),
            from_end_or_current => from_end_or_current,
        };
        match self.stream.seek(offset_pos) {
            Ok(new_pos) => {
                let offset_new_pos = if new_pos >= self.offset {
                    new_pos - self.offset
                } else {
                    0
                };
                Ok(offset_new_pos)
            },
            Err(e) => Err(e),
        }
    }
}

} // verus!
