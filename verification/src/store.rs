//! Seekable random-access byte stores.
//!
//! [`RandomAccess`] is the contract a backing store must meet for an
//! [`crate::offset::OffsetFile`] to present a sub-range of it as an
//! independent stream: a sequence of bytes plus a cursor, with
//! seek/read/write semantics stated exactly. [`MemStore`] is the verified
//! in-memory store; the application supplies file-backed stores through the
//! same trait.

use vstd::prelude::*;

verus! {

/// A position to seek to: absolute from the start, or relative to the end
/// or the current cursor.
#[derive(Debug, Clone, Copy, PartialEq, Eq)]
pub enum SeekFrom {
    Start(u64),
    End(i64),
    Current(i64),
}

/// Why a store operation failed.
#[derive(Debug, Clone, Copy, PartialEq, Eq)]
pub enum IoError {
    /// A relative seek would land before the first byte of the store.
    NegativePosition,
    /// The backing store could not complete the operation. The in-memory
    /// store never reports this; stores backed by the outside world do,
    /// and their errors propagate through the view unchanged.
    Failed,
}

/// The bytes a read yields: from the cursor up to `n` bytes, stopping at
/// the end of the store; a cursor at or past the end yields nothing.
pub open spec fn bytes_read(contents: Seq<u8>, cursor: nat, n: nat) -> Seq<u8> {
    if cursor >= contents.len() {
        Seq::empty()
    } else if cursor + n <= contents.len() {
        contents.subrange(cursor as int, (cursor + n) as int)
    } else {
        contents.subrange(cursor as int, contents.len() as int)
    }
}

/// The store contents after writing `buf` at `cursor`: the written range
/// holds `buf`, bytes outside it are kept, and a gap between the old end of
/// the store and a cursor beyond it is zero-filled.
pub open spec fn store_written(contents: Seq<u8>, cursor: nat, buf: Seq<u8>) -> Seq<u8> {
    let len = if cursor + buf.len() >= contents.len() {
        cursor + buf.len()
    } else {
        contents.len()
    };
    Seq::new(
        len,
        |i: int|
            if cursor <= i < cursor + buf.len() {
                buf[i - cursor]
            } else if i < contents.len() {
                contents[i]
            } else {
                0u8
            },
    )
}

/// A seekable random-access byte store: a sequence of bytes and a cursor
/// where the next read or write happens. A store hands out its cursor to
/// exactly one user at a time; these contracts assume exclusive ownership.
pub trait RandomAccess: Sized {
    /// The bytes the store holds. A store the verifier reasons about
    /// overrides this; the default stands in for stores outside its view,
    /// such as the application's file-backed ones.
    open spec fn contents(&self) -> Seq<u8> {
        Seq::empty()
    }

    /// The position of the next read or write. Overridden like
    /// [`RandomAccess::contents`].
    open spec fn cursor(&self) -> nat {
        0
    }

    /// Moves the cursor. An absolute seek always succeeds, even past the
    /// end of the store; a relative seek fails — and moves nothing — when
    /// it would land before the first byte. Returns the new absolute
    /// position.
    fn seek(&mut self, pos: SeekFrom) -> (r: Result<u64, IoError>)
        requires
            match pos {
                SeekFrom::Start(n) => true,
                SeekFrom::End(d) => old(self).contents().len() + d <= u64::MAX,
                SeekFrom::Current(d) => old(self).cursor() + d <= u64::MAX,
            },
        ensures
            final(self).contents() == old(self).contents(),
            match pos {
                SeekFrom::Start(n) => r == Ok::<u64, IoError>(n) && final(self).cursor() == n,
                SeekFrom::End(d) => if old(self).contents().len() + d >= 0 {
                    &&& r == Ok::<u64, IoError>((old(self).contents().len() + d) as u64)
                    &&& final(self).cursor() == old(self).contents().len() + d
                } else {
                    &&& r == Err::<u64, IoError>(IoError::NegativePosition)
                    &&& final(self).cursor() == old(self).cursor()
                },
                SeekFrom::Current(d) => if old(self).cursor() + d >= 0 {
                    &&& r == Ok::<u64, IoError>((old(self).cursor() + d) as u64)
                    &&& final(self).cursor() == old(self).cursor() + d
                } else {
                    &&& r == Err::<u64, IoError>(IoError::NegativePosition)
                    &&& final(self).cursor() == old(self).cursor()
                },
            },
    ;

    /// Reads up to `n` bytes at the cursor, advancing it by the number of
    /// bytes actually read.
    fn read(&mut self, n: usize) -> (r: Result<Vec<u8>, IoError>)
        ensures
            final(self).contents() == old(self).contents(),
            match r {
                Ok(v) => {
                    &&& v@ == bytes_read(old(self).contents(), old(self).cursor(), n as nat)
                    &&& final(self).cursor() == old(self).cursor() + v@.len()
                },
                Err(_) => final(self).cursor() == old(self).cursor(),
            },
    ;

    /// Writes all of `buf` at the cursor, advancing it past the written
    /// bytes, and reports how many bytes were written.
    fn write(&mut self, buf: &[u8]) -> (r: Result<usize, IoError>)
        requires
            old(self).cursor() + buf@.len() <= usize::MAX,
        ensures
            match r {
                Ok(n) => {
                    &&& n == buf@.len()
                    &&& final(self).contents() == store_written(
                        old(self).contents(),
                        old(self).cursor(),
                        buf@,
                    )
                    &&& final(self).cursor() == old(self).cursor() + buf@.len()
                },
                Err(_) => final(self).contents() == old(self).contents() && final(self).cursor()
                    == old(self).cursor(),
            },
    ;

    /// Pushes any buffered bytes down; observable state does not change.
    fn flush(&mut self) -> (r: Result<(), IoError>)
        ensures
            final(self).contents() == old(self).contents(),
            final(self).cursor() == old(self).cursor(),
    ;
}

/// A fully verified in-memory store, used for cached content held in
/// memory and as the reference model of the trait's semantics.
pub struct MemStore {
    data: Vec<u8>,
    pos: u64,
}

impl MemStore {
    /// A store holding `data`, cursor at the first byte.
    pub fn new(data: Vec<u8>) -> (r: Self)
        ensures
            r.contents() == data@,
            r.cursor() == 0,
    {
        MemStore { data, pos: 0 }
    }

    /// The bytes the store currently holds.
    pub fn bytes(&self) -> (r: &Vec<u8>)
        ensures
            r@ == self.contents(),
    {
        &self.data
    }

    /// The current absolute cursor position.
    pub fn position(&self) -> (r: u64)
        ensures
            r == self.cursor(),
    {
        self.pos
    }
}

impl RandomAccess for MemStore {
    closed spec fn contents(&self) -> Seq<u8> {
        self.data@
    }

    closed spec fn cursor(&self) -> nat {
        self.pos as nat
    }

    fn seek(&mut self, pos: SeekFrom) -> (r: Result<u64, IoError>) {
        match pos {
            SeekFrom::Start(n) => {
                self.pos = n;
                Ok(n)
            },
            SeekFrom::End(d) => {
                let target: i128 = self.data.len() as i128 + d as i128;
                if target < 0 {
                    Err(IoError::NegativePosition)
                } else {
                    self.pos = target as u64;
                    Ok(self.pos)
                }
            },
            SeekFrom::Current(d) => {
                let target: i128 = self.pos as i128 + d as i128;
                if target < 0 {
                    Err(IoError::NegativePosition)
                } else {
                    self.pos = target as u64;
                    Ok(self.pos)
                }
            },
        }
    }

    fn read(&mut self, n: usize) -> (r: Result<Vec<u8>, IoError>) {
        if self.pos >= self.data.len() as u64 {
            let v: Vec<u8> = Vec::new();
            return Ok(v);
        }
        let start: usize = self.pos as usize;
        let dlen: usize = self.data.len();
        let avail: usize = dlen - start;
        let take: usize = if n <= avail {
            n
        } else {
            avail
        };
        let mut v: Vec<u8> = Vec::with_capacity(take);
        let mut j: usize = 0;
        while j < take
            invariant
                j <= take,
                self.data@.len() == dlen,
                start + take <= dlen,
                v@ == self.data@.subrange(start as int, start + j),
            decreases take - j,
        {
            v.push(self.data[start + j]);
            proof {
                assert(v@ =~= self.data@.subrange(start as int, start + j + 1));
            }
            j += 1;
        }
        self.pos = self.pos + take as u64;
        proof {
            assert(v@ == bytes_read(self.data@, start as nat, n as nat));
        }
        Ok(v)
    }

    fn write(&mut self, buf: &[u8]) -> (r: Result<usize, IoError>) {
        let cursor: usize = self.pos as usize;
        let ghost old_data = self.data@;
        // Zero-fill any gap between the end of the store and the cursor.
        while self.data.len() < cursor
            invariant
                self.pos == cursor as u64,
                old_data.len() <= self.data@.len(),
                cursor <= old_data.len() ==> self.data@.len() == old_data.len(),
                cursor > old_data.len() ==> self.data@.len() <= cursor,
                forall|i: int| 0 <= i < old_data.len() ==> self.data@[i] == old_data[i],
                forall|i: int|
                    old_data.len() <= i < self.data@.len() ==> self.data@[i] == 0u8,
            decreases cursor - self.data.len(),
        {
            self.data.push(0);
        }
        let ghost padded = self.data@;
        proof {
            assert(padded.len() == if cursor >= old_data.len() {
                cursor as nat
            } else {
                old_data.len()
            });
        }
        // Overwrite in place, extending once the end of the store is reached.
        let mut j: usize = 0;
        while j < buf.len()
            invariant
                j <= buf@.len(),
                cursor + buf@.len() <= usize::MAX,
                cursor <= padded.len(),
                self.pos == cursor as u64,
                self.data@.len() == if cursor + j <= padded.len() {
                    padded.len()
                } else {
                    (cursor + j) as nat
                },
                forall|k: int|
                    0 <= k < self.data@.len() && !(cursor <= k < cursor + j) ==> self.data@[k]
                        == padded[k],
                forall|k: int| 0 <= k < j ==> self.data@[cursor + k] == buf@[k],
            decreases buf@.len() - j,
        {
            let idx: usize = cursor + j;
            if idx < self.data.len() {
                self.data[idx] = *vstd::slice::slice_index_get(buf, j);
            } else {
                self.data.push(*vstd::slice::slice_index_get(buf, j));
            }
            j += 1;
        }
        self.pos = self.pos + buf.len() as u64;
        proof {
            let target = store_written(old_data, cursor as nat, buf@);
            assert(self.data@.len() == target.len());
            assert forall|i: int| 0 <= i < target.len() implies self.data@[i] == target[i] by {
                if cursor <= i < cursor + buf@.len() {
                    assert(self.data@[i] == buf@[i - cursor]);
                } else if i < cursor {
                    assert(self.data@[i] == padded[i]);
                } else {
                    assert(self.data@[i] == padded[i]);
                }
            }
            assert(self.data@ =~= target);
        }
        Ok(buf.len())
    }

    fn flush(&mut self) -> (r: Result<(), IoError>) {
        Ok(())
    }
}

} // verus!
