//! The byte-oriented storage contract and the element-stride bridge.
//!
//! A caller may supply its own storage backend by implementing `File`.
//! The engine, however, reads and writes in batches of fixed-size
//! elements. The bridge here translates between the two: it moves one
//! element at a time, counts only fully completed elements, and stops
//! early — without error — on a short read or short write.

use vstd::prelude::*;

verus! {

/// Where a seek starts from.
#[derive(Debug, Copy, Clone, PartialEq, Eq, Structural)]
pub enum SeekFrom {
    /// An absolute offset from the start.
    Start(u64),
    /// A signed offset from the current position.
    Current(i64),
    /// A signed offset from the end.
    End(i64),
}

/// A caller-supplied storage backend, byte-oriented. An implementation
/// may fail or fall short on any call; the contracts only bound how
/// much data a call can claim to have moved.
pub trait File {
    /// Read up to `len` bytes; a short result is not an error.
    fn read(&mut self, len: usize) -> (r: Result<Vec<u8>, ()>)
        ensures
            r matches Ok(v) ==> v@.len() <= len,
    ;

    /// Write the buffer; the result counts how many leading bytes were
    /// taken.
    fn write(&mut self, buf: &Vec<u8>) -> (r: Result<usize, ()>)
        ensures
            r matches Ok(n) ==> n <= buf@.len(),
    ;

    /// The current position.
    fn tell(&mut self) -> u64;

    /// The total size of the storage.
    fn size(&mut self) -> u64;

    /// Move the position.
    fn seek(&mut self, pos: SeekFrom) -> Result<(), ()>;

    /// Push buffered data down.
    fn flush(&mut self);

    /// Give the storage back.
    fn close(&mut self);
}

/// Copy `len` bytes of `data` starting at `start`.
fn copy_range(data: &Vec<u8>, start: usize, len: usize) -> (r: Vec<u8>)
    requires
        start + len <= data@.len(),
    ensures
        r@ == data@.subrange(start as int, start as int + len as int),
{
    let total = data.len();
    let mut out: Vec<u8> = Vec::new();
    for i in 0..len
        invariant
            start + len <= total,
            total == data@.len(),
            out@ =~= data@.subrange(start as int, start as int + i as int),
    {
        out.push(data[start + i]);
        proof {
            assert(data@.subrange(start as int, start as int + (i + 1) as int) =~= data@.subrange(
                start as int,
                start as int + i as int,
            ).push(data@[start as int + i as int]));
        }
    }
    out
}

/// Read `count` elements of `size` bytes each from the backend,
/// gathering them into one buffer.
///
/// Elements are read one stride at a time; a read that comes back short
/// or failing ends the batch early without error, and only fully
/// completed elements are returned and counted. A whole-batch read
/// failure on the byte-sized fast path is an error, as the engine's own
/// batched reads treat it. On success the buffer holds exactly the
/// counted elements: its length is the element count times the size.
pub fn read_elements<F: File>(file: &mut F, size: usize, count: usize) -> (r: Result<
    (Vec<u8>, usize),
    (),
>)
    requires
        size >= 1,
    ensures
        r matches Ok(out) ==> out.1 <= count && out.0@.len() == out.1 * size,
        size != 1 ==> r is Ok,
{
    if size == 1 {
        match file.read(count) {
            Ok(v) => {
                let n = v.len();
                Ok((v, n))
            },
            Err(_) => Err(()),
        }
    } else {
        let mut out: Vec<u8> = Vec::new();
        let mut total: usize = 0;
        let mut i: usize = 0;
        let mut stop: bool = false;
        while i < count && !stop
            invariant
                total <= i <= count,
                size >= 1,
                out@.len() == total * size,
            decreases count - i,
        {
            match file.read(size) {
                Ok(mut chunk) => {
                    if chunk.len() == size {
                        out.append(&mut chunk);
                        proof {
                            assert((total + 1) * size == total * size + size) by (nonlinear_arith);
                        }
                        total = total + 1;
                    } else {
                        stop = true;
                    }
                },
                Err(_) => {
                    stop = true;
                },
            }
            i = i + 1;
        }
        Ok((out, total))
    }
}

/// Write `count` elements of `size` bytes each from `data` to the
/// backend.
///
/// Elements are written one stride at a time; a write that takes less
/// than a full element or fails ends the batch early without error, and
/// the result counts only fully completed elements. A whole-batch write
/// failure on the byte-sized fast path is an error, as the engine's own
/// batched writes treat it.
pub fn write_elements<F: File>(file: &mut F, data: &Vec<u8>, size: usize, count: usize) -> (r:
    Result<usize, ()>)
    requires
        size >= 1,
        size * count <= data@.len(),
    ensures
        r matches Ok(t) ==> t <= count,
        size != 1 ==> r is Ok,
{
    if size == 1 {
        let chunk = copy_range(data, 0, count);
        match file.write(&chunk) {
            Ok(n) => Ok(n),
            Err(_) => Err(()),
        }
    } else {
        let dlen = data.len();
        let mut total: usize = 0;
        let mut i: usize = 0;
        let mut stop: bool = false;
        while i < count && !stop
            invariant
                total <= i <= count,
                size >= 1,
                dlen == data@.len(),
                size * count <= dlen,
            decreases count - i,
        {
            proof {
                assert(i * size + size <= count * size && count * size == size * count)
                    by (nonlinear_arith)
                    requires
                        i < count,
                        size >= 1,
                ;
            }
            let start = i * size;
            let chunk = copy_range(data, start, size);
            match file.write(&chunk) {
                Ok(n) => {
                    if n == size {
                        total = total + 1;
                    } else {
                        stop = true;
                    }
                },
                Err(_) => {
                    stop = true;
                },
            }
            i = i + 1;
        }
        Ok(total)
    }
}

/// An in-memory storage backend: a growable byte buffer behind the
/// `File` contract.
#[derive(Debug, Clone, PartialEq)]
pub struct MemFile {
    /// The stored bytes.
    pub data: Vec<u8>,
    /// The current position; may sit past the end, where reads see
    /// nothing and writes pad the gap with zero bytes.
    pub pos: usize,
}

impl MemFile {
    /// A backend over the given bytes, positioned at the start.
    pub fn new(data: Vec<u8>) -> (f: MemFile)
        ensures
            f.data == data,
            f.pos == 0,
    {
        MemFile { data, pos: 0 }
    }
}

impl File for MemFile {
    /// Read up to `len` bytes from the current position: exactly the
    /// stored bytes there, as many as are stored and asked for.
    fn read(&mut self, len: usize) -> (r: Result<Vec<u8>, ()>)
        ensures
            ({
                let start = vstd::math::min(old(self).pos as int, old(self).data@.len() as int);
                let end = vstd::math::min(start + len, old(self).data@.len() as int);
                &&& r matches Ok(v) && v@ == old(self).data@.subrange(start, end)
                &&& final(self).data == old(self).data
                &&& final(self).pos == end
            }),
    {
        let start = if self.pos <= self.data.len() {
            self.pos
        } else {
            self.data.len()
        };
        let avail = self.data.len() - start;
        let m = if len <= avail {
            len
        } else {
            avail
        };
        let out = copy_range(&self.data, start, m);
        self.pos = start + m;
        Ok(out)
    }

    /// Write the whole buffer at the current position, padding any gap
    /// past the end with zero bytes; fails, changing nothing, only when
    /// the resulting position would no longer be representable.
    fn write(&mut self, buf: &Vec<u8>) -> (r: Result<usize, ()>)
        ensures
            ({
                let p = old(self).pos as int;
                let n = buf@.len() as int;
                let old_len = old(self).data@.len() as int;
                if p + n > usize::MAX {
                    &&& r is Err
                    &&& *final(self) == *old(self)
                } else {
                    &&& r matches Ok(k) && k == buf@.len()
                    &&& final(self).pos == p + n
                    &&& final(self).data@.len() == vstd::math::max(old_len, p + n)
                    &&& forall|i: int|
                        0 <= i < final(self).data@.len() ==> final(self).data@[i] == (if p <= i
                            < p + n {
                            buf@[i - p]
                        } else if i < old_len {
                            old(self).data@[i]
                        } else {
                            0u8
                        })
                }
            }),
    {
        if usize::MAX - self.pos < buf.len() {
            return Err(());
        }
        while self.data.len() < self.pos
            invariant
                usize::MAX - self.pos >= buf@.len(),
                self.pos == old(self).pos,
                old(self).data@.len() <= self.data@.len(),
                self.data@.len() <= vstd::math::max(
                    old(self).data@.len() as int,
                    self.pos as int,
                ),
                forall|i: int|
                    0 <= i < self.data@.len() ==> self.data@[i] == (if i
                        < old(self).data@.len() {
                        old(self).data@[i]
                    } else {
                        0u8
                    }),
            decreases self.pos - self.data.len(),
        {
            self.data.push(0);
        }
        let n = buf.len();
        for i in 0..n
            invariant
                usize::MAX - self.pos >= n,
                self.pos == old(self).pos,
                n == buf@.len(),
                self.data@.len() == vstd::math::max(
                    vstd::math::max(old(self).data@.len() as int, self.pos as int),
                    self.pos + i,
                ),
                forall|k: int|
                    0 <= k < self.data@.len() ==> self.data@[k] == (if self.pos <= k < self.pos
                        + i {
                        buf@[k - self.pos]
                    } else if k < old(self).data@.len() {
                        old(self).data@[k]
                    } else {
                        0u8
                    }),
        {
            if self.pos + i < self.data.len() {
                self.data.set(self.pos + i, buf[i]);
            } else {
                self.data.push(buf[i]);
            }
        }
        self.pos = self.pos + n;
        Ok(n)
    }

    /// The current position.
    fn tell(&mut self) -> (r: u64)
        ensures
            *final(self) == *old(self),
            r == old(self).pos,
    {
        self.pos as u64
    }

    /// How many bytes the buffer holds.
    fn size(&mut self) -> (r: u64)
        ensures
            *final(self) == *old(self),
            r == old(self).data@.len(),
    {
        self.data.len() as u64
    }

    /// Move the position to the resolved target; fails, changing
    /// nothing, on a target before the start or past what a position can
    /// represent.
    fn seek(&mut self, pos: SeekFrom) -> (r: Result<(), ()>)
        ensures
            ({
                let t: int = match pos {
                    SeekFrom::Start(p) => p as int,
                    SeekFrom::Current(d) => old(self).pos + d,
                    SeekFrom::End(d) => old(self).data@.len() + d,
                };
                &&& final(self).data == old(self).data
                &&& (r is Ok <==> 0 <= t <= usize::MAX)
                &&& (r is Ok ==> final(self).pos == t)
                &&& (r is Err ==> final(self).pos == old(self).pos)
            }),
    {
        let target: Option<u64> = match pos {
            SeekFrom::Start(p) => Some(p),
            SeekFrom::Current(d) => (self.pos as u64).checked_add_signed(d),
            SeekFrom::End(d) => (self.data.len() as u64).checked_add_signed(d),
        };
        match target {
            Some(t) => {
                if t <= usize::MAX as u64 {
                    self.pos = t as usize;
                    Ok(())
                } else {
                    Err(())
                }
            },
            None => Err(()),
        }
    }

    /// Nothing is buffered.
    fn flush(&mut self) {
    }

    /// Nothing is held.
    fn close(&mut self) {
    }
}

} // verus!
