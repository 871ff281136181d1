//! The capability that the registry drives: raw, width-typed access to a byte
//! range, and the derivation of narrower views of it.
use vstd::prelude::*;
use crate::bytes::{fits, le_bytes, le_value, splice};
use crate::error::AccessError;
use crate::width::Width;

verus! {

/// Whether `n` bytes at `off` lie inside a range of `extent` bytes.
pub open spec fn in_extent(extent: usize, off: int, n: int) -> bool {
    0 <= off && 0 <= n && off + n <= extent
}

/// Whether a view at `off` of `size` bytes (0: up to the end) lies inside a
/// range of `extent` bytes.
pub open spec fn view_in_extent(extent: usize, off: usize, size: usize) -> bool {
    off < extent && size <= extent - off
}

/// The length of the view at `off` of `size` bytes (0: up to the end) of a
/// range of `extent` bytes.
pub open spec fn view_len(extent: usize, off: usize, size: usize) -> int {
    if size == 0 {
        extent - off
    } else {
        size as int
    }
}

/// A backend that retains writes holds exactly as many bytes as it maps.
pub open spec fn coherent(retains: bool, mem: Seq<u8>, extent: usize) -> bool {
    retains ==> mem.len() == extent
}

/// Whether `len` bytes at `offset` lie inside a range of `extent` bytes,
/// computed without overflow.
pub fn range_fits(extent: usize, offset: usize, len: usize) -> (r: bool)
    ensures
        r == in_extent(extent, offset as int, len as int),
{
    offset <= extent && len <= extent - offset
}

/// Whether the view at `offset` of `size` bytes (0: up to the end) lies
/// inside a range of `extent` bytes.
pub fn view_fits(extent: usize, offset: usize, size: usize) -> (r: bool)
    ensures
        r == view_in_extent(extent, offset, size),
{
    offset < extent && size <= extent - offset
}

/// Result of reading `n` bytes at `off` from plain memory holding `mem`.
pub open spec fn plain_read(mem: Seq<u8>, off: int, n: nat) -> Result<u64, AccessError> {
    if fits(mem, off, n as int) {
        Ok(le_value(mem.subrange(off, off + n)) as u64)
    } else {
        Err(AccessError::OutOfRange)
    }
}

/// Result of storing `bytes` at `off` into plain memory holding `mem`, and the
/// contents afterwards.
pub open spec fn plain_write(mem: Seq<u8>, off: int, bytes: Seq<u8>) -> (
    Result<(), AccessError>,
    Seq<u8>,
) {
    if fits(mem, off, bytes.len() as int) {
        (Ok(()), splice(mem, off, bytes))
    } else {
        (Err(AccessError::OutOfRange), mem)
    }
}

/// Result of copying `len` bytes at `off` out of plain memory holding `mem`.
pub open spec fn plain_copy_out(mem: Seq<u8>, off: int, len: nat) -> Result<Seq<u8>, AccessError> {
    if fits(mem, off, len as int) {
        Ok(mem.subrange(off, off + len))
    } else {
        Err(AccessError::OutOfRange)
    }
}

/// What every backend guarantees of a read of width `w` at `off`: it succeeds
/// exactly inside the mapped range, with a value of that width, and a backend
/// that retains writes returns the bytes it holds there.
pub open spec fn read_post(
    retains: bool,
    mem: Seq<u8>,
    extent: usize,
    off: usize,
    w: Width,
    r: Result<u64, AccessError>,
) -> bool {
    &&& coherent(retains, mem, extent)
    &&& r is Ok <==> in_extent(extent, off as int, w.bytes() as int)
    &&& r matches Ok(v) ==> v < w.modulus()
    &&& r matches Err(e) ==> e == AccessError::OutOfRange
    &&& retains ==> r == plain_read(mem, off as int, w.bytes())
}

/// What every backend guarantees of storing `bytes` at `off`, taking it from
/// contents `pre` to contents `post`: it succeeds exactly inside the mapped
/// range, which it leaves as it was, and a backend that retains writes then
/// holds `bytes` there.
pub open spec fn write_post(
    pre_retains: bool,
    pre: Seq<u8>,
    pre_extent: usize,
    post_retains: bool,
    post: Seq<u8>,
    post_extent: usize,
    off: usize,
    bytes: Seq<u8>,
    r: Result<(), AccessError>,
) -> bool {
    &&& coherent(pre_retains, pre, pre_extent)
    &&& coherent(post_retains, post, post_extent)
    &&& post_extent == pre_extent
    &&& r is Ok <==> in_extent(pre_extent, off as int, bytes.len() as int)
    &&& r matches Err(e) ==> e == AccessError::OutOfRange
    &&& pre_retains ==> {
        &&& post_retains
        &&& (r, post) == plain_write(pre, off as int, bytes)
    }
}

/// What every backend guarantees of copying `len` bytes out at `off`.
pub open spec fn copy_out_post(
    retains: bool,
    mem: Seq<u8>,
    extent: usize,
    off: usize,
    len: usize,
    r: Result<Vec<u8>, AccessError>,
) -> bool {
    &&& coherent(retains, mem, extent)
    &&& r is Ok <==> in_extent(extent, off as int, len as int)
    &&& r matches Ok(v) ==> v@.len() == len
    &&& r matches Err(e) ==> e == AccessError::OutOfRange
    &&& retains ==> match r {
        Ok(v) => plain_copy_out(mem, off as int, len as nat) == Ok::<Seq<u8>, AccessError>(v@),
        Err(e) => plain_copy_out(mem, off as int, len as nat) == Err::<Seq<u8>, AccessError>(e),
    }
}

/// A memory-access capability: a file mapping, a kernel I/O region, a DMA
/// buffer, or a plain byte buffer standing in for one of them.
///
/// Every backend succeeds exactly on accesses inside its mapped range. Device
/// registers need not keep what is written to them, so the clauses on the
/// values read and stored bind only a backend that `retains_writes`.
pub trait Backend: Sized {
    /// Whether the backend behaves as ordinary memory: a read returns what the
    /// last write there stored, and only its own writes change its contents.
    /// A device region makes no such promise, and by default a backend does
    /// not.
    open spec fn retains_writes(&self) -> bool {
        false
    }

    /// The bytes the backend holds, where it `retains_writes`.
    open spec fn contents(&self) -> Seq<u8> {
        Seq::empty()
    }

    /// Length of the mapped range in bytes.
    spec fn extent(&self) -> usize;

    /// Virtual address of the mapped range.
    spec fn address(&self) -> usize;

    /// Physical (bus) address of the range, where the backend has one.
    spec fn physical(&self) -> Option<usize>;

    /// Virtual address of the mapped range.
    fn addr(&self) -> (r: usize)
        ensures
            r == self.address(),
    ;

    /// Length of the mapped range in bytes.
    fn size(&self) -> (r: usize)
        ensures
            r == self.extent(),
            coherent(self.retains_writes(), self.contents(), self.extent()),
    ;

    /// Physical (bus) address of the range, where the backend has one.
    fn phys_addr(&self) -> (r: Option<usize>)
        ensures
            r == self.physical(),
    ;

    /// Reads `width.bytes()` bytes at byte offset `offset`, zero-extended.
    fn read_at(&self, offset: usize, width: Width) -> (r: Result<u64, AccessError>)
        ensures
            read_post(self.retains_writes(), self.contents(), self.extent(), offset, width, r),
    ;

    /// Stores the low `width.bytes()` bytes of `bits` at byte offset `offset`.
    fn write_at(&mut self, offset: usize, width: Width, bits: u64) -> (r: Result<(), AccessError>)
        requires
            bits < width.modulus(),
        ensures
            write_post(
                old(self).retains_writes(),
                old(self).contents(),
                old(self).extent(),
                final(self).retains_writes(),
                final(self).contents(),
                final(self).extent(),
                offset,
                le_bytes(bits as nat, width.bytes()),
                r,
            ),
            final(self).address() == old(self).address(),
            final(self).physical() == old(self).physical(),
    ;

    /// Stores `data` at byte offset `offset`.
    fn copy_in(&mut self, offset: usize, data: &[u8]) -> (r: Result<(), AccessError>)
        ensures
            write_post(
                old(self).retains_writes(),
                old(self).contents(),
                old(self).extent(),
                final(self).retains_writes(),
                final(self).contents(),
                final(self).extent(),
                offset,
                data@,
                r,
            ),
            final(self).address() == old(self).address(),
            final(self).physical() == old(self).physical(),
    ;

    /// Reads `len` bytes at byte offset `offset` into a new vector.
    fn copy_out(&self, offset: usize, len: usize) -> (r: Result<Vec<u8>, AccessError>)
        ensures
            copy_out_post(self.retains_writes(), self.contents(), self.extent(), offset, len, r),
    ;

    /// An independent capability over `size` bytes at `offset` of this one
    /// (0: up to the end); it succeeds exactly where that view lies inside the
    /// mapped range.
    fn subclone(&self, offset: usize, size: usize) -> (r: Result<Self, AccessError>)
        ensures
            coherent(self.retains_writes(), self.contents(), self.extent()),
            r is Ok <==> view_in_extent(self.extent(), offset, size),
            r matches Err(e) ==> e == AccessError::OutOfRange,
            r matches Ok(c) ==> c.extent() == view_len(self.extent(), offset, size) && coherent(
                c.retains_writes(),
                c.contents(),
                c.extent(),
            ),
            r matches Ok(c) ==> (self.retains_writes() ==> c.retains_writes() && c.contents()
                == self.contents().subrange(
                offset as int,
                offset + view_len(self.extent(), offset, size),
            )),
    ;
}

} // verus!
