//! The handle registry: open backends under integer handles, each with the
//! byte stride of its register-indexed operations.
use vstd::prelude::*;
use std::collections::HashMap;
use crate::backend::{
    Backend, coherent, copy_out_post, in_extent, plain_read, read_post, view_in_extent, view_len,
    write_post,
};
use crate::bytes::le_bytes;
use crate::error::AccessError;
use crate::width::{Width, pointer_bytes, signed_of, width_of_size};

verus! {

broadcast use vstd::std_specs::hash::group_hash_axioms;

/// A handle naming one open backend.
pub type Id = u32;

/// The unit recorded for a handle opened with `unit`: the pointer width in
/// place of 0.
pub open spec fn effective_unit(unit: usize) -> usize {
    if unit == 0 {
        pointer_bytes() as usize
    } else {
        unit
    }
}

/// The byte offset of register `reg` at stride `unit`, where it fits in a
/// `usize`.
pub open spec fn reg_byte_offset(reg: usize, unit: usize) -> Option<usize> {
    if reg * unit <= usize::MAX {
        Some((reg * unit) as usize)
    } else {
        None
    }
}

/// What a signed read of width `w` at `off` gives, from a backend of `extent`
/// bytes that `retains` the contents `mem` or not: success exactly inside the
/// range, with a value of that width.
pub open spec fn signed_read_post(
    retains: bool,
    mem: Seq<u8>,
    extent: usize,
    off: usize,
    w: Width,
    r: Result<i64, AccessError>,
) -> bool {
    &&& r is Ok <==> in_extent(extent, off as int, w.bytes() as int)
    &&& r matches Ok(v) ==> -(w.modulus() as int) / 2 <= v < (w.modulus() as int) / 2
    &&& r matches Err(e) ==> e == AccessError::OutOfRange
    &&& retains ==> r == match plain_read(mem, off as int, w.bytes()) {
        Ok(v) => Ok(signed_of(v as nat, w.bytes()) as i64),
        Err(e) => Err::<i64, AccessError>(e),
    }
}

/// A 32-bit read result, widened.
pub open spec fn widen32(r: Result<u32, AccessError>) -> Result<u64, AccessError> {
    match r {
        Ok(v) => Ok(v as u64),
        Err(e) => Err(e),
    }
}

/// The registry of open backends.
pub struct Accessor<B> {
    id: Id,
    map: HashMap<Id, (B, usize)>,
}

impl<B: Backend> Accessor<B> {
    /// The handle the next `open` or `subclone` issues.
    pub closed spec fn next_id(&self) -> Id {
        self.id
    }

    /// Each open handle with its backend and unit.
    pub closed spec fn entries(&self) -> Map<Id, (B, usize)> {
        self.map@
    }

    pub open spec fn is_open(&self, id: Id) -> bool {
        self.entries().contains_key(id)
    }

    pub open spec fn backend(&self, id: Id) -> B {
        self.entries()[id].0
    }

    pub open spec fn unit(&self, id: Id) -> usize {
        self.entries()[id].1
    }

    /// Handles are issued counting up from 1, so every open handle lies
    /// between 1 and the counter, below it.
    pub open spec fn wf(&self) -> bool {
        &&& self.next_id() != 0
        &&& forall|k: Id| #[trigger] self.entries().contains_key(k) ==> 1 <= k < self.next_id()
    }

    /// Whether the counter can issue no more handles.
    pub open spec fn exhausted(&self) -> bool {
        self.next_id() == u32::MAX
    }

    /// The state after `backend` was added with `unit` as handle `id`, the
    /// counter's value, which then moves on by one.
    pub open spec fn added(&self, post: Self, id: Id, backend: B, unit: usize) -> bool {
        &&& id == self.next_id()
        &&& post.next_id() == self.next_id() + 1
        &&& post.entries() == self.entries().insert(id, (backend, unit))
    }

    /// A registry with no handle open, that issues 1 first.
    pub fn new() -> (r: Self)
        ensures
            r.wf(),
            r.next_id() == 1,
            r.entries() == Map::<Id, (B, usize)>::empty(),
    {
        Accessor { id: 1, map: HashMap::new() }
    }

    /// Stores `backend` under a new handle with the given unit.
    fn insert(&mut self, backend: B, unit: usize) -> (r: Id)
        requires
            old(self).wf(),
            !old(self).exhausted(),
        ensures
            final(self).wf(),
            old(self).added(*final(self), r, backend, unit),
    {
        let id = self.id;
        self.map.insert(id, (backend, unit));
        self.id = self.id + 1;
        proof {
            assert forall|k: Id| #[trigger] self.entries().contains_key(k) implies 1 <= k
                < self.next_id() by {
                if k != id {
                    assert(old(self).entries().contains_key(k));
                }
            }
        }
        id
    }

    /// Stores `backend` under a new handle; a unit of 0 stands for the
    /// pointer width.
    fn add_accessor(&mut self, backend: B, unit: usize) -> (r: Id)
        requires
            old(self).wf(),
            !old(self).exhausted(),
        ensures
            final(self).wf(),
            old(self).added(*final(self), r, backend, effective_unit(unit)),
    {
        let unit = if unit == 0 {
            core::mem::size_of::<usize>()
        } else {
            unit
        };
        self.insert(backend, unit)
    }

    /// What `open` promises: a backend that could not be opened, or that no
    /// handle is left for, leaves the registry as it was; otherwise it is added
    /// under the next handle.
    pub open spec fn open_post(
        &self,
        post: Self,
        opened: Result<B, String>,
        unit: usize,
        r: Result<Id, AccessError>,
    ) -> bool {
        match opened {
            Ok(b) => if self.exhausted() {
                r == Err::<Id, AccessError>(AccessError::HandlesExhausted) && post == *self
            } else {
                r matches Ok(id) && self.added(post, id, b, effective_unit(unit))
            },
            Err(reason) => r == Err::<Id, AccessError>(AccessError::OpenFailed(reason)) && post
                == *self,
        }
    }

    /// Registers the outcome of opening a backend: on success under a new
    /// handle, with `unit` (0: the pointer width) as its register stride.
    pub fn open(&mut self, opened: Result<B, String>, unit: usize) -> (r: Result<Id, AccessError>)
        requires
            old(self).wf(),
        ensures
            final(self).wf(),
            old(self).open_post(*final(self), opened, unit, r),
    {
        match opened {
            Ok(backend) => if self.id == u32::MAX {
                Err(AccessError::HandlesExhausted)
            } else {
                Ok(self.add_accessor(backend, unit))
            },
            Err(reason) => Err(AccessError::OpenFailed(reason)),
        }
    }

    /// What `close` promises.
    pub open spec fn close_post(&self, post: Self, id: Id, r: Result<(), AccessError>) -> bool {
        if self.is_open(id) {
            &&& r is Ok
            &&& post.next_id() == self.next_id()
            &&& post.entries() == self.entries().remove(id)
        } else {
            r == Err::<(), AccessError>(AccessError::InvalidId) && post == *self
        }
    }

    /// Closes handle `id`, dropping its backend.
    pub fn close(&mut self, id: Id) -> (r: Result<(), AccessError>)
        requires
            old(self).wf(),
        ensures
            final(self).wf(),
            old(self).close_post(*final(self), id, r),
    {
        if !self.map.contains_key(&id) {
            return Err(AccessError::InvalidId);
        }
        self.map.remove(&id);
        proof {
            assert forall|k: Id| #[trigger] self.entries().contains_key(k) implies 1 <= k
                < self.next_id() by {
                assert(old(self).entries().contains_key(k));
            }
        }
        Ok(())
    }

    /// Closes every handle; the counter of handles goes on where it was.
    pub fn close_all(&mut self)
        requires
            old(self).wf(),
        ensures
            final(self).wf(),
            final(self).next_id() == old(self).next_id(),
            final(self).entries() == Map::<Id, (B, usize)>::empty(),
    {
        self.map.clear();
    }

    /// What `subclone` promises: on an open handle, with a handle left to
    /// issue, it succeeds exactly where the view lies inside the parent's
    /// range, and adds the derived backend under the next handle.
    pub open spec fn subclone_post(
        &self,
        post: Self,
        id: Id,
        offset: usize,
        size: usize,
        unit: usize,
        r: Result<Id, AccessError>,
    ) -> bool {
        if !self.is_open(id) {
            r == Err::<Id, AccessError>(AccessError::InvalidId) && post == *self
        } else if self.exhausted() {
            r == Err::<Id, AccessError>(AccessError::HandlesExhausted) && post == *self
        } else {
            let parent = self.backend(id);
            let new_unit = if unit == 0 {
                self.unit(id)
            } else {
                unit
            };
            &&& r is Ok <==> view_in_extent(parent.extent(), offset, size)
            &&& match r {
                Ok(n) => {
                    let child = post.backend(n);
                    &&& self.added(post, n, child, new_unit)
                    &&& child.extent() == view_len(parent.extent(), offset, size)
                    &&& coherent(child.retains_writes(), child.contents(), child.extent())
                    &&& parent.retains_writes() ==> child.retains_writes() && child.contents()
                        == parent.contents().subrange(
                        offset as int,
                        offset + view_len(parent.extent(), offset, size),
                    )
                },
                Err(e) => e == AccessError::OutOfRange && post == *self,
            }
        }
    }

    /// Opens a new handle on the `size` bytes at `offset` of handle `id` (0:
    /// up to its end), with `unit` as its stride (0: the parent's unit). The
    /// parent stays open and unchanged.
    pub fn subclone(&mut self, id: Id, offset: usize, size: usize, unit: usize) -> (r: Result<
        Id,
        AccessError,
    >)
        requires
            old(self).wf(),
        ensures
            final(self).wf(),
            old(self).subclone_post(*final(self), id, offset, size, unit, r),
    {
        if self.map.get(&id).is_some() && self.id == u32::MAX {
            return Err(AccessError::HandlesExhausted);
        }
        let (derived, new_unit) = match self.map.get(&id) {
            None => return Err(AccessError::InvalidId),
            Some(entry) => {
                let new_unit = if unit == 0 {
                    entry.1
                } else {
                    unit
                };
                (entry.0.subclone(offset, size), new_unit)
            },
        };
        match derived {
            Ok(backend) => Ok(self.insert(backend, new_unit)),
            Err(e) => Err(e),
        }
    }

    /// The error that handle and width selector alone decide, checked in
    /// this order.
    pub open spec fn dispatch_error(&self, id: Id, size: usize) -> Option<AccessError> {
        if !self.is_open(id) {
            Some(AccessError::InvalidId)
        } else if width_of_size(size) is None {
            Some(AccessError::InvalidSize)
        } else {
            None
        }
    }

    /// A fixed-width read of handle `id` at byte offset `offset`.
    pub open spec fn bits_read_post(
        &self,
        id: Id,
        offset: usize,
        w: Width,
        r: Result<u64, AccessError>,
    ) -> bool {
        if !self.is_open(id) {
            r == Err::<u64, AccessError>(AccessError::InvalidId)
        } else {
            read_post(
                self.backend(id).retains_writes(),
                self.backend(id).contents(),
                self.backend(id).extent(),
                offset,
                w,
                r,
            )
        }
    }

    /// What `read_mem_u` promises.
    pub open spec fn read_u_post(
        &self,
        id: Id,
        offset: usize,
        size: usize,
        r: Result<u64, AccessError>,
    ) -> bool {
        match self.dispatch_error(id, size) {
            Some(e) => r == Err::<u64, AccessError>(e),
            None => self.bits_read_post(id, offset, width_of_size(size).unwrap(), r),
        }
    }

    /// What `read_mem_i` promises.
    pub open spec fn read_i_post(
        &self,
        id: Id,
        offset: usize,
        size: usize,
        r: Result<i64, AccessError>,
    ) -> bool {
        match self.dispatch_error(id, size) {
            Some(e) => r == Err::<i64, AccessError>(e),
            None => signed_read_post(
                self.backend(id).retains_writes(),
                self.backend(id).contents(),
                self.backend(id).extent(),
                offset,
                width_of_size(size).unwrap(),
                r,
            ),
        }
    }

    /// What `read_reg_u` promises.
    pub open spec fn read_reg_u_post(
        &self,
        id: Id,
        reg: usize,
        size: usize,
        r: Result<u64, AccessError>,
    ) -> bool {
        match self.dispatch_error(id, size) {
            Some(e) => r == Err::<u64, AccessError>(e),
            None => match reg_byte_offset(reg, self.unit(id)) {
                Some(off) => self.read_u_post(id, off, size, r),
                None => r == Err::<u64, AccessError>(AccessError::OutOfRange),
            },
        }
    }

    /// What `read_reg_i` promises.
    pub open spec fn read_reg_i_post(
        &self,
        id: Id,
        reg: usize,
        size: usize,
        r: Result<i64, AccessError>,
    ) -> bool {
        match self.dispatch_error(id, size) {
            Some(e) => r == Err::<i64, AccessError>(e),
            None => match reg_byte_offset(reg, self.unit(id)) {
                Some(off) => self.read_i_post(id, off, size, r),
                None => r == Err::<i64, AccessError>(AccessError::OutOfRange),
            },
        }
    }

    /// The registry `post` is this one after `bytes` were handed to the
    /// backend of the open handle `id` at byte offset `offset`, with outcome
    /// `r`.
    pub open spec fn stored(
        &self,
        post: Self,
        id: Id,
        offset: usize,
        bytes: Seq<u8>,
        r: Result<(), AccessError>,
    ) -> bool {
        &&& post.next_id() == self.next_id()
        &&& post.entries() == self.entries().insert(id, (post.backend(id), self.unit(id)))
        &&& post.backend(id).address() == self.backend(id).address()
        &&& post.backend(id).physical() == self.backend(id).physical()
        &&& write_post(
            self.backend(id).retains_writes(),
            self.backend(id).contents(),
            self.backend(id).extent(),
            post.backend(id).retains_writes(),
            post.backend(id).contents(),
            post.backend(id).extent(),
            offset,
            bytes,
            r,
        )
    }

    /// A fixed-width store of `bits` into handle `id` at byte offset `offset`.
    pub open spec fn bits_write_post(
        &self,
        post: Self,
        id: Id,
        offset: usize,
        w: Width,
        bits: nat,
        r: Result<(), AccessError>,
    ) -> bool {
        if !self.is_open(id) {
            r == Err::<(), AccessError>(AccessError::InvalidId) && post == *self
        } else {
            self.stored(post, id, offset, le_bytes(bits, w.bytes()), r)
        }
    }

    /// What `write_mem_u` promises: the value is cut to the selected width.
    pub open spec fn write_u_post(
        &self,
        post: Self,
        id: Id,
        offset: usize,
        data: u64,
        size: usize,
        r: Result<(), AccessError>,
    ) -> bool {
        match self.dispatch_error(id, size) {
            Some(e) => r == Err::<(), AccessError>(e) && post == *self,
            None => {
                let w = width_of_size(size).unwrap();
                self.bits_write_post(post, id, offset, w, (data as nat) % w.modulus(), r)
            },
        }
    }

    /// What `write_mem_i` promises: the value's two's-complement pattern is
    /// cut to the selected width.
    pub open spec fn write_i_post(
        &self,
        post: Self,
        id: Id,
        offset: usize,
        data: i64,
        size: usize,
        r: Result<(), AccessError>,
    ) -> bool {
        match self.dispatch_error(id, size) {
            Some(e) => r == Err::<(), AccessError>(e) && post == *self,
            None => {
                let w = width_of_size(size).unwrap();
                self.bits_write_post(
                    post,
                    id,
                    offset,
                    w,
                    ((data as int) % (w.modulus() as int)) as nat,
                    r,
                )
            },
        }
    }

    /// What `write_reg_u` promises.
    pub open spec fn write_reg_u_post(
        &self,
        post: Self,
        id: Id,
        reg: usize,
        data: u64,
        size: usize,
        r: Result<(), AccessError>,
    ) -> bool {
        match self.dispatch_error(id, size) {
            Some(e) => r == Err::<(), AccessError>(e) && post == *self,
            None => match reg_byte_offset(reg, self.unit(id)) {
                Some(off) => self.write_u_post(post, id, off, data, size, r),
                None => r == Err::<(), AccessError>(AccessError::OutOfRange) && post == *self,
            },
        }
    }

    /// What `write_reg_i` promises.
    pub open spec fn write_reg_i_post(
        &self,
        post: Self,
        id: Id,
        reg: usize,
        data: i64,
        size: usize,
        r: Result<(), AccessError>,
    ) -> bool {
        match self.dispatch_error(id, size) {
            Some(e) => r == Err::<(), AccessError>(e) && post == *self,
            None => match reg_byte_offset(reg, self.unit(id)) {
                Some(off) => self.write_i_post(post, id, off, data, size, r),
                None => r == Err::<(), AccessError>(AccessError::OutOfRange) && post == *self,
            },
        }
    }

    /// The byte offset of register `reg` of handle `id`.
    fn reg_offset(&self, id: Id, reg: usize) -> (r: Option<usize>)
        requires
            self.is_open(id),
        ensures
            r == reg_byte_offset(reg, self.unit(id)),
    {
        match self.map.get(&id) {
            Some(entry) => reg.checked_mul(entry.1),
            None => None,
        }
    }

    /// Reads `w` bits at `offset` from the open handle `id`.
    fn read_bits(&self, id: Id, offset: usize, w: Width) -> (r: Result<u64, AccessError>)
        ensures
            self.bits_read_post(id, offset, w, r),
    {
        match self.map.get(&id) {
            Some(entry) => entry.0.read_at(offset, w),
            None => Err(AccessError::InvalidId),
        }
    }

    /// Reads `w` bits at `offset` from the open handle `id`, as a signed value.
    fn read_signed(&self, id: Id, offset: usize, w: Width) -> (r: Result<i64, AccessError>)
        requires
            self.is_open(id),
        ensures
            signed_read_post(
                self.backend(id).retains_writes(),
                self.backend(id).contents(),
                self.backend(id).extent(),
                offset,
                w,
                r,
            ),
    {
        match self.read_bits(id, offset, w) {
            Ok(bits) => Ok(w.sign_extend(bits)),
            Err(e) => Err(e),
        }
    }

    /// Stores `bits` of width `w` at `offset` into handle `id`.
    fn write_bits(&mut self, id: Id, offset: usize, w: Width, bits: u64) -> (r: Result<(), AccessError>)
        requires
            old(self).wf(),
            bits < w.modulus(),
        ensures
            final(self).wf(),
            old(self).bits_write_post(*final(self), id, offset, w, bits as nat, r),
    {
        if !self.map.contains_key(&id) {
            return Err(AccessError::InvalidId);
        }
        match self.map.remove(&id) {
            Some(entry) => {
                let (mut backend, unit) = entry;
                let r = backend.write_at(offset, w, bits);
                self.map.insert(id, (backend, unit));
                proof {
                    assert(self.entries() =~= old(self).entries().insert(id, (backend, unit)));
                }
                r
            },
            None => Err(AccessError::InvalidId),
        }
    }

    /// Stores `data` at `offset` into handle `id`.
    fn write_bytes(&mut self, id: Id, offset: usize, data: &[u8]) -> (r: Result<(), AccessError>)
        requires
            old(self).wf(),
            old(self).is_open(id),
        ensures
            final(self).wf(),
            old(self).stored(*final(self), id, offset, data@, r),
    {
        match self.map.remove(&id) {
            Some(entry) => {
                let (mut backend, unit) = entry;
                let r = backend.copy_in(offset, data);
                self.map.insert(id, (backend, unit));
                proof {
                    assert(self.entries() =~= old(self).entries().insert(id, (backend, unit)));
                }
                r
            },
            None => Err(AccessError::InvalidId),
        }
    }

    /// A fixed-width read of register `reg` of handle `id`.
    pub open spec fn bits_read_reg_post(
        &self,
        id: Id,
        reg: usize,
        w: Width,
        r: Result<u64, AccessError>,
    ) -> bool {
        if !self.is_open(id) {
            r == Err::<u64, AccessError>(AccessError::InvalidId)
        } else {
            match reg_byte_offset(reg, self.unit(id)) {
                Some(off) => self.bits_read_post(id, off, w, r),
                None => r == Err::<u64, AccessError>(AccessError::OutOfRange),
            }
        }
    }

    /// A fixed-width store of `bits` into register `reg` of handle `id`.
    pub open spec fn bits_write_reg_post(
        &self,
        post: Self,
        id: Id,
        reg: usize,
        w: Width,
        bits: nat,
        r: Result<(), AccessError>,
    ) -> bool {
        if !self.is_open(id) {
            r == Err::<(), AccessError>(AccessError::InvalidId) && post == *self
        } else {
            match reg_byte_offset(reg, self.unit(id)) {
                Some(off) => self.bits_write_post(post, id, off, w, bits, r),
                None => r == Err::<(), AccessError>(AccessError::OutOfRange) && post == *self,
            }
        }
    }

    /// Writes the low `size` bytes of `data` (0: pointer width) at byte
    /// offset `offset` of handle `id`.
    pub fn write_mem_u(&mut self, id: Id, offset: usize, data: u64, size: usize) -> (r: Result<
        (),
        AccessError,
    >)
        requires
            old(self).wf(),
        ensures
            final(self).wf(),
            old(self).write_u_post(*final(self), id, offset, data, size, r),
    {
        if !self.map.contains_key(&id) {
            return Err(AccessError::InvalidId);
        }
        match Width::from_size(size) {
            Some(w) => self.write_bits(id, offset, w, w.truncate_u(data)),
            None => Err(AccessError::InvalidSize),
        }
    }

    /// Writes the two's-complement pattern of `data`, cut to `size` bytes
    /// (0: pointer width), at byte offset `offset` of handle `id`.
    pub fn write_mem_i(&mut self, id: Id, offset: usize, data: i64, size: usize) -> (r: Result<
        (),
        AccessError,
    >)
        requires
            old(self).wf(),
        ensures
            final(self).wf(),
            old(self).write_i_post(*final(self), id, offset, data, size, r),
    {
        if !self.map.contains_key(&id) {
            return Err(AccessError::InvalidId);
        }
        match Width::from_size(size) {
            Some(w) => self.write_bits(id, offset, w, w.truncate_i(data)),
            None => Err(AccessError::InvalidSize),
        }
    }

    /// Reads `size` bytes (0: pointer width) at byte offset `offset` of
    /// handle `id`, zero-extended.
    pub fn read_mem_u(&self, id: Id, offset: usize, size: usize) -> (r: Result<u64, AccessError>)
        ensures
            self.read_u_post(id, offset, size, r),
    {
        if !self.map.contains_key(&id) {
            return Err(AccessError::InvalidId);
        }
        match Width::from_size(size) {
            Some(w) => self.read_bits(id, offset, w),
            None => Err(AccessError::InvalidSize),
        }
    }

    /// Reads `size` bytes (0: pointer width) at byte offset `offset` of
    /// handle `id`, sign-extended.
    pub fn read_mem_i(&self, id: Id, offset: usize, size: usize) -> (r: Result<i64, AccessError>)
        ensures
            self.read_i_post(id, offset, size, r),
    {
        if !self.map.contains_key(&id) {
            return Err(AccessError::InvalidId);
        }
        match Width::from_size(size) {
            Some(w) => self.read_signed(id, offset, w),
            None => Err(AccessError::InvalidSize),
        }
    }

    /// `write_mem_u` at the byte offset of register `reg` (`reg * unit`).
    pub fn write_reg_u(&mut self, id: Id, reg: usize, data: u64, size: usize) -> (r: Result<
        (),
        AccessError,
    >)
        requires
            old(self).wf(),
        ensures
            final(self).wf(),
            old(self).write_reg_u_post(*final(self), id, reg, data, size, r),
    {
        if !self.map.contains_key(&id) {
            return Err(AccessError::InvalidId);
        }
        match Width::from_size(size) {
            Some(w) => match self.reg_offset(id, reg) {
                Some(off) => self.write_bits(id, off, w, w.truncate_u(data)),
                None => Err(AccessError::OutOfRange),
            },
            None => Err(AccessError::InvalidSize),
        }
    }

    /// `write_mem_i` at the byte offset of register `reg` (`reg * unit`).
    pub fn write_reg_i(&mut self, id: Id, reg: usize, data: i64, size: usize) -> (r: Result<
        (),
        AccessError,
    >)
        requires
            old(self).wf(),
        ensures
            final(self).wf(),
            old(self).write_reg_i_post(*final(self), id, reg, data, size, r),
    {
        if !self.map.contains_key(&id) {
            return Err(AccessError::InvalidId);
        }
        match Width::from_size(size) {
            Some(w) => match self.reg_offset(id, reg) {
                Some(off) => self.write_bits(id, off, w, w.truncate_i(data)),
                None => Err(AccessError::OutOfRange),
            },
            None => Err(AccessError::InvalidSize),
        }
    }

    /// `read_mem_u` at the byte offset of register `reg` (`reg * unit`).
    pub fn read_reg_u(&self, id: Id, reg: usize, size: usize) -> (r: Result<u64, AccessError>)
        ensures
            self.read_reg_u_post(id, reg, size, r),
    {
        if !self.map.contains_key(&id) {
            return Err(AccessError::InvalidId);
        }
        match Width::from_size(size) {
            Some(w) => match self.reg_offset(id, reg) {
                Some(off) => self.read_bits(id, off, w),
                None => Err(AccessError::OutOfRange),
            },
            None => Err(AccessError::InvalidSize),
        }
    }

    /// `read_mem_i` at the byte offset of register `reg` (`reg * unit`).
    pub fn read_reg_i(&self, id: Id, reg: usize, size: usize) -> (r: Result<i64, AccessError>)
        ensures
            self.read_reg_i_post(id, reg, size, r),
    {
        if !self.map.contains_key(&id) {
            return Err(AccessError::InvalidId);
        }
        match Width::from_size(size) {
            Some(w) => match self.reg_offset(id, reg) {
                Some(off) => self.read_signed(id, off, w),
                None => Err(AccessError::OutOfRange),
            },
            None => Err(AccessError::InvalidSize),
        }
    }

    /// Writes the IEEE-754 bit pattern `data` of a single-precision value at
    /// byte offset `offset` of handle `id`.
    pub fn write_mem_f32(&mut self, id: Id, offset: usize, data: u32) -> (r: Result<(), AccessError>)
        requires
            old(self).wf(),
        ensures
            final(self).wf(),
            old(self).bits_write_post(*final(self), id, offset, Width::W32, data as nat, r),
    {
        proof {
            Width::W32.lemma_bytes();
        }
        self.write_bits(id, offset, Width::W32, data as u64)
    }

    /// Writes the IEEE-754 bit pattern `data` of a double-precision value at
    /// byte offset `offset` of handle `id`.
    pub fn write_mem_f64(&mut self, id: Id, offset: usize, data: u64) -> (r: Result<(), AccessError>)
        requires
            old(self).wf(),
        ensures
            final(self).wf(),
            old(self).bits_write_post(*final(self), id, offset, Width::W64, data as nat, r),
    {
        proof {
            Width::W64.lemma_bytes();
        }
        self.write_bits(id, offset, Width::W64, data)
    }

    /// `write_mem_f32` at the byte offset of register `reg` (`reg * unit`).
    pub fn write_reg_f32(&mut self, id: Id, reg: usize, data: u32) -> (r: Result<(), AccessError>)
        requires
            old(self).wf(),
        ensures
            final(self).wf(),
            old(self).bits_write_reg_post(*final(self), id, reg, Width::W32, data as nat, r),
    {
        proof {
            Width::W32.lemma_bytes();
        }
        if !self.map.contains_key(&id) {
            return Err(AccessError::InvalidId);
        }
        match self.reg_offset(id, reg) {
            Some(off) => self.write_bits(id, off, Width::W32, data as u64),
            None => Err(AccessError::OutOfRange),
        }
    }

    /// `write_mem_f64` at the byte offset of register `reg` (`reg * unit`).
    pub fn write_reg_f64(&mut self, id: Id, reg: usize, data: u64) -> (r: Result<(), AccessError>)
        requires
            old(self).wf(),
        ensures
            final(self).wf(),
            old(self).bits_write_reg_post(*final(self), id, reg, Width::W64, data as nat, r),
    {
        proof {
            Width::W64.lemma_bytes();
        }
        if !self.map.contains_key(&id) {
            return Err(AccessError::InvalidId);
        }
        match self.reg_offset(id, reg) {
            Some(off) => self.write_bits(id, off, Width::W64, data),
            None => Err(AccessError::OutOfRange),
        }
    }

    /// Reads the IEEE-754 bit pattern of a single-precision value at byte
    /// offset `offset` of handle `id`.
    pub fn read_mem_f32(&self, id: Id, offset: usize) -> (r: Result<u32, AccessError>)
        ensures
            self.bits_read_post(id, offset, Width::W32, widen32(r)),
    {
        proof {
            Width::W32.lemma_bytes();
        }
        match self.read_bits(id, offset, Width::W32) {
            Ok(v) => Ok(v as u32),
            Err(e) => Err(e),
        }
    }

    /// Reads the IEEE-754 bit pattern of a double-precision value at byte
    /// offset `offset` of handle `id`.
    pub fn read_mem_f64(&self, id: Id, offset: usize) -> (r: Result<u64, AccessError>)
        ensures
            self.bits_read_post(id, offset, Width::W64, r),
    {
        self.read_bits(id, offset, Width::W64)
    }

    /// `read_mem_f32` at the byte offset of register `reg` (`reg * unit`).
    pub fn read_reg_f32(&self, id: Id, reg: usize) -> (r: Result<u32, AccessError>)
        ensures
            self.bits_read_reg_post(id, reg, Width::W32, widen32(r)),
    {
        proof {
            Width::W32.lemma_bytes();
        }
        if !self.map.contains_key(&id) {
            return Err(AccessError::InvalidId);
        }
        match self.reg_offset(id, reg) {
            Some(off) => match self.read_bits(id, off, Width::W32) {
                Ok(v) => Ok(v as u32),
                Err(e) => Err(e),
            },
            None => Err(AccessError::OutOfRange),
        }
    }

    /// `read_mem_f64` at the byte offset of register `reg` (`reg * unit`).
    pub fn read_reg_f64(&self, id: Id, reg: usize) -> (r: Result<u64, AccessError>)
        ensures
            self.bits_read_reg_post(id, reg, Width::W64, r),
    {
        if !self.map.contains_key(&id) {
            return Err(AccessError::InvalidId);
        }
        match self.reg_offset(id, reg) {
            Some(off) => self.read_bits(id, off, Width::W64),
            None => Err(AccessError::OutOfRange),
        }
    }

    /// What `mem_copy_to` promises.
    pub open spec fn copy_to_post(
        &self,
        post: Self,
        id: Id,
        offset: usize,
        data: Seq<u8>,
        r: Result<(), AccessError>,
    ) -> bool {
        if !self.is_open(id) {
            r == Err::<(), AccessError>(AccessError::InvalidId) && post == *self
        } else {
            self.stored(post, id, offset, data, r)
        }
    }

    /// Writes `data` at byte offset `offset` of handle `id`, in one piece.
    pub fn mem_copy_to(&mut self, id: Id, offset: usize, data: &[u8]) -> (r: Result<(), AccessError>)
        requires
            old(self).wf(),
        ensures
            final(self).wf(),
            old(self).copy_to_post(*final(self), id, offset, data@, r),
    {
        if !self.map.contains_key(&id) {
            return Err(AccessError::InvalidId);
        }
        self.write_bytes(id, offset, data)
    }

    /// What `mem_copy_from` promises.
    pub open spec fn copy_from_post(
        &self,
        id: Id,
        offset: usize,
        size: usize,
        r: Result<Vec<u8>, AccessError>,
    ) -> bool {
        if !self.is_open(id) {
            r == Err::<Vec<u8>, AccessError>(AccessError::InvalidId)
        } else {
            copy_out_post(
                self.backend(id).retains_writes(),
                self.backend(id).contents(),
                self.backend(id).extent(),
                offset,
                size,
                r,
            )
        }
    }

    /// Reads `size` bytes at byte offset `offset` of handle `id` into a new
    /// vector.
    pub fn mem_copy_from(&self, id: Id, offset: usize, size: usize) -> (r: Result<
        Vec<u8>,
        AccessError,
    >)
        ensures
            self.copy_from_post(id, offset, size, r),
    {
        match self.map.get(&id) {
            Some(entry) => entry.0.copy_out(offset, size),
            None => Err(AccessError::InvalidId),
        }
    }

    /// Virtual address of the range of handle `id`.
    pub fn addr(&self, id: Id) -> (r: Result<usize, AccessError>)
        ensures
            !self.is_open(id) ==> r == Err::<usize, AccessError>(AccessError::InvalidId),
            self.is_open(id) ==> r == Ok::<usize, AccessError>(self.backend(id).address()),
    {
        match self.map.get(&id) {
            Some(entry) => Ok(entry.0.addr()),
            None => Err(AccessError::InvalidId),
        }
    }

    /// Length in bytes of the range of handle `id`.
    pub fn size(&self, id: Id) -> (r: Result<usize, AccessError>)
        ensures
            !self.is_open(id) ==> r == Err::<usize, AccessError>(AccessError::InvalidId),
            self.is_open(id) ==> r == Ok::<usize, AccessError>(self.backend(id).extent()),
    {
        match self.map.get(&id) {
            Some(entry) => Ok(entry.0.size()),
            None => Err(AccessError::InvalidId),
        }
    }

    /// Physical address of the range of handle `id`; `Unsupported` for a
    /// backend that has none.
    pub fn phys_addr(&self, id: Id) -> (r: Result<usize, AccessError>)
        ensures
            !self.is_open(id) ==> r == Err::<usize, AccessError>(AccessError::InvalidId),
            self.is_open(id) ==> r == match self.backend(id).physical() {
                Some(a) => Ok::<usize, AccessError>(a),
                None => Err::<usize, AccessError>(AccessError::Unsupported),
            },
    {
        match self.map.get(&id) {
            Some(entry) => match entry.0.phys_addr() {
                Some(a) => Ok(a),
                None => Err(AccessError::Unsupported),
            },
            None => Err(AccessError::InvalidId),
        }
    }
}

impl<B: Backend> Default for Accessor<B> {
    fn default() -> (r: Self)
        ensures
            r.wf(),
            r.next_id() == 1,
            r.entries() == Map::<Id, (B, usize)>::empty(),
    {
        Accessor::new()
    }
}

} // verus!
