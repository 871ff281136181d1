//! Properties that relate several operations of the registry.
use vstd::prelude::*;
use crate::backend::Backend;
use crate::bytes::{lemma_le_bytes_len, lemma_le_round_trip, lemma_splice_subrange, le_bytes};
use crate::error::AccessError;
use crate::registry::{Accessor, Id};
use crate::width::{pointer_bytes, width_of_size};

verus! {

/// Every operation on a handle that is not open fails with `InvalidId` and
/// leaves the registry as it was.
pub open spec fn rejects_handle<B: Backend>(a: Accessor<B>, id: Id) -> bool {
    &&& forall|off: usize, size: usize, r: Result<u64, AccessError>| #[trigger]
        a.read_u_post(id, off, size, r) <==> r == Err::<u64, AccessError>(AccessError::InvalidId)
    &&& forall|off: usize, size: usize, r: Result<i64, AccessError>| #[trigger]
        a.read_i_post(id, off, size, r) <==> r == Err::<i64, AccessError>(AccessError::InvalidId)
    &&& forall|reg: usize, size: usize, r: Result<u64, AccessError>| #[trigger]
        a.read_reg_u_post(id, reg, size, r) <==> r == Err::<u64, AccessError>(
            AccessError::InvalidId,
        )
    &&& forall|reg: usize, size: usize, r: Result<i64, AccessError>| #[trigger]
        a.read_reg_i_post(id, reg, size, r) <==> r == Err::<i64, AccessError>(
            AccessError::InvalidId,
        )
    &&& forall|post: Accessor<B>, off: usize, data: u64, size: usize, r: Result<(), AccessError>|
        #[trigger] a.write_u_post(post, id, off, data, size, r) <==> (r == Err::<(), AccessError>(
            AccessError::InvalidId,
        ) && post == a)
    &&& forall|post: Accessor<B>, off: usize, data: i64, size: usize, r: Result<(), AccessError>|
        #[trigger] a.write_i_post(post, id, off, data, size, r) <==> (r == Err::<(), AccessError>(
            AccessError::InvalidId,
        ) && post == a)
    &&& forall|post: Accessor<B>, reg: usize, data: u64, size: usize, r: Result<(), AccessError>|
        #[trigger] a.write_reg_u_post(post, id, reg, data, size, r) <==> (r == Err::<
            (),
            AccessError,
        >(AccessError::InvalidId) && post == a)
    &&& forall|post: Accessor<B>, reg: usize, data: i64, size: usize, r: Result<(), AccessError>|
        #[trigger] a.write_reg_i_post(post, id, reg, data, size, r) <==> (r == Err::<
            (),
            AccessError,
        >(AccessError::InvalidId) && post == a)
    &&& forall|post: Accessor<B>, off: usize, data: Seq<u8>, r: Result<(), AccessError>| #[trigger]
        a.copy_to_post(post, id, off, data, r) <==> (r == Err::<(), AccessError>(
            AccessError::InvalidId,
        ) && post == a)
    &&& forall|off: usize, size: usize, r: Result<Vec<u8>, AccessError>| #[trigger]
        a.copy_from_post(id, off, size, r) <==> r == Err::<Vec<u8>, AccessError>(
            AccessError::InvalidId,
        )
    &&& forall|post: Accessor<B>, r: Result<(), AccessError>| #[trigger]
        a.close_post(post, id, r) <==> (r == Err::<(), AccessError>(AccessError::InvalidId) && post
            == a)
    &&& forall|post: Accessor<B>, off: usize, size: usize, unit: usize, r: Result<Id, AccessError>|
        #[trigger] a.subclone_post(post, id, off, size, unit, r) <==> (r == Err::<Id, AccessError>(
            AccessError::InvalidId,
        ) && post == a)
}

/// A handle that is not open is refused by every operation.
pub proof fn lemma_unopened_handle_rejected<B: Backend>(a: Accessor<B>, id: Id)
    requires
        !a.is_open(id),
    ensures
        rejects_handle(a, id),
{
}

/// Once a handle has been opened and closed again, every operation on it
/// fails with `InvalidId`.
pub proof fn lemma_closed_handle_rejected<B: Backend>(
    a0: Accessor<B>,
    a1: Accessor<B>,
    a2: Accessor<B>,
    opened: Result<B, String>,
    unit: usize,
    id: Id,
    r: Result<(), AccessError>,
)
    requires
        a0.wf(),
        a0.open_post(a1, opened, unit, Ok::<Id, AccessError>(id)),
        a1.close_post(a2, id, r),
    ensures
        r is Ok,
        !a2.is_open(id),
        rejects_handle(a2, id),
{
    lemma_unopened_handle_rejected(a2, id);
}

/// After `close_all` no handle that was open is accepted any more and the
/// registry is empty; the next `open` issues a handle never issued before:
/// the one after the last one issued, above every handle that was open.
pub proof fn lemma_close_all_resets<B: Backend>(
    a0: Accessor<B>,
    a1: Accessor<B>,
    a2: Accessor<B>,
    a3: Accessor<B>,
    first: B,
    second: B,
    unit1: usize,
    unit2: usize,
    last: Id,
    r: Result<Id, AccessError>,
)
    requires
        a0.wf(),
        a0.open_post(a1, Ok::<B, String>(first), unit1, Ok::<Id, AccessError>(last)),
        a2.next_id() == a1.next_id(),
        a2.entries() == Map::<Id, (B, usize)>::empty(),
        a2.open_post(a3, Ok::<B, String>(second), unit2, r),
    ensures
        forall|id: Id| a1.is_open(id) ==> rejects_handle(a2, id),
        a2.exhausted() || r == Ok::<Id, AccessError>((last + 1) as Id),
        forall|id: Id| a1.is_open(id) ==> r != Ok::<Id, AccessError>(id),
        r is Ok ==> a3.entries().dom() == set![(last + 1) as Id],
{
    assert forall|id: Id| a1.is_open(id) implies rejects_handle(a2, id) by {
        lemma_unopened_handle_rejected(a2, id);
    }
    if r is Ok {
        assert(a3.entries().dom() =~= set![(last + 1) as Id]);
    }
}

/// A register-indexed access is the direct access at byte offset
/// `reg * unit`, for reads and writes alike, whatever the backend does.
pub proof fn lemma_register_is_scaled_offset<B: Backend>(a: Accessor<B>, id: Id, reg: usize)
    requires
        a.is_open(id),
        reg * a.unit(id) <= usize::MAX,
    ensures
        forall|size: usize, r: Result<u64, AccessError>| #[trigger]
            a.read_reg_u_post(id, reg, size, r) <==> a.read_u_post(
                id,
                (reg * a.unit(id)) as usize,
                size,
                r,
            ),
        forall|size: usize, r: Result<i64, AccessError>| #[trigger]
            a.read_reg_i_post(id, reg, size, r) <==> a.read_i_post(
                id,
                (reg * a.unit(id)) as usize,
                size,
                r,
            ),
        forall|post: Accessor<B>, data: u64, size: usize, r: Result<(), AccessError>| #[trigger]
            a.write_reg_u_post(post, id, reg, data, size, r) <==> a.write_u_post(
                post,
                id,
                (reg * a.unit(id)) as usize,
                data,
                size,
                r,
            ),
        forall|post: Accessor<B>, data: i64, size: usize, r: Result<(), AccessError>| #[trigger]
            a.write_reg_i_post(post, id, reg, data, size, r) <==> a.write_i_post(
                post,
                id,
                (reg * a.unit(id)) as usize,
                data,
                size,
                r,
            ),
{
}

/// A handle opened with unit 0 gets the platform's pointer width as unit.
pub proof fn lemma_zero_unit_is_pointer_width<B: Backend>(
    a0: Accessor<B>,
    a1: Accessor<B>,
    backend: B,
    r: Result<Id, AccessError>,
)
    requires
        !a0.exhausted(),
        a0.open_post(a1, Ok::<B, String>(backend), 0, r),
    ensures
        r matches Ok(id) && a1.is_open(id) && a1.unit(id) == pointer_bytes(),
{
    broadcast use vstd::layout::layout_of_primitives;

    assert(usize::BITS == 32 || usize::BITS == 64);
}

/// On a backend that retains writes, a value of the selected width written
/// with `write_mem_u` is read back unchanged by `read_mem_u`.
pub proof fn lemma_write_read_round_trip<B: Backend>(
    a0: Accessor<B>,
    a1: Accessor<B>,
    id: Id,
    off: usize,
    v: u64,
    size: usize,
)
    requires
        a0.is_open(id),
        a0.backend(id).retains_writes(),
        width_of_size(size) matches Some(w) && v < w.modulus(),
        a0.write_u_post(a1, id, off, v, size, Ok::<(), AccessError>(())),
    ensures
        forall|r: Result<u64, AccessError>| #[trigger]
            a1.read_u_post(id, off, size, r) <==> r == Ok::<u64, AccessError>(v),
{
    let w = width_of_size(size).unwrap();
    let n = w.bytes();
    w.lemma_bytes();
    assert((v as nat) % w.modulus() == v as nat) by (nonlinear_arith)
        requires
            v < w.modulus(),
    ;
    let bytes = le_bytes(v as nat, n);
    lemma_le_bytes_len(v as nat, n);
    lemma_le_round_trip(v as nat, n);
    assert(a1.is_open(id));
    lemma_splice_subrange(a0.backend(id).contents(), off as int, bytes);
}

/// On a backend that retains writes, bytes stored with `mem_copy_to` are
/// read back unchanged by `mem_copy_from` of the same length.
pub proof fn lemma_copy_round_trip<B: Backend>(
    a0: Accessor<B>,
    a1: Accessor<B>,
    id: Id,
    off: usize,
    bytes: Seq<u8>,
)
    requires
        a0.is_open(id),
        a0.backend(id).retains_writes(),
        bytes.len() <= usize::MAX,
        a0.copy_to_post(a1, id, off, bytes, Ok::<(), AccessError>(())),
    ensures
        forall|r: Result<Vec<u8>, AccessError>| #[trigger]
            a1.copy_from_post(id, off, bytes.len() as usize, r) ==> (r matches Ok(v) && v@
                == bytes),
{
    assert(a1.is_open(id));
    lemma_splice_subrange(a0.backend(id).contents(), off as int, bytes);
}

/// A handle derived with unit 0 takes its parent's unit; once derived, it and
/// its parent are independent: closing either leaves the other open and
/// unchanged.
pub proof fn lemma_subclone_independent<B: Backend>(
    a0: Accessor<B>,
    a1: Accessor<B>,
    id: Id,
    off: usize,
    size: usize,
    child: Id,
)
    requires
        a0.wf(),
        a0.subclone_post(a1, id, off, size, 0, Ok::<Id, AccessError>(child)),
    ensures
        child != id,
        a1.is_open(id) && a1.is_open(child),
        a1.unit(child) == a0.unit(id),
        a1.backend(id) == a0.backend(id) && a1.unit(id) == a0.unit(id),
        forall|a2: Accessor<B>, r: Result<(), AccessError>| #[trigger]
            a1.close_post(a2, id, r) ==> a2.is_open(child) && a2.entries()[child]
                == a1.entries()[child],
        forall|a2: Accessor<B>, r: Result<(), AccessError>| #[trigger]
            a1.close_post(a2, child, r) ==> a2.is_open(id) && a2.entries()[id]
                == a1.entries()[id],
{
}

/// A width selector outside {0, 1, 2, 4, 8} on an open handle is refused
/// with `InvalidSize` by every width-selecting operation, and the registry,
/// with every backend in it, is left as it was.
pub proof fn lemma_bad_width_rejected<B: Backend>(a: Accessor<B>, id: Id, size: usize)
    requires
        a.is_open(id),
        width_of_size(size) is None,
    ensures
        forall|off: usize, r: Result<u64, AccessError>| #[trigger]
            a.read_u_post(id, off, size, r) <==> r == Err::<u64, AccessError>(
                AccessError::InvalidSize,
            ),
        forall|off: usize, r: Result<i64, AccessError>| #[trigger]
            a.read_i_post(id, off, size, r) <==> r == Err::<i64, AccessError>(
                AccessError::InvalidSize,
            ),
        forall|reg: usize, r: Result<u64, AccessError>| #[trigger]
            a.read_reg_u_post(id, reg, size, r) <==> r == Err::<u64, AccessError>(
                AccessError::InvalidSize,
            ),
        forall|reg: usize, r: Result<i64, AccessError>| #[trigger]
            a.read_reg_i_post(id, reg, size, r) <==> r == Err::<i64, AccessError>(
                AccessError::InvalidSize,
            ),
        forall|post: Accessor<B>, off: usize, data: u64, r: Result<(), AccessError>| #[trigger]
            a.write_u_post(post, id, off, data, size, r) <==> (r == Err::<(), AccessError>(
                AccessError::InvalidSize,
            ) && post == a),
        forall|post: Accessor<B>, off: usize, data: i64, r: Result<(), AccessError>| #[trigger]
            a.write_i_post(post, id, off, data, size, r) <==> (r == Err::<(), AccessError>(
                AccessError::InvalidSize,
            ) && post == a),
        forall|post: Accessor<B>, reg: usize, data: u64, r: Result<(), AccessError>| #[trigger]
            a.write_reg_u_post(post, id, reg, data, size, r) <==> (r == Err::<(), AccessError>(
                AccessError::InvalidSize,
            ) && post == a),
        forall|post: Accessor<B>, reg: usize, data: i64, r: Result<(), AccessError>| #[trigger]
            a.write_reg_i_post(post, id, reg, data, size, r) <==> (r == Err::<(), AccessError>(
                AccessError::InvalidSize,
            ) && post == a),
{
}

} // verus!
