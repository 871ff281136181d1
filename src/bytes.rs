//! Little-endian byte encoding of unsigned values, as a plain byte buffer
//! stores them.
use vstd::prelude::*;

verus! {

/// `256^n`: the number of distinct values that `n` bytes can hold.
pub open spec fn pow256(n: nat) -> nat
    decreases n,
{
    if n == 0 {
        1
    } else {
        256 * pow256((n - 1) as nat)
    }
}

/// The unsigned value that the bytes `s` encode, least significant byte first.
pub open spec fn le_value(s: Seq<u8>) -> nat
    decreases s.len(),
{
    if s.len() == 0 {
        0
    } else {
        s[0] as nat + 256 * le_value(s.drop_first())
    }
}

/// The `n` least significant bytes of `v`, least significant byte first.
pub open spec fn le_bytes(v: nat, n: nat) -> Seq<u8>
    decreases n,
{
    if n == 0 {
        Seq::empty()
    } else {
        seq![(v % 256) as u8] + le_bytes(v / 256, (n - 1) as nat)
    }
}

/// `mem` with the bytes from `off` on replaced by `bytes`.
pub open spec fn splice(mem: Seq<u8>, off: int, bytes: Seq<u8>) -> Seq<u8> {
    mem.subrange(0, off) + bytes + mem.subrange(off + bytes.len(), mem.len() as int)
}

/// Whether `n` bytes starting at `off` lie inside `mem`.
pub open spec fn fits(mem: Seq<u8>, off: int, n: int) -> bool {
    0 <= off && 0 <= n && off + n <= mem.len()
}

pub proof fn lemma_pow256_values()
    ensures
        pow256(1) == 0x100,
        pow256(2) == 0x1_0000,
        pow256(4) == 0x1_0000_0000,
        pow256(8) == 0x1_0000_0000_0000_0000,
{
    reveal_with_fuel(pow256, 9);
}

pub proof fn lemma_le_bytes_len(v: nat, n: nat)
    ensures
        le_bytes(v, n).len() == n,
    decreases n,
{
    if n > 0 {
        lemma_le_bytes_len(v / 256, (n - 1) as nat);
    }
}

/// Encoding a value that fits in `n` bytes and decoding it gives it back.
pub proof fn lemma_le_round_trip(v: nat, n: nat)
    requires
        v < pow256(n),
    ensures
        le_value(le_bytes(v, n)) == v,
    decreases n,
{
    if n == 0 {
    } else {
        let q = v / 256;
        let p = pow256((n - 1) as nat);
        assert(q < p) by (nonlinear_arith)
            requires
                v < 256 * p,
                q == v / 256,
        ;
        lemma_le_round_trip(q, (n - 1) as nat);
        let s = le_bytes(v, n);
        assert(s.drop_first() =~= le_bytes(q, (n - 1) as nat));
        assert(v == v % 256 + 256 * q) by (nonlinear_arith)
            requires
                q == v / 256,
        ;
    }
}

/// Reading back the bytes that were spliced in at `off` yields them.
pub proof fn lemma_splice_subrange(mem: Seq<u8>, off: int, bytes: Seq<u8>)
    requires
        fits(mem, off, bytes.len() as int),
    ensures
        splice(mem, off, bytes).subrange(off, off + bytes.len()) =~= bytes,
        splice(mem, off, bytes).len() == mem.len(),
{
}

} // verus!
