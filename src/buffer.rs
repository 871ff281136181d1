//! A process-local byte buffer with the capability's interface: ordinary
//! memory that keeps what is written to it.
use vstd::prelude::*;
use crate::backend::{Backend, range_fits, view_fits};
use crate::bytes::{fits, le_bytes, le_value, pow256, splice, lemma_le_bytes_len, lemma_pow256_values};
use crate::error::AccessError;
use crate::width::Width;

verus! {

/// A byte buffer owned by this process.
pub struct MemBuffer {
    data: Vec<u8>,
}

impl View for MemBuffer {
    type V = Seq<u8>;

    closed spec fn view(&self) -> Seq<u8> {
        self.data@
    }
}

proof fn lemma_pow256_step(k: nat)
    ensures
        pow256(k + 1) == 256 * pow256(k),
{
    reveal_with_fuel(pow256, 2);
}

proof fn lemma_pow256_mono(a: nat, b: nat)
    requires
        a <= b,
    ensures
        pow256(a) <= pow256(b),
    decreases b - a,
{
    if a < b {
        lemma_pow256_mono(a, (b - 1) as nat);
        lemma_pow256_step((b - 1) as nat);
    }
}

impl MemBuffer {
    /// A buffer of `len` zero bytes.
    pub fn new(len: usize) -> (r: MemBuffer)
        ensures
            r@ == Seq::new(len as nat, |i: int| 0u8),
    {
        let mut data: Vec<u8> = Vec::new();
        let mut i: usize = 0;
        while i < len
            invariant
                i <= len,
                data@ == Seq::new(i as nat, |k: int| 0u8),
            decreases len - i,
        {
            data.push(0u8);
            i = i + 1;
            assert(data@ =~= Seq::new(i as nat, |k: int| 0u8));
        }
        MemBuffer { data }
    }

    /// A buffer holding `bytes`.
    pub fn from_bytes(bytes: Vec<u8>) -> (r: MemBuffer)
        ensures
            r@ == bytes@,
    {
        MemBuffer { data: bytes }
    }

    /// The bytes the buffer holds.
    pub fn as_bytes(&self) -> (r: &[u8])
        ensures
            r@ == self@,
    {
        self.data.as_slice()
    }

    /// Copies `len` bytes starting at `off`.
    fn slice_copy(&self, off: usize, len: usize) -> (r: Vec<u8>)
        requires
            fits(self@, off as int, len as int),
        ensures
            r@ == self@.subrange(off as int, off + len),
    {
        let total = self.data.len();
        let mut out: Vec<u8> = Vec::new();
        let mut i: usize = 0;
        while i < len
            invariant
                i <= len,
                total == self@.len(),
                fits(self@, off as int, len as int),
                out@ == self@.subrange(off as int, off + i),
            decreases len - i,
        {
            out.push(self.data[off + i]);
            i = i + 1;
            assert(out@ =~= self@.subrange(off as int, off + i));
        }
        out
    }
}

impl Backend for MemBuffer {
    open spec fn retains_writes(&self) -> bool {
        true
    }

    open spec fn contents(&self) -> Seq<u8> {
        self@
    }

    open spec fn extent(&self) -> usize {
        self@.len() as usize
    }

    /// A buffer is not mapped at a device address; it reports 0.
    open spec fn address(&self) -> usize {
        0
    }

    /// A buffer has no physical address.
    open spec fn physical(&self) -> Option<usize> {
        None
    }

    fn addr(&self) -> (r: usize) {
        0
    }

    fn size(&self) -> (r: usize) {
        self.data.len()
    }

    fn phys_addr(&self) -> (r: Option<usize>) {
        None
    }

    fn read_at(&self, offset: usize, width: Width) -> (r: Result<u64, AccessError>) {
        let n = width.byte_len();
        if !range_fits(self.data.len(), offset, n) {
            return Err(AccessError::OutOfRange);
        }
        proof {
            width.lemma_bytes();
            lemma_pow256_values();
        }
        let total = self.data.len();
        let mut acc: u64 = 0;
        let mut i: usize = n;
        while i > 0
            invariant
                i <= n,
                total == self@.len(),
                n == width.bytes(),
                n <= 8,
                fits(self@, offset as int, n as int),
                acc as nat == le_value(self@.subrange(offset + i, offset + n)),
                acc < pow256((n - i) as nat),
            decreases i,
        {
            i = i - 1;
            let b = self.data[offset + i];
            proof {
                let k = (n - i - 1) as nat;
                lemma_pow256_step(k);
                lemma_pow256_mono(k + 1, 8);
                lemma_pow256_values();
                let p = pow256(k);
                assert(acc * 256 + b < 256 * p) by (nonlinear_arith)
                    requires
                        acc < p,
                        b < 256,
                ;
                let s = self@.subrange(offset + i, offset + n);
                assert(s.drop_first() =~= self@.subrange(offset + i + 1, offset + n));
                assert(s[0] == b);
            }
            acc = acc * 256 + b as u64;
        }
        proof {
            assert(self@.subrange(offset as int, offset + n) == self@.subrange(offset + i, offset + n));
        }
        Ok(acc)
    }

    fn write_at(&mut self, offset: usize, width: Width, bits: u64) -> (r: Result<(), AccessError>) {
        let n = width.byte_len();
        proof {
            lemma_le_bytes_len(bits as nat, n as nat);
        }
        if !range_fits(self.data.len(), offset, n) {
            return Err(AccessError::OutOfRange);
        }
        let total = self.data.len();
        let ghost pre = self.data@;
        let mut x: u64 = bits;
        let mut i: usize = 0;
        while i < n
            invariant
                i <= n,
                total == pre.len(),
                n == width.bytes(),
                fits(pre, offset as int, n as int),
                self.data@.len() == pre.len(),
                forall|j: int|
                    0 <= j < pre.len() && !(offset <= j < offset + n) ==> self.data@[j] == pre[j],
                le_bytes(bits as nat, n as nat) == self.data@.subrange(offset as int, offset + i)
                    + le_bytes(x as nat, (n - i) as nat),
            decreases n - i,
        {
            let ghost before = self.data@;
            self.data.set(offset + i, (x % 256) as u8);
            proof {
                assert(self.data@.subrange(offset as int, offset + i + 1) =~= before.subrange(
                    offset as int,
                    offset + i,
                ).push((x % 256) as u8));
                assert(le_bytes(x as nat, (n - i) as nat) == seq![(x % 256) as u8] + le_bytes(
                    (x / 256) as nat,
                    (n - i - 1) as nat,
                ));
                assert(before.subrange(offset as int, offset + i) + le_bytes(x as nat, (n - i) as nat)
                    =~= self.data@.subrange(offset as int, offset + i + 1) + le_bytes(
                    (x / 256) as nat,
                    (n - i - 1) as nat,
                ));
            }
            x = x / 256;
            i = i + 1;
        }
        proof {
            lemma_le_bytes_len(bits as nat, n as nat);
            assert(le_bytes(x as nat, 0) =~= Seq::<u8>::empty());
            assert(self.data@.subrange(offset as int, offset + n) + Seq::<u8>::empty()
                =~= self.data@.subrange(offset as int, offset + n));
            assert(self.data@ =~= splice(pre, offset as int, le_bytes(bits as nat, n as nat)));
        }
        Ok(())
    }

    fn copy_in(&mut self, offset: usize, data: &[u8]) -> (r: Result<(), AccessError>) {
        let n = data.len();
        if !range_fits(self.data.len(), offset, n) {
            return Err(AccessError::OutOfRange);
        }
        let total = self.data.len();
        let ghost pre = self.data@;
        let mut i: usize = 0;
        while i < n
            invariant
                i <= n,
                total == pre.len(),
                n == data@.len(),
                fits(pre, offset as int, n as int),
                self.data@.len() == pre.len(),
                forall|j: int|
                    0 <= j < pre.len() && !(offset <= j < offset + i) ==> self.data@[j] == pre[j],
                forall|j: int| 0 <= j < i ==> self.data@[offset + j] == data@[j],
            decreases n - i,
        {
            self.data.set(offset + i, data[i]);
            i = i + 1;
        }
        proof {
            assert(self.data@ =~= splice(pre, offset as int, data@));
        }
        Ok(())
    }

    fn copy_out(&self, offset: usize, len: usize) -> (r: Result<Vec<u8>, AccessError>) {
        if !range_fits(self.data.len(), offset, len) {
            return Err(AccessError::OutOfRange);
        }
        Ok(self.slice_copy(offset, len))
    }

    fn subclone(&self, offset: usize, size: usize) -> (r: Result<MemBuffer, AccessError>) {
        let len = self.data.len();
        if !view_fits(len, offset, size) {
            return Err(AccessError::OutOfRange);
        }
        let n = if size == 0 {
            len - offset
        } else {
            size
        };
        Ok(MemBuffer { data: self.slice_copy(offset, n) })
    }
}

} // verus!
