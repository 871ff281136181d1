//! Access widths, and how values are narrowed to and widened from them.
use vstd::prelude::*;
use crate::bytes::{pow256, lemma_pow256_values};

verus! {

broadcast use vstd::layout::layout_of_primitives;

/// The width of one integer access.
#[derive(Debug, Clone, Copy, PartialEq, Eq)]
pub enum Width {
    /// The platform's pointer width.
    Pointer,
    W8,
    W16,
    W32,
    W64,
}

/// The platform's pointer width in bytes.
pub open spec fn pointer_bytes() -> nat {
    vstd::layout::size_of::<usize>()
}

/// The width that a size selector names: 0 for the pointer width, else a
/// number of bytes.
pub open spec fn width_of_size(size: usize) -> Option<Width> {
    if size == 0 {
        Some(Width::Pointer)
    } else if size == 1 {
        Some(Width::W8)
    } else if size == 2 {
        Some(Width::W16)
    } else if size == 4 {
        Some(Width::W32)
    } else if size == 8 {
        Some(Width::W64)
    } else {
        None
    }
}

/// The two's-complement reading of the `n`-byte pattern `bits`.
pub open spec fn signed_of(bits: nat, n: nat) -> int {
    if bits < pow256(n) / 2 {
        bits as int
    } else {
        bits - pow256(n)
    }
}

impl Width {
    /// Number of bytes an access of this width covers.
    pub open spec fn bytes(self) -> nat {
        match self {
            Width::Pointer => pointer_bytes(),
            Width::W8 => 1,
            Width::W16 => 2,
            Width::W32 => 4,
            Width::W64 => 8,
        }
    }

    /// Number of distinct bit patterns of this width.
    pub open spec fn modulus(self) -> nat {
        pow256(self.bytes())
    }

    pub proof fn lemma_bytes(self)
        ensures
            self.bytes() == 1 || self.bytes() == 2 || self.bytes() == 4 || self.bytes() == 8,
            self.bytes() == 8 ==> self.modulus() == 0x1_0000_0000_0000_0000,
            self.bytes() == 4 ==> self.modulus() == 0x1_0000_0000,
            self.bytes() == 2 ==> self.modulus() == 0x1_0000,
            self.bytes() == 1 ==> self.modulus() == 0x100,
            pointer_bytes() == 4 || pointer_bytes() == 8,
    {
        lemma_pow256_values();
        assert(usize::BITS == 32 || usize::BITS == 64);
    }

    /// The width that `size` selects, if any.
    pub fn from_size(size: usize) -> (r: Option<Width>)
        ensures
            r == width_of_size(size),
    {
        match size {
            0 => Some(Width::Pointer),
            1 => Some(Width::W8),
            2 => Some(Width::W16),
            4 => Some(Width::W32),
            8 => Some(Width::W64),
            _ => None,
        }
    }

    /// Number of bytes an access of this width covers.
    pub fn byte_len(self) -> (r: usize)
        ensures
            r == self.bytes(),
    {
        match self {
            Width::Pointer => core::mem::size_of::<usize>(),
            Width::W8 => 1,
            Width::W16 => 2,
            Width::W32 => 4,
            Width::W64 => 8,
        }
    }

    /// The low bytes of `data` that an access of this width stores.
    pub fn truncate_u(self, data: u64) -> (r: u64)
        ensures
            r == (data as nat) % self.modulus(),
            r < self.modulus(),
    {
        proof {
            self.lemma_bytes();
        }
        let n = self.byte_len();
        if n == 1 {
            data % 0x100
        } else if n == 2 {
            data % 0x1_0000
        } else if n == 4 {
            data % 0x1_0000_0000
        } else {
            data
        }
    }

    /// The two's-complement bit pattern of `data` in this width.
    pub fn truncate_i(self, data: i64) -> (r: u64)
        ensures
            r == (data as int) % (self.modulus() as int),
            r < self.modulus(),
    {
        proof {
            self.lemma_bytes();
        }
        let u: u64 = if data >= 0 {
            data as u64
        } else {
            ((data - i64::MIN) as u64) + 0x8000_0000_0000_0000
        };
        assert(u == (data as int) % 0x1_0000_0000_0000_0000int);
        let n = self.byte_len();
        if n == 8 {
            u
        } else {
            let m: u64 = if n == 1 {
                0x100
            } else if n == 2 {
                0x1_0000
            } else {
                0x1_0000_0000
            };
            proof {
                let k: int = 0x1_0000_0000_0000_0000int / (m as int);
                assert(k * m == 0x1_0000_0000_0000_0000int);
                lemma_mod_of_mod(data as int, m as int, k);
            }
            u % m
        }
    }

    /// The signed value that the pattern `bits` of this width stands for.
    pub fn sign_extend(self, bits: u64) -> (r: i64)
        requires
            bits < self.modulus(),
        ensures
            r == signed_of(bits as nat, self.bytes()),
    {
        proof {
            self.lemma_bytes();
        }
        let n = self.byte_len();
        if n == 8 {
            if bits < 0x8000_0000_0000_0000 {
                bits as i64
            } else {
                ((bits - 0x8000_0000_0000_0000) as i64) + i64::MIN
            }
        } else {
            let m: u64 = if n == 1 {
                0x100
            } else if n == 2 {
                0x1_0000
            } else {
                0x1_0000_0000
            };
            if bits < m / 2 {
                bits as i64
            } else {
                (bits as i64) - (m as i64)
            }
        }
    }
}

/// `(x mod (m*k)) mod m == x mod m`.
proof fn lemma_mod_of_mod(x: int, m: int, k: int)
    requires
        m > 0,
        k > 0,
    ensures
        (x % (m * k)) % m == x % m,
{
    vstd::arithmetic::div_mod::lemma_mod_mod(x, m, k);
}

} // verus!
