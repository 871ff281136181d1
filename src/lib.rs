//! A registry of memory-access capabilities for FPGA control.
//!
//! Backends (file mappings, kernel I/O regions, DMA buffers, or a plain byte
//! buffer) are opened under integer handles. Each handle carries a unit, the
//! byte stride of its register-indexed operations. Reads and writes select
//! their width by a size code, widen or narrow signed and unsigned values at
//! that width, and fail with a typed error on an unknown handle or width.
pub mod backend;
pub mod buffer;
pub mod bytes;
pub mod error;
pub mod laws;
pub mod registry;
pub mod width;

pub use backend::Backend;
pub use buffer::MemBuffer;
pub use error::AccessError;
pub use registry::{Accessor, Id};
pub use width::Width;
