//! Reading and writing fixed-width scalars at arbitrary byte offsets of a
//! byte span, with no demand on alignment and in the byte order of the
//! machine that runs the code.
//!
//! The handle onto memory is a byte slice: `&[u8]` reads, `&mut [u8]` reads
//! and writes. Every accessor asks its caller to show that the bytes it
//! touches lie inside the slice, and says exactly which value comes back or
//! which bytes the slice holds afterwards. No byte order is converted: what
//! is written on one machine is read back as written only on machines of the
//! same byte order.

pub mod unaligned;

pub use unaligned::{UnalignedRead, UnalignedWrite};
