//! Unaligned scalar access to byte spans.

pub mod encoding;
pub mod laws;
pub mod read;
pub mod span;
pub mod write;

mod native;

pub use read::UnalignedRead;
pub use write::UnalignedWrite;
