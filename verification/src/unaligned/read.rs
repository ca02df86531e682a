//! Reading scalars at byte offsets of a span that may only be looked at.

use crate::unaligned::encoding::{
    lemma_native_single_byte, lemma_radix_of_usize, lemma_radix_values, native_bytes,
    native_signed_bytes,
};
use crate::unaligned::laws::lemma_read_matches_bytes;
use crate::unaligned::native::{u128_from_native, u16_from_native, u32_from_native, u64_from_native};
use crate::unaligned::span::{
    bool_at, bool_byte, is_bool_byte, load, signed_at, unsigned_at, window,
};
use vstd::layout::size_of;
use vstd::prelude::*;

verus! {

/// Reads of fixed-width scalars at any byte offset of a byte span, with no
/// demand on alignment. The view of the handle is the span it gives access
/// to; offsets count bytes from its start, whatever is stored there.
///
/// Every method asks that the bytes it reads lie inside the span, and gives
/// back the value whose bytes, in the byte order of the machine, are the
/// bytes found at the offset. The handle is borrowed shared: no read changes
/// a byte of the span.
pub trait UnalignedRead: View<V = Seq<u8>> {
    /// Reads the [`u8`] at `byte_offset`.
    fn read_u8_at(&self, byte_offset: usize) -> (value: u8)
        requires
            byte_offset + 1 <= self@.len(),
        ensures
            value == self@[byte_offset as int],
            value == unsigned_at(self@, byte_offset as int, 1),
    ;

    /// Reads the [`u16`] that the 2 bytes at `byte_offset` stand for.
    fn read_u16_at(&self, byte_offset: usize) -> (value: u16)
        requires
            byte_offset + 2 <= self@.len(),
        ensures
            value == unsigned_at(self@, byte_offset as int, 2),
            native_bytes(value as nat, 2) == window(self@, byte_offset as int, 2),
    ;

    /// Reads the [`u32`] that the 4 bytes at `byte_offset` stand for.
    fn read_u32_at(&self, byte_offset: usize) -> (value: u32)
        requires
            byte_offset + 4 <= self@.len(),
        ensures
            value == unsigned_at(self@, byte_offset as int, 4),
            native_bytes(value as nat, 4) == window(self@, byte_offset as int, 4),
    ;

    /// Reads the [`u64`] that the 8 bytes at `byte_offset` stand for.
    fn read_u64_at(&self, byte_offset: usize) -> (value: u64)
        requires
            byte_offset + 8 <= self@.len(),
        ensures
            value == unsigned_at(self@, byte_offset as int, 8),
            native_bytes(value as nat, 8) == window(self@, byte_offset as int, 8),
    ;

    /// Reads the [`u128`] that the 16 bytes at `byte_offset` stand for.
    fn read_u128_at(&self, byte_offset: usize) -> (value: u128)
        requires
            byte_offset + 16 <= self@.len(),
        ensures
            value == unsigned_at(self@, byte_offset as int, 16),
            native_bytes(value as nat, 16) == window(self@, byte_offset as int, 16),
    ;

    /// Reads the [`usize`] that the bytes at `byte_offset` stand for, as many
    /// bytes as a `usize` has on the machine.
    fn read_usize_at(&self, byte_offset: usize) -> (value: usize)
        requires
            byte_offset + size_of::<usize>() <= self@.len(),
        ensures
            value == unsigned_at(self@, byte_offset as int, size_of::<usize>()),
            native_bytes(value as nat, size_of::<usize>()) == window(
                self@,
                byte_offset as int,
                size_of::<usize>(),
            ),
    ;

    /// Reads the [`i8`] that the byte at `byte_offset` stands for.
    fn read_i8_at(&self, byte_offset: usize) -> (value: i8)
        requires
            byte_offset + 1 <= self@.len(),
        ensures
            value == signed_at(self@, byte_offset as int, 1),
            native_signed_bytes(value as int, 1) == window(self@, byte_offset as int, 1),
    ;

    /// Reads the [`i16`] that the 2 bytes at `byte_offset` stand for.
    fn read_i16_at(&self, byte_offset: usize) -> (value: i16)
        requires
            byte_offset + 2 <= self@.len(),
        ensures
            value == signed_at(self@, byte_offset as int, 2),
            native_signed_bytes(value as int, 2) == window(self@, byte_offset as int, 2),
    ;

    /// Reads the [`i32`] that the 4 bytes at `byte_offset` stand for.
    fn read_i32_at(&self, byte_offset: usize) -> (value: i32)
        requires
            byte_offset + 4 <= self@.len(),
        ensures
            value == signed_at(self@, byte_offset as int, 4),
            native_signed_bytes(value as int, 4) == window(self@, byte_offset as int, 4),
    ;

    /// Reads the [`i64`] that the 8 bytes at `byte_offset` stand for.
    fn read_i64_at(&self, byte_offset: usize) -> (value: i64)
        requires
            byte_offset + 8 <= self@.len(),
        ensures
            value == signed_at(self@, byte_offset as int, 8),
            native_signed_bytes(value as int, 8) == window(self@, byte_offset as int, 8),
    ;

    /// Reads the [`i128`] that the 16 bytes at `byte_offset` stand for.
    fn read_i128_at(&self, byte_offset: usize) -> (value: i128)
        requires
            byte_offset + 16 <= self@.len(),
        ensures
            value == signed_at(self@, byte_offset as int, 16),
            native_signed_bytes(value as int, 16) == window(self@, byte_offset as int, 16),
    ;

    /// Reads the [`isize`] that the bytes at `byte_offset` stand for, as many
    /// bytes as an `isize` has on the machine.
    fn read_isize_at(&self, byte_offset: usize) -> (value: isize)
        requires
            byte_offset + size_of::<isize>() <= self@.len(),
        ensures
            value == signed_at(self@, byte_offset as int, size_of::<isize>()),
            native_signed_bytes(value as int, size_of::<isize>()) == window(
                self@,
                byte_offset as int,
                size_of::<isize>(),
            ),
    ;

    /// Reads the [`bool`] that the byte at `byte_offset` stands for. The byte
    /// must hold 0 or 1: no other byte stands for a boolean, and a caller with
    /// such a byte has no boolean to read.
    fn read_bool_at(&self, byte_offset: usize) -> (value: bool)
        requires
            byte_offset + 1 <= self@.len(),
            is_bool_byte(self@[byte_offset as int]),
        ensures
            value == bool_at(self@, byte_offset as int),
            bool_byte(value) == self@[byte_offset as int],
    ;
}

impl UnalignedRead for [u8] {
    #[inline]
    fn read_u8_at(&self, byte_offset: usize) -> (value: u8)
        ensures
            value == self@[byte_offset as int],
    {
        proof {
            lemma_native_single_byte(self@[byte_offset as int]);
            assert(window(self@, byte_offset as int, 1) =~= seq![self@[byte_offset as int]]);
        }
        self[byte_offset]
    }

    #[inline]
    fn read_u16_at(&self, byte_offset: usize) -> (value: u16)
        ensures
            value == unsigned_at(self@, byte_offset as int, 2),
    {
        proof {
            lemma_read_matches_bytes(self@, byte_offset as int, 2);
        }
        u16_from_native(load(self, byte_offset))
    }

    #[inline]
    fn read_u32_at(&self, byte_offset: usize) -> (value: u32)
        ensures
            value == unsigned_at(self@, byte_offset as int, 4),
    {
        proof {
            lemma_read_matches_bytes(self@, byte_offset as int, 4);
        }
        u32_from_native(load(self, byte_offset))
    }

    #[inline]
    fn read_u64_at(&self, byte_offset: usize) -> (value: u64)
        ensures
            value == unsigned_at(self@, byte_offset as int, 8),
    {
        proof {
            lemma_read_matches_bytes(self@, byte_offset as int, 8);
        }
        u64_from_native(load(self, byte_offset))
    }

    #[inline]
    fn read_u128_at(&self, byte_offset: usize) -> (value: u128)
        ensures
            value == unsigned_at(self@, byte_offset as int, 16),
    {
        proof {
            lemma_read_matches_bytes(self@, byte_offset as int, 16);
        }
        u128_from_native(load(self, byte_offset))
    }

    #[inline]
    fn read_usize_at(&self, byte_offset: usize) -> (value: usize)
        ensures
            value == unsigned_at(self@, byte_offset as int, size_of::<usize>()),
    {
        proof {
            lemma_radix_of_usize();
            lemma_read_matches_bytes(self@, byte_offset as int, size_of::<usize>());
        }
        if core::mem::size_of::<usize>() == 8 {
            u64_from_native(load(self, byte_offset)) as usize
        } else {
            u32_from_native(load(self, byte_offset)) as usize
        }
    }

    #[inline]
    fn read_i8_at(&self, byte_offset: usize) -> (value: i8)
        ensures
            value == signed_at(self@, byte_offset as int, 1),
    {
        let pattern = self.read_u8_at(byte_offset);
        let value = pattern as i8;
        proof {
            lemma_radix_values();
            lemma_read_matches_bytes(self@, byte_offset as int, 1);
            assert(value == if pattern < 0x80u8 {
                pattern as int
            } else {
                pattern - 0x100
            }) by (bit_vector)
                requires
                    value == pattern as i8,
            ;
        }
        value
    }

    #[inline]
    fn read_i16_at(&self, byte_offset: usize) -> (value: i16)
        ensures
            value == signed_at(self@, byte_offset as int, 2),
    {
        let pattern = self.read_u16_at(byte_offset);
        let value = pattern as i16;
        proof {
            lemma_radix_values();
            lemma_read_matches_bytes(self@, byte_offset as int, 2);
            assert(value == if pattern < 0x8000u16 {
                pattern as int
            } else {
                pattern - 0x1_0000
            }) by (bit_vector)
                requires
                    value == pattern as i16,
            ;
        }
        value
    }

    #[inline]
    fn read_i32_at(&self, byte_offset: usize) -> (value: i32)
        ensures
            value == signed_at(self@, byte_offset as int, 4),
    {
        let pattern = self.read_u32_at(byte_offset);
        let value = pattern as i32;
        proof {
            lemma_radix_values();
            lemma_read_matches_bytes(self@, byte_offset as int, 4);
            assert(value == if pattern < 0x8000_0000u32 {
                pattern as int
            } else {
                pattern - 0x1_0000_0000
            }) by (bit_vector)
                requires
                    value == pattern as i32,
            ;
        }
        value
    }

    #[inline]
    fn read_i64_at(&self, byte_offset: usize) -> (value: i64)
        ensures
            value == signed_at(self@, byte_offset as int, 8),
    {
        let pattern = self.read_u64_at(byte_offset);
        let value = pattern as i64;
        proof {
            lemma_radix_values();
            lemma_read_matches_bytes(self@, byte_offset as int, 8);
            assert(value == if pattern < 0x8000_0000_0000_0000u64 {
                pattern as int
            } else {
                pattern - 0x1_0000_0000_0000_0000
            }) by (bit_vector)
                requires
                    value == pattern as i64,
            ;
        }
        value
    }

    #[inline]
    fn read_i128_at(&self, byte_offset: usize) -> (value: i128)
        ensures
            value == signed_at(self@, byte_offset as int, 16),
    {
        let pattern = self.read_u128_at(byte_offset);
        let value = pattern as i128;
        proof {
            lemma_radix_values();
            lemma_read_matches_bytes(self@, byte_offset as int, 16);
            assert(value == if pattern < 0x8000_0000_0000_0000_0000_0000_0000_0000u128 {
                pattern as int
            } else {
                pattern - 0x1_0000_0000_0000_0000_0000_0000_0000_0000
            }) by (bit_vector)
                requires
                    value == pattern as i128,
            ;
        }
        value
    }

    #[inline]
    fn read_isize_at(&self, byte_offset: usize) -> (value: isize)
        ensures
            value == signed_at(self@, byte_offset as int, size_of::<isize>()),
    {
        proof {
            lemma_radix_of_usize();
        }
        if core::mem::size_of::<isize>() == 8 {
            self.read_i64_at(byte_offset) as isize
        } else {
            self.read_i32_at(byte_offset) as isize
        }
    }

    #[inline]
    fn read_bool_at(&self, byte_offset: usize) -> (value: bool)
        ensures
            value == bool_at(self@, byte_offset as int),
    {
        self[byte_offset] != 0
    }
}

} // verus!
