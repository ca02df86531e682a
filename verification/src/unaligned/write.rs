//! Writing scalars at byte offsets of a span that may be changed.

use crate::unaligned::encoding::{
    lemma_native_single_byte, lemma_radix_of_usize, lemma_radix_values,
};
use crate::unaligned::laws::{
    lemma_bool_round_trip, lemma_signed_round_trip, lemma_unsigned_round_trip,
};
use crate::unaligned::native::{u128_to_native, u16_to_native, u32_to_native, u64_to_native};
use crate::unaligned::span::{
    bool_at, overwrite, same_outside, signed_at, store, unsigned_at, with_bool, with_signed,
    with_unsigned,
};
use vstd::layout::size_of;
use vstd::prelude::*;

verus! {

/// Writes of fixed-width scalars at any byte offset of a byte span, with no
/// demand on alignment. The view of the handle is the span it gives access
/// to; offsets count bytes from its start, whatever is stored there.
///
/// Every method asks that the bytes it writes lie inside the span. After the
/// call those bytes hold the value in the byte order of the machine, a read
/// of the same type at the same offset gives the value back, and every other
/// byte of the span is as it was.
pub trait UnalignedWrite: View<V = Seq<u8>> {
    /// Writes the [`u8`] `value` at `byte_offset`.
    fn write_u8_at(&mut self, byte_offset: usize, value: u8)
        requires
            byte_offset + 1 <= old(self)@.len(),
        ensures
            final(self)@ == old(self)@.update(byte_offset as int, value),
            final(self)@ == with_unsigned(old(self)@, byte_offset as int, 1, value as nat),
            unsigned_at(final(self)@, byte_offset as int, 1) == value,
            same_outside(old(self)@, final(self)@, byte_offset as int, 1),
    ;

    /// Writes the [`u16`] `value` into the 2 bytes at `byte_offset`.
    fn write_u16_at(&mut self, byte_offset: usize, value: u16)
        requires
            byte_offset + 2 <= old(self)@.len(),
        ensures
            final(self)@ == with_unsigned(old(self)@, byte_offset as int, 2, value as nat),
            unsigned_at(final(self)@, byte_offset as int, 2) == value,
            same_outside(old(self)@, final(self)@, byte_offset as int, 2),
    ;

    /// Writes the [`u32`] `value` into the 4 bytes at `byte_offset`.
    fn write_u32_at(&mut self, byte_offset: usize, value: u32)
        requires
            byte_offset + 4 <= old(self)@.len(),
        ensures
            final(self)@ == with_unsigned(old(self)@, byte_offset as int, 4, value as nat),
            unsigned_at(final(self)@, byte_offset as int, 4) == value,
            same_outside(old(self)@, final(self)@, byte_offset as int, 4),
    ;

    /// Writes the [`u64`] `value` into the 8 bytes at `byte_offset`.
    fn write_u64_at(&mut self, byte_offset: usize, value: u64)
        requires
            byte_offset + 8 <= old(self)@.len(),
        ensures
            final(self)@ == with_unsigned(old(self)@, byte_offset as int, 8, value as nat),
            unsigned_at(final(self)@, byte_offset as int, 8) == value,
            same_outside(old(self)@, final(self)@, byte_offset as int, 8),
    ;

    /// Writes the [`u128`] `value` into the 16 bytes at `byte_offset`.
    fn write_u128_at(&mut self, byte_offset: usize, value: u128)
        requires
            byte_offset + 16 <= old(self)@.len(),
        ensures
            final(self)@ == with_unsigned(old(self)@, byte_offset as int, 16, value as nat),
            unsigned_at(final(self)@, byte_offset as int, 16) == value,
            same_outside(old(self)@, final(self)@, byte_offset as int, 16),
    ;

    /// Writes the [`usize`] `value` into the bytes at `byte_offset`, as many
    /// bytes as a `usize` has on the machine.
    fn write_usize_at(&mut self, byte_offset: usize, value: usize)
        requires
            byte_offset + size_of::<usize>() <= old(self)@.len(),
        ensures
            final(self)@ == with_unsigned(
                old(self)@,
                byte_offset as int,
                size_of::<usize>(),
                value as nat,
            ),
            unsigned_at(final(self)@, byte_offset as int, size_of::<usize>()) == value,
            same_outside(old(self)@, final(self)@, byte_offset as int, size_of::<usize>()),
    ;

    /// Writes the [`i8`] `value` into the byte at `byte_offset`.
    fn write_i8_at(&mut self, byte_offset: usize, value: i8)
        requires
            byte_offset + 1 <= old(self)@.len(),
        ensures
            final(self)@ == with_signed(old(self)@, byte_offset as int, 1, value as int),
            signed_at(final(self)@, byte_offset as int, 1) == value,
            same_outside(old(self)@, final(self)@, byte_offset as int, 1),
    ;

    /// Writes the [`i16`] `value` into the 2 bytes at `byte_offset`.
    fn write_i16_at(&mut self, byte_offset: usize, value: i16)
        requires
            byte_offset + 2 <= old(self)@.len(),
        ensures
            final(self)@ == with_signed(old(self)@, byte_offset as int, 2, value as int),
            signed_at(final(self)@, byte_offset as int, 2) == value,
            same_outside(old(self)@, final(self)@, byte_offset as int, 2),
    ;

    /// Writes the [`i32`] `value` into the 4 bytes at `byte_offset`.
    fn write_i32_at(&mut self, byte_offset: usize, value: i32)
        requires
            byte_offset + 4 <= old(self)@.len(),
        ensures
            final(self)@ == with_signed(old(self)@, byte_offset as int, 4, value as int),
            signed_at(final(self)@, byte_offset as int, 4) == value,
            same_outside(old(self)@, final(self)@, byte_offset as int, 4),
    ;

    /// Writes the [`i64`] `value` into the 8 bytes at `byte_offset`.
    fn write_i64_at(&mut self, byte_offset: usize, value: i64)
        requires
            byte_offset + 8 <= old(self)@.len(),
        ensures
            final(self)@ == with_signed(old(self)@, byte_offset as int, 8, value as int),
            signed_at(final(self)@, byte_offset as int, 8) == value,
            same_outside(old(self)@, final(self)@, byte_offset as int, 8),
    ;

    /// Writes the [`i128`] `value` into the 16 bytes at `byte_offset`.
    fn write_i128_at(&mut self, byte_offset: usize, value: i128)
        requires
            byte_offset + 16 <= old(self)@.len(),
        ensures
            final(self)@ == with_signed(old(self)@, byte_offset as int, 16, value as int),
            signed_at(final(self)@, byte_offset as int, 16) == value,
            same_outside(old(self)@, final(self)@, byte_offset as int, 16),
    ;

    /// Writes the [`isize`] `value` into the bytes at `byte_offset`, as many
    /// bytes as an `isize` has on the machine.
    fn write_isize_at(&mut self, byte_offset: usize, value: isize)
        requires
            byte_offset + size_of::<isize>() <= old(self)@.len(),
        ensures
            final(self)@ == with_signed(
                old(self)@,
                byte_offset as int,
                size_of::<isize>(),
                value as int,
            ),
            signed_at(final(self)@, byte_offset as int, size_of::<isize>()) == value,
            same_outside(old(self)@, final(self)@, byte_offset as int, size_of::<isize>()),
    ;

    /// Writes the [`bool`] `value` into the byte at `byte_offset`: 1 for true,
    /// 0 for false.
    fn write_bool_at(&mut self, byte_offset: usize, value: bool)
        requires
            byte_offset + 1 <= old(self)@.len(),
        ensures
            final(self)@ == with_bool(old(self)@, byte_offset as int, value),
            bool_at(final(self)@, byte_offset as int) == value,
            same_outside(old(self)@, final(self)@, byte_offset as int, 1),
    ;
}

impl UnalignedWrite for [u8] {
    #[inline]
    fn write_u8_at(&mut self, byte_offset: usize, value: u8)
        ensures
            final(self)@ == old(self)@.update(byte_offset as int, value),
    {
        proof {
            lemma_radix_values();
            lemma_native_single_byte(value);
            lemma_unsigned_round_trip(self@, byte_offset as int, 1, value as nat);
            assert(overwrite(self@, byte_offset as int, seq![value]) =~= self@.update(
                byte_offset as int,
                value,
            ));
        }
        self[byte_offset] = value;
    }

    #[inline]
    fn write_u16_at(&mut self, byte_offset: usize, value: u16)
        ensures
            final(self)@ == with_unsigned(old(self)@, byte_offset as int, 2, value as nat),
    {
        proof {
            lemma_radix_values();
            lemma_unsigned_round_trip(self@, byte_offset as int, 2, value as nat);
        }
        store(self, byte_offset, u16_to_native(value));
    }

    #[inline]
    fn write_u32_at(&mut self, byte_offset: usize, value: u32)
        ensures
            final(self)@ == with_unsigned(old(self)@, byte_offset as int, 4, value as nat),
    {
        proof {
            lemma_radix_values();
            lemma_unsigned_round_trip(self@, byte_offset as int, 4, value as nat);
        }
        store(self, byte_offset, u32_to_native(value));
    }

    #[inline]
    fn write_u64_at(&mut self, byte_offset: usize, value: u64)
        ensures
            final(self)@ == with_unsigned(old(self)@, byte_offset as int, 8, value as nat),
    {
        proof {
            lemma_radix_values();
            lemma_unsigned_round_trip(self@, byte_offset as int, 8, value as nat);
        }
        store(self, byte_offset, u64_to_native(value));
    }

    #[inline]
    fn write_u128_at(&mut self, byte_offset: usize, value: u128)
        ensures
            final(self)@ == with_unsigned(old(self)@, byte_offset as int, 16, value as nat),
    {
        proof {
            lemma_radix_values();
            lemma_unsigned_round_trip(self@, byte_offset as int, 16, value as nat);
        }
        store(self, byte_offset, u128_to_native(value));
    }

    #[inline]
    fn write_usize_at(&mut self, byte_offset: usize, value: usize)
        ensures
            final(self)@ == with_unsigned(
                old(self)@,
                byte_offset as int,
                size_of::<usize>(),
                value as nat,
            ),
    {
        proof {
            lemma_radix_of_usize();
            lemma_unsigned_round_trip(
                self@,
                byte_offset as int,
                size_of::<usize>(),
                value as nat,
            );
        }
        if core::mem::size_of::<usize>() == 8 {
            store(self, byte_offset, u64_to_native(value as u64));
        } else {
            store(self, byte_offset, u32_to_native(value as u32));
        }
    }

    #[inline]
    fn write_i8_at(&mut self, byte_offset: usize, value: i8)
        ensures
            final(self)@ == with_signed(old(self)@, byte_offset as int, 1, value as int),
    {
        let pattern = value as u8;
        proof {
            lemma_radix_values();
            lemma_signed_round_trip(self@, byte_offset as int, 1, value as int);
            assert(pattern == if value >= 0 {
                value as int
            } else {
                value + 0x100
            }) by (bit_vector)
                requires
                    pattern == value as u8,
            ;
        }
        self.write_u8_at(byte_offset, pattern);
    }

    #[inline]
    fn write_i16_at(&mut self, byte_offset: usize, value: i16)
        ensures
            final(self)@ == with_signed(old(self)@, byte_offset as int, 2, value as int),
    {
        let pattern = value as u16;
        proof {
            lemma_radix_values();
            lemma_signed_round_trip(self@, byte_offset as int, 2, value as int);
            assert(pattern == if value >= 0 {
                value as int
            } else {
                value + 0x1_0000
            }) by (bit_vector)
                requires
                    pattern == value as u16,
            ;
        }
        self.write_u16_at(byte_offset, pattern);
    }

    #[inline]
    fn write_i32_at(&mut self, byte_offset: usize, value: i32)
        ensures
            final(self)@ == with_signed(old(self)@, byte_offset as int, 4, value as int),
    {
        let pattern = value as u32;
        proof {
            lemma_radix_values();
            lemma_signed_round_trip(self@, byte_offset as int, 4, value as int);
            assert(pattern == if value >= 0 {
                value as int
            } else {
                value + 0x1_0000_0000
            }) by (bit_vector)
                requires
                    pattern == value as u32,
            ;
        }
        self.write_u32_at(byte_offset, pattern);
    }

    #[inline]
    fn write_i64_at(&mut self, byte_offset: usize, value: i64)
        ensures
            final(self)@ == with_signed(old(self)@, byte_offset as int, 8, value as int),
    {
        let pattern = value as u64;
        proof {
            lemma_radix_values();
            lemma_signed_round_trip(self@, byte_offset as int, 8, value as int);
            assert(pattern == if value >= 0 {
                value as int
            } else {
                value + 0x1_0000_0000_0000_0000
            }) by (bit_vector)
                requires
                    pattern == value as u64,
            ;
        }
        self.write_u64_at(byte_offset, pattern);
    }

    #[inline]
    fn write_i128_at(&mut self, byte_offset: usize, value: i128)
        ensures
            final(self)@ == with_signed(old(self)@, byte_offset as int, 16, value as int),
    {
        let pattern = value as u128;
        proof {
            lemma_radix_values();
            lemma_signed_round_trip(self@, byte_offset as int, 16, value as int);
            assert(pattern == if value >= 0 {
                value as int
            } else {
                value + 0x1_0000_0000_0000_0000_0000_0000_0000_0000
            }) by (bit_vector)
                requires
                    pattern == value as u128,
            ;
        }
        self.write_u128_at(byte_offset, pattern);
    }

    #[inline]
    fn write_isize_at(&mut self, byte_offset: usize, value: isize)
        ensures
            final(self)@ == with_signed(
                old(self)@,
                byte_offset as int,
                size_of::<isize>(),
                value as int,
            ),
    {
        proof {
            lemma_radix_of_usize();
        }
        if core::mem::size_of::<isize>() == 8 {
            self.write_i64_at(byte_offset, value as i64);
        } else {
            self.write_i32_at(byte_offset, value as i32);
        }
    }

    #[inline]
    fn write_bool_at(&mut self, byte_offset: usize, value: bool)
        ensures
            final(self)@ == with_bool(old(self)@, byte_offset as int, value),
    {
        proof {
            lemma_bool_round_trip(self@, byte_offset as int, value);
        }
        self[byte_offset] = if value {
            1
        } else {
            0
        };
    }
}

} // verus!
