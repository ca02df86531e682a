//! What holds between the stored and the read: a value written is the value
//! read back, a write leaves all other bytes alone, and a read depends on
//! nothing but the bytes it covers.

use crate::unaligned::encoding::{
    fits_signed, lemma_native_bytes_len, lemma_native_bytes_of_value,
    lemma_native_signed_bytes_of_value, lemma_native_signed_value_of_bytes,
    lemma_native_value_bound, lemma_native_value_of_bytes, native_bytes, native_signed_bytes,
    radix, to_twos_complement,
};
use crate::unaligned::span::{
    bool_at, bool_byte, is_bool_byte, overwrite, same_outside, signed_at, unsigned_at, window,
    with_bool, with_signed, with_unsigned,
};
use vstd::prelude::*;

verus! {

/// A run of bytes written into a span is the run of bytes found there
/// afterwards, and every byte outside it is as it was.
pub proof fn lemma_overwrite(bytes: Seq<u8>, offset: int, patch: Seq<u8>)
    requires
        0 <= offset,
        offset + patch.len() <= bytes.len(),
    ensures
        window(overwrite(bytes, offset, patch), offset, patch.len()) == patch,
        same_outside(bytes, overwrite(bytes, offset, patch), offset, patch.len()),
{
    assert(window(overwrite(bytes, offset, patch), offset, patch.len()) =~= patch);
}

/// Round trip of the unsigned scalars: an unsigned number that fits in
/// `width` bytes, stored at any offset at which `width` bytes lie inside the
/// span, is the number read back at that offset, whether or not the offset is
/// a multiple of `width`; and the bytes outside those `width` bytes are as
/// they were.
pub proof fn lemma_unsigned_round_trip(bytes: Seq<u8>, offset: int, width: nat, value: nat)
    requires
        0 <= offset,
        offset + width <= bytes.len(),
        value < radix(width),
    ensures
        unsigned_at(with_unsigned(bytes, offset, width, value), offset, width) == value,
        same_outside(bytes, with_unsigned(bytes, offset, width, value), offset, width),
{
    lemma_native_bytes_len(value, width);
    lemma_overwrite(bytes, offset, native_bytes(value, width));
    lemma_native_value_of_bytes(value, width);
}

/// Round trip of the signed scalars: a signed number that fits in `width`
/// bytes of two's complement, stored at any offset at which `width` bytes lie
/// inside the span, is the number read back at that offset; and the bytes
/// outside those `width` bytes are as they were.
pub proof fn lemma_signed_round_trip(bytes: Seq<u8>, offset: int, width: nat, value: int)
    requires
        0 <= offset,
        offset + width <= bytes.len(),
        fits_signed(value, width),
    ensures
        signed_at(with_signed(bytes, offset, width, value), offset, width) == value,
        same_outside(bytes, with_signed(bytes, offset, width, value), offset, width),
{
    lemma_native_bytes_len(to_twos_complement(value, width), width);
    lemma_overwrite(bytes, offset, native_signed_bytes(value, width));
    lemma_native_signed_value_of_bytes(value, width);
}

/// Round trip of the booleans: a boolean stored at any offset inside the span
/// is the boolean read back at that offset, the byte there is 1 for true and
/// 0 for false, and every other byte is as it was.
pub proof fn lemma_bool_round_trip(bytes: Seq<u8>, offset: int, value: bool)
    requires
        0 <= offset < bytes.len(),
    ensures
        bool_at(with_bool(bytes, offset, value), offset) == value,
        with_bool(bytes, offset, value)[offset] == bool_byte(value),
        is_bool_byte(with_bool(bytes, offset, value)[offset]),
        same_outside(bytes, with_bool(bytes, offset, value), offset, 1),
{
}

/// The value read at an offset is the one whose bytes, in the byte order of
/// the machine, are the bytes found there.
pub proof fn lemma_read_matches_bytes(bytes: Seq<u8>, offset: int, width: nat)
    requires
        0 <= offset,
        offset + width <= bytes.len(),
    ensures
        unsigned_at(bytes, offset, width) < radix(width),
        native_bytes(unsigned_at(bytes, offset, width), width) == window(bytes, offset, width),
        fits_signed(signed_at(bytes, offset, width), width),
        native_signed_bytes(signed_at(bytes, offset, width), width) == window(
            bytes,
            offset,
            width,
        ),
{
    let run = window(bytes, offset, width);
    lemma_native_value_bound(run);
    lemma_native_bytes_of_value(run);
    lemma_native_signed_bytes_of_value(run);
}

/// A read depends on nothing but the bytes it covers: two spans that hold
/// the same bytes at an offset give the same value there. Reading one span
/// twice therefore gives one value.
pub proof fn lemma_read_depends_on_window(
    first: Seq<u8>,
    second: Seq<u8>,
    offset: int,
    width: nat,
)
    requires
        window(first, offset, width) == window(second, offset, width),
    ensures
        unsigned_at(first, offset, width) == unsigned_at(second, offset, width),
        signed_at(first, offset, width) == signed_at(second, offset, width),
{
}

/// No write disturbs a neighbour: after a write that kept every byte outside
/// the `written_width` bytes at `written`, a field of `width` bytes at
/// `offset` that does not overlap them holds the bytes, and so the value, that
/// it held before.
pub proof fn lemma_write_keeps_disjoint_field(
    before: Seq<u8>,
    after: Seq<u8>,
    written: int,
    written_width: nat,
    offset: int,
    width: nat,
)
    requires
        same_outside(before, after, written, written_width),
        0 <= offset,
        offset + width <= before.len(),
        offset + width <= written || written + written_width <= offset,
    ensures
        window(after, offset, width) == window(before, offset, width),
        unsigned_at(after, offset, width) == unsigned_at(before, offset, width),
        signed_at(after, offset, width) == signed_at(before, offset, width),
        width >= 1 ==> bool_at(after, offset) == bool_at(before, offset),
{
    assert(window(after, offset, width) =~= window(before, offset, width));
}

} // verus!
