//! The byte representation of integers: which number a run of bytes stands
//! for, least significant byte first, most significant byte first, and in the
//! order of the machine that runs the code; and how a signed number is held
//! in two's complement.

use vstd::endian::{endianness, Endian};
use vstd::layout::{layout_of_primitives, size_of};
use vstd::prelude::*;

verus! {

/// The number of values that `width` bytes can tell apart: 256 to the power `width`.
pub open spec fn radix(width: nat) -> nat
    decreases width,
{
    if width == 0 {
        1
    } else {
        256 * radix((width - 1) as nat)
    }
}

/// The number that `bytes` stands for when the first byte is the least significant.
pub open spec fn le_value(bytes: Seq<u8>) -> nat
    decreases bytes.len(),
{
    if bytes.len() == 0 {
        0
    } else {
        bytes[0] as nat + 256 * le_value(bytes.drop_first())
    }
}

/// The number that `bytes` stands for when the first byte is the most significant.
pub open spec fn be_value(bytes: Seq<u8>) -> nat {
    le_value(bytes.reverse())
}

/// The `width` bytes that stand for `value`, least significant byte first.
/// Digits of `value` beyond `width` bytes are dropped.
pub open spec fn le_bytes(value: nat, width: nat) -> Seq<u8>
    decreases width,
{
    if width == 0 {
        Seq::empty()
    } else {
        seq![(value % 256) as u8] + le_bytes(value / 256, (width - 1) as nat)
    }
}

/// The `width` bytes that stand for `value`, most significant byte first.
pub open spec fn be_bytes(value: nat, width: nat) -> Seq<u8> {
    le_bytes(value, width).reverse()
}

/// The number that `bytes` stands for in the byte order of the machine.
pub open spec fn native_value(bytes: Seq<u8>) -> nat {
    match endianness() {
        Endian::Little => le_value(bytes),
        Endian::Big => be_value(bytes),
    }
}

/// The `width` bytes that stand for `value` in the byte order of the machine.
pub open spec fn native_bytes(value: nat, width: nat) -> Seq<u8> {
    match endianness() {
        Endian::Little => le_bytes(value, width),
        Endian::Big => be_bytes(value, width),
    }
}

/// The signed number that the bit pattern `pattern` of `width` bytes stands
/// for in two's complement: patterns in the upper half of the range are
/// negative.
pub open spec fn from_twos_complement(pattern: nat, width: nat) -> int {
    if 2 * pattern < radix(width) {
        pattern as int
    } else {
        pattern - radix(width)
    }
}

/// The bit pattern of `width` bytes that holds the signed number `value` in
/// two's complement.
pub open spec fn to_twos_complement(value: int, width: nat) -> nat {
    if value >= 0 {
        value as nat
    } else {
        (value + radix(width)) as nat
    }
}

/// Whether the signed number `value` fits in `width` bytes of two's complement.
pub open spec fn fits_signed(value: int, width: nat) -> bool {
    -(radix(width) as int) <= 2 * value < radix(width)
}

/// The signed number that `bytes` stands for in the byte order of the
/// machine, in two's complement.
pub open spec fn native_signed_value(bytes: Seq<u8>) -> int {
    from_twos_complement(native_value(bytes), bytes.len())
}

/// The `width` bytes that stand for the signed number `value` in the byte
/// order of the machine, in two's complement.
pub open spec fn native_signed_bytes(value: int, width: nat) -> Seq<u8> {
    native_bytes(to_twos_complement(value, width), width)
}

/// The value of `radix` at the widths of the primitive integers.
pub proof fn lemma_radix_values()
    ensures
        radix(0) == 1,
        radix(1) == 0x100,
        radix(2) == 0x1_0000,
        radix(4) == 0x1_0000_0000,
        radix(8) == 0x1_0000_0000_0000_0000,
        radix(16) == 0x1_0000_0000_0000_0000_0000_0000_0000_0000,
{
    reveal_with_fuel(radix, 5);
    assert(radix(8) == 0x1_0000_0000 * radix(4));
    assert(radix(16) == 0x1_0000_0000_0000_0000 * radix(8)) by {
        assert(radix(12) == 0x1_0000_0000 * radix(8));
        assert(radix(16) == 0x1_0000_0000 * radix(12));
    }
}

/// The range of the pointer-sized integers, in terms of `radix` at their
/// width on the machine.
pub proof fn lemma_radix_of_usize()
    ensures
        size_of::<usize>() == 4 || size_of::<usize>() == 8,
        size_of::<isize>() == size_of::<usize>(),
        radix(size_of::<usize>()) == usize::MAX + 1,
        radix(size_of::<isize>()) == 2 * (isize::MAX + 1),
        isize::MIN == -isize::MAX - 1,
{
    broadcast use layout_of_primitives;

    lemma_radix_values();
}

/// `le_bytes` yields exactly `width` bytes.
pub proof fn lemma_le_bytes_len(value: nat, width: nat)
    ensures
        le_bytes(value, width).len() == width,
    decreases width,
{
    if width > 0 {
        lemma_le_bytes_len(value / 256, (width - 1) as nat);
    }
}

/// A run of bytes stands for a number below `radix` of its length.
pub proof fn lemma_le_value_bound(bytes: Seq<u8>)
    ensures
        le_value(bytes) < radix(bytes.len()),
    decreases bytes.len(),
{
    if bytes.len() > 0 {
        lemma_le_value_bound(bytes.drop_first());
    }
}

/// Little-endian bytes of a number that fits stand for that number.
pub proof fn lemma_le_value_of_bytes(value: nat, width: nat)
    requires
        value < radix(width),
    ensures
        le_value(le_bytes(value, width)) == value,
    decreases width,
{
    if width > 0 {
        let rest = le_bytes(value / 256, (width - 1) as nat);
        let bytes = le_bytes(value, width);
        lemma_le_value_of_bytes(value / 256, (width - 1) as nat);
        assert(bytes.drop_first() =~= rest);
        assert(bytes[0] == value % 256);
    }
}

/// The little-endian bytes of the number that a run of bytes stands for are
/// that run of bytes.
pub proof fn lemma_le_bytes_of_value(bytes: Seq<u8>)
    ensures
        le_bytes(le_value(bytes), bytes.len()) == bytes,
    decreases bytes.len(),
{
    if bytes.len() > 0 {
        let rest = bytes.drop_first();
        lemma_le_bytes_of_value(rest);
        let value = le_value(bytes);
        assert(value % 256 == bytes[0] as nat);
        assert(value / 256 == le_value(rest));
        assert(le_bytes(value, bytes.len()) =~= bytes);
    } else {
        assert(le_bytes(le_value(bytes), bytes.len()) =~= bytes);
    }
}

/// `native_bytes` yields exactly `width` bytes.
pub proof fn lemma_native_bytes_len(value: nat, width: nat)
    ensures
        native_bytes(value, width).len() == width,
{
    lemma_le_bytes_len(value, width);
}

/// A run of bytes stands, in the order of the machine, for a number below
/// `radix` of its length.
pub proof fn lemma_native_value_bound(bytes: Seq<u8>)
    ensures
        native_value(bytes) < radix(bytes.len()),
{
    lemma_le_value_bound(bytes);
    lemma_le_value_bound(bytes.reverse());
}

/// The bytes of a number that fits, in the order of the machine, stand for
/// that number in the order of the machine.
pub proof fn lemma_native_value_of_bytes(value: nat, width: nat)
    requires
        value < radix(width),
    ensures
        native_value(native_bytes(value, width)) == value,
{
    lemma_le_value_of_bytes(value, width);
    let bytes = le_bytes(value, width);
    assert(bytes.reverse().reverse() =~= bytes);
}

/// The bytes, in the order of the machine, of the number that a run of bytes
/// stands for in that order are that run of bytes.
pub proof fn lemma_native_bytes_of_value(bytes: Seq<u8>)
    ensures
        native_bytes(native_value(bytes), bytes.len()) == bytes,
{
    lemma_le_bytes_of_value(bytes);
    lemma_le_bytes_of_value(bytes.reverse());
    assert(bytes.reverse().reverse() =~= bytes);
}

/// A single byte stands for itself in either byte order.
pub proof fn lemma_native_single_byte(byte: u8)
    ensures
        native_value(seq![byte]) == byte,
        native_bytes(byte as nat, 1) == seq![byte],
{
    let one = seq![byte];
    assert(one.reverse() =~= one);
    assert(one.drop_first() =~= Seq::<u8>::empty());
    reveal_with_fuel(le_value, 2);
    reveal_with_fuel(le_bytes, 2);
    assert(le_bytes(byte as nat, 1) =~= one);
}

/// A signed number that fits is recovered from its two's complement pattern,
/// and the pattern fits in `width` bytes.
pub proof fn lemma_twos_complement_of_value(value: int, width: nat)
    requires
        fits_signed(value, width),
    ensures
        to_twos_complement(value, width) < radix(width),
        from_twos_complement(to_twos_complement(value, width), width) == value,
{
}

/// A pattern of `width` bytes is the two's complement pattern of the signed
/// number it stands for, and that number fits in `width` bytes.
pub proof fn lemma_twos_complement_of_pattern(pattern: nat, width: nat)
    requires
        pattern < radix(width),
    ensures
        fits_signed(from_twos_complement(pattern, width), width),
        to_twos_complement(from_twos_complement(pattern, width), width) == pattern,
{
}

/// The bytes of a signed number that fits stand for that number.
pub proof fn lemma_native_signed_value_of_bytes(value: int, width: nat)
    requires
        fits_signed(value, width),
    ensures
        native_signed_value(native_signed_bytes(value, width)) == value,
{
    lemma_twos_complement_of_value(value, width);
    lemma_native_value_of_bytes(to_twos_complement(value, width), width);
    lemma_native_bytes_len(to_twos_complement(value, width), width);
}

/// The bytes of the signed number that a run of bytes stands for are that
/// run of bytes.
pub proof fn lemma_native_signed_bytes_of_value(bytes: Seq<u8>)
    ensures
        fits_signed(native_signed_value(bytes), bytes.len()),
        native_signed_bytes(native_signed_value(bytes), bytes.len()) == bytes,
{
    lemma_native_value_bound(bytes);
    lemma_twos_complement_of_pattern(native_value(bytes), bytes.len());
    lemma_native_bytes_of_value(bytes);
}

} // verus!
