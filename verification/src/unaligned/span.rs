//! Scalars inside a byte span: which value the bytes at an offset stand for,
//! what a span holds after a value was stored in it, and the two primitives
//! that move a run of bytes out of a span and into it.

use crate::unaligned::encoding::{
    native_bytes, native_signed_bytes, native_signed_value, native_value,
};
use vstd::prelude::*;

verus! {

/// The `width` bytes of `bytes` that start at `offset`.
pub open spec fn window(bytes: Seq<u8>, offset: int, width: nat) -> Seq<u8> {
    bytes.subrange(offset, offset + width)
}

/// `bytes` with `patch` in place of the bytes that start at `offset`: the
/// bytes before `offset`, then `patch`, then the bytes behind it.
pub open spec fn overwrite(bytes: Seq<u8>, offset: int, patch: Seq<u8>) -> Seq<u8> {
    bytes.subrange(0, offset) + patch + bytes.subrange(offset + patch.len(), bytes.len() as int)
}

/// Whether `after` is as long as `before` and holds the same byte at every
/// index outside the `width` bytes that start at `offset`.
pub open spec fn same_outside(before: Seq<u8>, after: Seq<u8>, offset: int, width: nat) -> bool {
    &&& after.len() == before.len()
    &&& forall|i: int|
        0 <= i < before.len() && !(offset <= i < offset + width) ==> after[i] == before[i]
}

/// The unsigned number that the `width` bytes at `offset` stand for in the
/// byte order of the machine.
pub open spec fn unsigned_at(bytes: Seq<u8>, offset: int, width: nat) -> nat {
    native_value(window(bytes, offset, width))
}

/// The signed number that the `width` bytes at `offset` stand for in the
/// byte order of the machine, in two's complement.
pub open spec fn signed_at(bytes: Seq<u8>, offset: int, width: nat) -> int {
    native_signed_value(window(bytes, offset, width))
}

/// Whether `byte` is one of the two bytes that stand for a boolean.
pub open spec fn is_bool_byte(byte: u8) -> bool {
    byte == 0 || byte == 1
}

/// The byte that stands for the boolean `value`: 1 for true, 0 for false.
pub open spec fn bool_byte(value: bool) -> u8 {
    if value {
        1
    } else {
        0
    }
}

/// The boolean that the byte at `offset` stands for.
pub open spec fn bool_at(bytes: Seq<u8>, offset: int) -> bool {
    bytes[offset] == 1
}

/// `bytes` after the unsigned number `value` was stored in the `width` bytes
/// at `offset`, in the byte order of the machine.
pub open spec fn with_unsigned(bytes: Seq<u8>, offset: int, width: nat, value: nat) -> Seq<u8> {
    overwrite(bytes, offset, native_bytes(value, width))
}

/// `bytes` after the signed number `value` was stored in the `width` bytes
/// at `offset`, in two's complement and the byte order of the machine.
pub open spec fn with_signed(bytes: Seq<u8>, offset: int, width: nat, value: int) -> Seq<u8> {
    overwrite(bytes, offset, native_signed_bytes(value, width))
}

/// `bytes` after the boolean `value` was stored in the byte at `offset`.
pub open spec fn with_bool(bytes: Seq<u8>, offset: int, value: bool) -> Seq<u8> {
    bytes.update(offset, bool_byte(value))
}

/// Copies the `N` bytes at `offset` out of `bytes`.
#[inline]
pub(crate) fn load<const N: usize>(bytes: &[u8], offset: usize) -> (run: [u8; N])
    requires
        offset + N <= bytes@.len(),
    ensures
        run@ == window(bytes@, offset as int, N as nat),
{
    assert(bytes.len() == bytes@.len());
    let field = &bytes[offset..offset + N];
    let mut run = [0u8; N];
    let mut i: usize = 0;
    while i < N
        invariant
            i <= N,
            field@.len() == N,
            forall|j: int| 0 <= j < i ==> run@[j] == field@[j],
        decreases N - i,
    {
        run[i] = field[i];
        i += 1;
    }
    run
}

/// Copies the `N` bytes of `run` into `bytes` at `offset`, and leaves every
/// other byte as it was.
#[inline]
pub(crate) fn store<const N: usize>(bytes: &mut [u8], offset: usize, run: [u8; N])
    requires
        offset + N <= old(bytes)@.len(),
    ensures
        final(bytes)@ == overwrite(old(bytes)@, offset as int, run@),
{
    assert(bytes.len() == bytes@.len());
    let (_, tail) = bytes.split_at_mut(offset);
    let (field, _) = tail.split_at_mut(N);
    let mut i: usize = 0;
    while i < N
        invariant
            i <= N,
            field@.len() == N,
            forall|j: int| 0 <= j < i ==> field@[j] == run@[j],
        decreases N - i,
    {
        field[i] = run[i];
        i += 1;
    }
}

} // verus!
