//! The conversions between integers and their bytes in the byte order of
//! the machine, as the standard library makes them. Nothing here is proved:
//! each function states what the standard library documents of the call it
//! makes.

use crate::unaligned::encoding::{native_bytes, native_value};
use vstd::prelude::*;

verus! {

/// `u16::from_ne_bytes` of std. Taken on trust: the result is the number
/// that the 2 bytes stand for in the byte order of the machine.
#[verifier::external_body]
pub(crate) fn u16_from_native(bytes: [u8; 2]) -> (value: u16)
    ensures
        value == native_value(bytes@),
{
    u16::from_ne_bytes(bytes)
}

/// `u16::to_ne_bytes` of std. Taken on trust: the result holds the 2
/// bytes that stand for `value` in the byte order of the machine.
#[verifier::external_body]
pub(crate) fn u16_to_native(value: u16) -> (bytes: [u8; 2])
    ensures
        bytes@ == native_bytes(value as nat, 2),
{
    value.to_ne_bytes()
}

/// `u32::from_ne_bytes` of std. Taken on trust: the result is the number
/// that the 4 bytes stand for in the byte order of the machine.
#[verifier::external_body]
pub(crate) fn u32_from_native(bytes: [u8; 4]) -> (value: u32)
    ensures
        value == native_value(bytes@),
{
    u32::from_ne_bytes(bytes)
}

/// `u32::to_ne_bytes` of std. Taken on trust: the result holds the 4
/// bytes that stand for `value` in the byte order of the machine.
#[verifier::external_body]
pub(crate) fn u32_to_native(value: u32) -> (bytes: [u8; 4])
    ensures
        bytes@ == native_bytes(value as nat, 4),
{
    value.to_ne_bytes()
}

/// `u64::from_ne_bytes` of std. Taken on trust: the result is the number
/// that the 8 bytes stand for in the byte order of the machine.
#[verifier::external_body]
pub(crate) fn u64_from_native(bytes: [u8; 8]) -> (value: u64)
    ensures
        value == native_value(bytes@),
{
    u64::from_ne_bytes(bytes)
}

/// `u64::to_ne_bytes` of std. Taken on trust: the result holds the 8
/// bytes that stand for `value` in the byte order of the machine.
#[verifier::external_body]
pub(crate) fn u64_to_native(value: u64) -> (bytes: [u8; 8])
    ensures
        bytes@ == native_bytes(value as nat, 8),
{
    value.to_ne_bytes()
}

/// `u128::from_ne_bytes` of std. Taken on trust: the result is the number
/// that the 16 bytes stand for in the byte order of the machine.
#[verifier::external_body]
pub(crate) fn u128_from_native(bytes: [u8; 16]) -> (value: u128)
    ensures
        value == native_value(bytes@),
{
    u128::from_ne_bytes(bytes)
}

/// `u128::to_ne_bytes` of std. Taken on trust: the result holds the 16
/// bytes that stand for `value` in the byte order of the machine.
#[verifier::external_body]
pub(crate) fn u128_to_native(value: u128) -> (bytes: [u8; 16])
    ensures
        bytes@ == native_bytes(value as nat, 16),
{
    value.to_ne_bytes()
}

} // verus!
