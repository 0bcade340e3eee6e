//! Field codecs for fixed-width little-endian unsigned integers.

use vstd::prelude::*;
use vstd::slice::slice_subrange;

verus! {

/// 256 to the power `n`.
pub open spec fn pow256(n: nat) -> nat
    decreases n,
{
    if n == 0 {
        1
    } else {
        256 * pow256((n - 1) as nat)
    }
}

/// The number that `bytes` stands for when its first byte is the least
/// significant one.
pub open spec fn le_value(bytes: Seq<u8>) -> nat
    decreases bytes.len(),
{
    if bytes.len() == 0 {
        0
    } else {
        bytes[0] as nat + 256 * le_value(bytes.skip(1))
    }
}

/// `pow256` grows with its argument.
pub proof fn lemma_pow256_monotonic(a: nat, b: nat)
    requires
        a <= b,
    ensures
        0 < pow256(a) <= pow256(b),
    decreases b,
{
    if b > a {
        lemma_pow256_monotonic(a, (b - 1) as nat);
    } else if a > 0 {
        lemma_pow256_monotonic((a - 1) as nat, (a - 1) as nat);
    }
}

/// The values of `pow256` at the widths of the machine integers.
pub proof fn lemma_pow256_widths()
    ensures
        pow256(1) == 0x100,
        pow256(2) == 0x1_0000,
        pow256(4) == 0x1_0000_0000,
        pow256(8) == 0x1_0000_0000_0000_0000,
        pow256(16) == 0x1_0000_0000_0000_0000_0000_0000_0000_0000,
{
    reveal_with_fuel(pow256, 17);
}

/// A little-endian string of `n` bytes stands for a number below `256^n`.
pub proof fn lemma_le_value_bound(bytes: Seq<u8>)
    ensures
        le_value(bytes) < pow256(bytes.len()),
    decreases bytes.len(),
{
    if bytes.len() > 0 {
        lemma_le_value_bound(bytes.skip(1));
    }
}

/// A string of zero bytes stands for zero, and no other string of its length
/// does.
pub proof fn lemma_le_value_zero(bytes: Seq<u8>)
    ensures
        le_value(bytes) == 0 <==> (forall|i: int| 0 <= i < bytes.len() ==> bytes[i] == 0),
    decreases bytes.len(),
{
    if bytes.len() > 0 {
        let rest = bytes.skip(1);
        lemma_le_value_zero(rest);
        if le_value(bytes) == 0 {
            assert forall|i: int| 0 <= i < bytes.len() implies bytes[i] == 0 by {
                if i > 0 {
                    assert(bytes[i] == rest[i - 1]);
                }
            }
        }
        if forall|i: int| 0 <= i < bytes.len() ==> bytes[i] == 0 {
            assert forall|i: int| 0 <= i < rest.len() implies rest[i] == 0 by {
                assert(rest[i] == bytes[i + 1]);
            }
        }
    }
}

/// Reads `bytes`, at most sixteen of them, as one little-endian number.
fn le_uint(bytes: &[u8]) -> (value: u128)
    requires
        bytes@.len() <= 16,
    ensures
        value == le_value(bytes@),
        value < pow256(bytes@.len()),
{
    let len = bytes.len();
    let mut value: u128 = 0;
    let mut i: usize = len;
    while i > 0
        invariant
            i <= len,
            len == bytes@.len(),
            len <= 16,
            value == le_value(bytes@.subrange(i as int, len as int)),
            value < pow256((len - i) as nat),
        decreases i,
    {
        i = i - 1;
        proof {
            let tail = bytes@.subrange(i as int, len as int);
            assert(tail.skip(1) =~= bytes@.subrange(i + 1, len as int));
            lemma_pow256_monotonic((len - i) as nat, 16);
            lemma_pow256_widths();
        }
        value = value * 256 + bytes[i] as u128;
    }
    proof {
        assert(bytes@.subrange(0, len as int) =~= bytes@);
    }
    value
}

/// What a field of `width` bytes decodes to: the number its bytes stand for,
/// and nothing when the field has another length.
pub open spec fn decode_uint(bytes: Seq<u8>, width: nat) -> Option<nat> {
    if bytes.len() == width {
        Some(le_value(bytes))
    } else {
        None
    }
}

/// Decodes a field of one byte.
pub fn le_u8(bytes: &[u8]) -> (r: Option<u8>)
    ensures
        r is Some <==> bytes@.len() == 1,
        r matches Some(v) ==> decode_uint(bytes@, 1) == Some(v as nat),
{
    if bytes.len() != 1 {
        return None;
    }
    let value = le_uint(bytes);
    proof {
        lemma_pow256_widths();
    }
    Some(value as u8)
}

/// Decodes a field of two bytes.
pub fn le_u16(bytes: &[u8]) -> (r: Option<u16>)
    ensures
        r is Some <==> bytes@.len() == 2,
        r matches Some(v) ==> decode_uint(bytes@, 2) == Some(v as nat),
{
    if bytes.len() != 2 {
        return None;
    }
    let value = le_uint(bytes);
    proof {
        lemma_pow256_widths();
    }
    Some(value as u16)
}

/// Decodes a field of four bytes.
pub fn le_u32(bytes: &[u8]) -> (r: Option<u32>)
    ensures
        r is Some <==> bytes@.len() == 4,
        r matches Some(v) ==> decode_uint(bytes@, 4) == Some(v as nat),
{
    if bytes.len() != 4 {
        return None;
    }
    let value = le_uint(bytes);
    proof {
        lemma_pow256_widths();
    }
    Some(value as u32)
}

/// Decodes a field of eight bytes.
pub fn le_u64(bytes: &[u8]) -> (r: Option<u64>)
    ensures
        r is Some <==> bytes@.len() == 8,
        r matches Some(v) ==> decode_uint(bytes@, 8) == Some(v as nat),
{
    if bytes.len() != 8 {
        return None;
    }
    let value = le_uint(bytes);
    proof {
        lemma_pow256_widths();
    }
    Some(value as u64)
}

/// Decodes a field of sixteen bytes.
pub fn le_u128(bytes: &[u8]) -> (r: Option<u128>)
    ensures
        r is Some <==> bytes@.len() == 16,
        r matches Some(v) ==> decode_uint(bytes@, 16) == Some(v as nat),
{
    if bytes.len() != 16 {
        return None;
    }
    Some(le_uint(bytes))
}

/// The number that the `width` bytes of `bytes` from index `at` on stand for.
pub open spec fn field_value(bytes: Seq<u8>, at: int, width: int) -> nat {
    le_value(bytes.subrange(at, at + width))
}

/// Reads the field of `width` bytes that starts at index `at`.
pub(crate) fn uint_at(input: &[u8], at: usize, width: usize) -> (value: u128)
    requires
        width <= 16,
        at + width <= input@.len(),
    ensures
        value == field_value(input@, at as int, width as int),
        value < pow256(width as nat),
{
    assert(input@.len() == input.len());
    le_uint(slice_subrange(input, at, at + width))
}

/// Reads the one-byte field that starts at index `at`.
pub(crate) fn u8_at(input: &[u8], at: usize) -> (value: u8)
    requires
        at + 1 <= input@.len(),
    ensures
        value == field_value(input@, at as int, 1),
{
    let value = uint_at(input, at, 1);
    proof {
        lemma_pow256_widths();
    }
    value as u8
}

/// Reads the two-byte field that starts at index `at`.
pub(crate) fn u16_at(input: &[u8], at: usize) -> (value: u16)
    requires
        at + 2 <= input@.len(),
    ensures
        value == field_value(input@, at as int, 2),
{
    let value = uint_at(input, at, 2);
    proof {
        lemma_pow256_widths();
    }
    value as u16
}

/// Reads the four-byte field that starts at index `at`.
pub(crate) fn u32_at(input: &[u8], at: usize) -> (value: u32)
    requires
        at + 4 <= input@.len(),
    ensures
        value == field_value(input@, at as int, 4),
{
    let value = uint_at(input, at, 4);
    proof {
        lemma_pow256_widths();
    }
    value as u32
}

/// Reads the eight-byte field that starts at index `at`.
pub(crate) fn u64_at(input: &[u8], at: usize) -> (value: u64)
    requires
        at + 8 <= input@.len(),
    ensures
        value == field_value(input@, at as int, 8),
{
    let value = uint_at(input, at, 8);
    proof {
        lemma_pow256_widths();
    }
    value as u64
}

/// Reads the sixteen-byte field that starts at index `at`.
pub(crate) fn u128_at(input: &[u8], at: usize) -> (value: u128)
    requires
        at + 16 <= input@.len(),
    ensures
        value == field_value(input@, at as int, 16),
{
    uint_at(input, at, 16)
}

} // verus!
