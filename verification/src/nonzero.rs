//! A 64-bit unsigned integer that is never zero.

use vstd::prelude::*;
use crate::codec::{decode_uint, le_u64};

verus! {

/// A 64-bit unsigned integer other than zero. Zero is no value of this type:
/// `new` refuses it, and a field of this type that reads as zero fails to
/// decode.
#[derive(Clone, Copy, Debug, PartialEq, Eq)]
pub struct NonZeroU64 {
    value: u64,
}

impl View for NonZeroU64 {
    type V = u64;

    closed spec fn view(&self) -> u64 {
        self.value
    }
}

impl NonZeroU64 {
    #[verifier::type_invariant]
    spec fn is_nonzero(self) -> bool {
        self.value != 0
    }

    /// What `unpack` makes of a field: the number its eight bytes stand for,
    /// unless there are not eight of them or the number is zero.
    pub open spec fn decode(bytes: Seq<u8>) -> Option<u64> {
        match decode_uint(bytes, 8) {
            Some(n) => if n == 0 {
                None
            } else {
                Some(n as u64)
            },
            None => None,
        }
    }

    /// Makes the value `value`, which must not be zero.
    pub fn new(value: u64) -> (r: Option<NonZeroU64>)
        ensures
            r is Some <==> value != 0,
            r matches Some(n) ==> n@ == value,
    {
        if value == 0 {
            None
        } else {
            Some(NonZeroU64 { value })
        }
    }

    /// The number held.
    pub fn get(&self) -> (value: u64)
        ensures
            value == self@,
            value != 0,
    {
        proof {
            use_type_invariant(self);
        }
        self.value
    }

    /// Decodes a field of eight little-endian bytes that may not be zero.
    pub fn unpack(input: &[u8]) -> (r: Option<NonZeroU64>)
        ensures
            r is Some <==> Self::decode(input@) is Some,
            r matches Some(n) ==> Self::decode(input@) == Some(n@),
    {
        match le_u64(input) {
            Some(value) => Self::new(value),
            None => None,
        }
    }
}

/// Two values that hold the same number are the same value.
pub proof fn lemma_nonzero_by_view(a: NonZeroU64, b: NonZeroU64)
    requires
        a@ == b@,
    ensures
        a == b,
{
}

} // verus!
