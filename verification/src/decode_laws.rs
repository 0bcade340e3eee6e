//! What holds of every byte string that the decoder is given.

use vstd::prelude::*;
use crate::codec::{field_value, le_value, lemma_le_value_zero};
use crate::instruction::{payload_len, MarketInstruction};

verus! {

/// A string of fewer than five bytes holds no tag, and decodes to nothing.
pub proof fn lemma_short_input_rejected(b: Seq<u8>)
    requires
        b.len() < 5,
    ensures
        MarketInstruction::decode(b) is None,
{
}

/// A string whose tag is above 17 decodes to nothing.
pub proof fn lemma_unknown_tag_rejected(b: Seq<u8>)
    requires
        b.len() >= 5,
        field_value(b, 1, 4) > 17,
    ensures
        MarketInstruction::decode(b) is None,
{
}

/// A payload decodes under a tag only if it has the length that the wire
/// format declares for the tag, and then to the variant of that tag.
pub proof fn lemma_payload_shape(tag: nat, p: Seq<u8>)
    requires
        MarketInstruction::decode_payload(tag, p) is Some,
    ensures
        payload_len(tag) == Some(p.len()),
        MarketInstruction::decode_payload(tag, p)->0.tag() == tag,
{
}

/// A string that decodes has its tag between 0 and 17, decodes to the variant
/// of its tag, and has exactly the five leading bytes and the payload length
/// declared for the tag: no byte is missing and none is left over.
pub proof fn lemma_decoded_shape(b: Seq<u8>)
    requires
        MarketInstruction::decode(b) is Some,
    ensures
        b.len() >= 5,
        field_value(b, 1, 4) <= 17,
        MarketInstruction::decode(b)->0.tag() == field_value(b, 1, 4),
        payload_len(field_value(b, 1, 4)) == Some((b.len() - 5) as nat),
{
    lemma_payload_shape(field_value(b, 1, 4), b.subrange(5, b.len() as int));
}

/// Whether the payload of the tag `tag` holds, from its byte `at` on, a field
/// of eight bytes that may not be zero: a price or a quantity of one of the
/// four order instructions.
pub open spec fn is_nonzero_field(tag: nat, at: int) -> bool {
    ||| (tag == 1 || tag == 9) && (at == 4 || at == 12)
    ||| (tag == 10 || tag == 13) && (at == 4 || at == 12 || at == 20)
}

/// Whether the payload of the tag `tag` holds, from its byte `at` on, a
/// closed-variant field of `width` bytes whose table has `count` ordinals: a
/// side, an order type or a self-trade behaviour. The self-trade behaviour of
/// tag 9 is the one field of a single byte.
pub open spec fn is_closed_field(tag: nat, at: int, width: int, count: nat) -> bool {
    ||| (tag == 1 || tag == 4 || tag == 9 || tag == 10 || tag == 11 || tag == 13) && at == 0
        && width == 4 && count == 2
    ||| (tag == 1 || tag == 9) && at == 20 && width == 4 && count == 3
    ||| tag == 9 && at == 32 && width == 1 && count == 3
    ||| tag == 10 && (at == 28 || at == 32) && width == 4 && count == 3
}

/// Whether `b` is a well-formed instruction: it has its five leading bytes, a
/// tag from 0 to 17 and a payload of exactly the length declared for the tag,
/// every closed-variant field of the payload holds an ordinal of its table,
/// and no non-zero field holds zero.
pub open spec fn is_well_formed(b: Seq<u8>) -> bool {
    &&& b.len() >= 5
    &&& payload_len(field_value(b, 1, 4)) == Some((b.len() - 5) as nat)
    &&& forall|at: int, width: int, count: nat| #[trigger]
        is_closed_field(field_value(b, 1, 4), at, width, count) ==> field_value(
            b.subrange(5, b.len() as int),
            at,
            width,
        ) < count
    &&& forall|at: int| #[trigger]
        is_nonzero_field(field_value(b, 1, 4), at) ==> field_value(
            b.subrange(5, b.len() as int),
            at,
            8,
        ) != 0
}

/// A string decodes to an instruction exactly when it is well-formed.
pub proof fn lemma_decodes_iff_well_formed(b: Seq<u8>)
    ensures
        MarketInstruction::decode(b) is Some <==> is_well_formed(b),
{
    if b.len() >= 5 {
        let tag = field_value(b, 1, 4);
        let p = b.subrange(5, b.len() as int);
        if MarketInstruction::decode(b) is Some {
            lemma_decoded_shape(b);
        }
        if is_well_formed(b) {
            assert(tag <= 17);
            assert(is_closed_field(tag, 0, 4, 2) ==> field_value(p, 0, 4) < 2);
            assert(is_closed_field(tag, 20, 4, 3) ==> field_value(p, 20, 4) < 3);
            assert(is_closed_field(tag, 28, 4, 3) ==> field_value(p, 28, 4) < 3);
            assert(is_closed_field(tag, 32, 4, 3) ==> field_value(p, 32, 4) < 3);
            assert(is_closed_field(tag, 32, 1, 3) ==> field_value(p, 32, 1) < 3);
            assert(is_nonzero_field(tag, 4) ==> field_value(p, 4, 8) != 0);
            assert(is_nonzero_field(tag, 12) ==> field_value(p, 12, 8) != 0);
            assert(is_nonzero_field(tag, 20) ==> field_value(p, 20, 8) != 0);
        }
    }
}

/// A string in which all bytes of a non-zero field are zero decodes to
/// nothing, whatever its other fields hold.
pub proof fn lemma_zero_field_rejected(b: Seq<u8>, at: int)
    requires
        b.len() >= 5,
        is_nonzero_field(field_value(b, 1, 4), at),
        forall|i: int| 5 + at <= i < 5 + at + 8 && i < b.len() ==> b[i] == 0,
    ensures
        MarketInstruction::decode(b) is None,
{
    let tag = field_value(b, 1, 4);
    let p = b.subrange(5, b.len() as int);
    if payload_len(tag) == Some(p.len()) {
        let field = p.subrange(at, at + 8);
        assert forall|i: int| 0 <= i < field.len() implies field[i] == 0 by {
            assert(field[i] == b[5 + at + i]);
        }
        lemma_le_value_zero(field);
        assert(le_value(field) == 0);
    } else if MarketInstruction::decode_payload(tag, p) is Some {
        lemma_payload_shape(tag, p);
    }
}

/// A string that decodes stops doing so when bytes are cut off its end.
pub proof fn lemma_truncated_input_rejected(b: Seq<u8>, n: int)
    requires
        MarketInstruction::decode(b) is Some,
        0 <= n < b.len(),
    ensures
        MarketInstruction::decode(b.take(n)) is None,
{
    let short = b.take(n);
    lemma_decoded_shape(b);
    if n >= 5 {
        assert(short.subrange(1, 5) =~= b.subrange(1, 5));
        if MarketInstruction::decode(short) is Some {
            lemma_decoded_shape(short);
        }
    }
}

/// A string that decodes stops doing so when bytes are added at its end.
pub proof fn lemma_extended_input_rejected(b: Seq<u8>, more: Seq<u8>)
    requires
        MarketInstruction::decode(b) is Some,
        more.len() > 0,
    ensures
        MarketInstruction::decode(b + more) is None,
{
    let long = b + more;
    lemma_decoded_shape(b);
    assert(long.subrange(1, 5) =~= b.subrange(1, 5));
    if MarketInstruction::decode(long) is Some {
        lemma_decoded_shape(long);
    }
}

} // verus!
