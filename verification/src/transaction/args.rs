//! Argument payloads: pairs of little-endian `u64` fields.

use vstd::prelude::*;
use vstd::slice::slice_subrange;
use borsh::BorshDeserialize;

verus! {

/// Width in bytes of the two argument fields together.
pub const PAIR_BYTES: usize = 16;

/// The number that `bytes` spell in little-endian order.
pub open spec fn le_value(bytes: Seq<u8>) -> nat
    decreases bytes.len(),
{
    if bytes.len() == 0 {
        0
    } else {
        bytes[0] as nat + 256 * le_value(bytes.drop_first())
    }
}

/// The field of eight bytes that starts at `offset` in `data`, read in
/// little-endian order.
pub open spec fn field_at(data: Seq<u8>, offset: int) -> u64 {
    le_value(data.subrange(offset, offset + 8)) as u64
}

/// The two adjacent fields that start at `offset` in `data`.
pub open spec fn pair_at(data: Seq<u8>, offset: int) -> (u64, u64) {
    (field_at(data, offset), field_at(data, offset + 8))
}

/// What the structured layout makes of `payload`: two fields, and nothing
/// before, between or after them.
pub open spec fn structured_pair(payload: Seq<u8>) -> Option<(u64, u64)> {
    if payload.len() == 16 {
        Some(pair_at(payload, 0))
    } else {
        None
    }
}

/// The arguments of an instruction whose payload follows a header of
/// `header` bytes and may only have the structured layout.
pub open spec fn strict_args(data: Seq<u8>, header: int) -> Option<(u64, u64)> {
    if data.len() >= header {
        structured_pair(data.subrange(header, data.len() as int))
    } else {
        None
    }
}

/// The arguments of an instruction whose payload follows a header of
/// `header` bytes: the structured layout where the payload fits it, else the
/// two fields at their fixed offsets where the data reaches that far.
pub open spec fn tolerant_args(data: Seq<u8>, header: int) -> Option<(u64, u64)> {
    match strict_args(data, header) {
        Some(pair) => Some(pair),
        None => if data.len() >= header + 16 {
            Some(pair_at(data, header))
        } else {
            None
        },
    }
}

/// `256^n`, the number of values that `n` bytes can spell.
pub open spec fn byte_range(n: nat) -> nat
    decreases n,
{
    if n == 0 {
        1
    } else {
        256 * byte_range((n - 1) as nat)
    }
}

/// A number spelt by `n` bytes is below `256^n`.
pub proof fn lemma_le_value_bound(bytes: Seq<u8>)
    ensures
        le_value(bytes) < byte_range(bytes.len()),
    decreases bytes.len(),
{
    if bytes.len() > 0 {
        lemma_le_value_bound(bytes.drop_first());
    }
}

/// A field of eight bytes fits a `u64`.
pub proof fn lemma_field_fits(bytes: Seq<u8>)
    requires
        bytes.len() <= 8,
    ensures
        le_value(bytes) <= u64::MAX,
{
    lemma_le_value_bound(bytes);
    reveal_with_fuel(byte_range, 9);
}

/// Reads the field of eight bytes that starts at `offset`.
pub fn read_u64_le(data: &[u8], offset: usize) -> (value: u64)
    requires
        offset + 8 <= data@.len(),
    ensures
        value == field_at(data@, offset as int),
{
    let ghost field = data@.subrange(offset as int, offset + 8);
    let len = data.len();
    let mut value: u64 = 0;
    let mut taken: usize = 0;
    while taken < 8
        invariant
            taken <= 8,
            offset + 8 <= data@.len() == len,
            field == data@.subrange(offset as int, offset + 8),
            value as nat == le_value(field.subrange(8 - taken, 8)),
        decreases 8 - taken,
    {
        let byte = data[offset + (7 - taken)];
        proof {
            let seen = field.subrange(8 - taken, 8);
            let next = field.subrange(7 - taken, 8);
            assert(next.drop_first() =~= seen);
            assert(next[0] == byte);
            lemma_field_fits(next);
        }
        value = value * 256 + byte as u64;
        taken += 1;
    }
    proof {
        assert(field.subrange(0, 8) =~= field);
    }
    value
}

/// Calls `borsh::BorshDeserialize::try_from_slice` for a pair of `u64`, and
/// drops the error. Not proved: that the call succeeds exactly on sixteen
/// bytes, and then yields the two little-endian fields in order.
#[verifier::external_body]
fn pair_from_slice(payload: &[u8]) -> (pair: Option<(u64, u64)>)
    ensures
        pair == structured_pair(payload@),
{
    <(u64, u64)>::try_from_slice(payload).ok()
}

/// Decodes the arguments that follow a header of `header` bytes, accepting
/// the structured layout only.
pub fn parse_strict_args(data: &[u8], header: usize) -> (args: Option<(u64, u64)>)
    ensures
        args == strict_args(data@, header as int),
{
    if data.len() >= header {
        pair_from_slice(slice_subrange(data, header, data.len()))
    } else {
        None
    }
}

/// Decodes the arguments that follow a header of `header` bytes: first by
/// the structured layout, and where that fails by reading the two fields at
/// their fixed offsets.
pub fn parse_tolerant_args(data: &[u8], header: usize) -> (args: Option<(u64, u64)>)
    ensures
        args == tolerant_args(data@, header as int),
{
    match parse_strict_args(data, header) {
        Some(pair) => Some(pair),
        None => {
            if data.len() >= header && data.len() - header >= PAIR_BYTES {
                let first = read_u64_le(data, header);
                let second = read_u64_le(data, header + 8);
                Some((first, second))
            } else {
                None
            }
        },
    }
}

/// The structured layout takes the data exactly when sixteen bytes follow
/// the header, and then yields the two fields that follow the header.
pub proof fn lemma_strict_args(data: Seq<u8>, header: int)
    requires
        header >= 0,
    ensures
        strict_args(data, header) == if data.len() == header + 16 {
            Some(pair_at(data, header))
        } else {
            None::<(u64, u64)>
        },
{
    if data.len() == header + 16 {
        let payload = data.subrange(header, data.len() as int);
        assert(payload.subrange(0, 8) =~= data.subrange(header, header + 8));
        assert(payload.subrange(8, 16) =~= data.subrange(header + 8, header + 16));
    }
}

/// The two layouts never disagree: arguments are decoded exactly when the
/// data holds at least sixteen bytes after the header, and are then the two
/// fields that follow the header.
pub proof fn lemma_tolerant_args(data: Seq<u8>, header: int)
    requires
        header >= 0,
    ensures
        tolerant_args(data, header) == if data.len() >= header + 16 {
            Some(pair_at(data, header))
        } else {
            None::<(u64, u64)>
        },
{
    lemma_strict_args(data, header);
}

} // verus!
