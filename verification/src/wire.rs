//! The integer layer of the wire format: unsigned integers travel as
//! little-endian base-128 groups, seven bits to a byte, the top bit of a byte
//! saying that another byte follows.
//!
//! The bytes themselves are made and read by `postcard`; this module states
//! what they are and proves that reading undoes writing.

use vstd::prelude::*;

verus! {

/// Why a frame could not be decoded.
#[derive(Debug, Clone, Copy, PartialEq, Eq, Structural)]
pub enum CodecError {
    /// The frame ends before the value it announces is complete.
    UnexpectedEnd,
    /// An integer field runs over the width that the schema declares for it.
    BadVarint,
    /// The discriminant names no variant of the message type.
    UnknownVariant,
}

/// The bytes of `n`: seven bits at a time, least significant group first,
/// every byte but the last one marked with its top bit.
pub open spec fn varint(n: nat) -> Seq<u8>
    decreases n,
{
    if n < 128 {
        seq![n as u8]
    } else {
        seq![(128 + n % 128) as u8] + varint(n / 128)
    }
}

/// What a reader that allows `width` bytes makes of the front of `bytes`: the
/// value and the number of bytes it took. The last allowed byte may hold no
/// more than `top`, so that the value fits the integer type it is read for.
pub open spec fn parse_varint(bytes: Seq<u8>, width: nat, top: u8) -> Result<(nat, nat), CodecError>
    decreases width,
{
    if width == 0 {
        Err(CodecError::BadVarint)
    } else if bytes.len() == 0 {
        Err(CodecError::UnexpectedEnd)
    } else if bytes[0] < 128 {
        if width == 1 && bytes[0] > top {
            Err(CodecError::BadVarint)
        } else {
            Ok((bytes[0] as nat, 1))
        }
    } else {
        match parse_varint(bytes.skip(1), (width - 1) as nat, top) {
            Ok((high, used)) => Ok((((bytes[0] - 128) + 128 * high) as nat, used + 1)),
            Err(e) => Err(e),
        }
    }
}

/// The first value that a reader of `width` bytes with last byte up to `top`
/// cannot produce.
pub open spec fn varint_limit(width: nat, top: u8) -> nat
    decreases width,
{
    if width == 0 {
        0
    } else if width == 1 {
        top as nat + 1
    } else {
        128 * varint_limit((width - 1) as nat, top)
    }
}

/// A 32-bit field is read from at most five bytes, the fifth holding four bits.
pub open spec fn parse_u32(bytes: Seq<u8>) -> Result<(nat, nat), CodecError> {
    parse_varint(bytes, 5, 15)
}

/// A 16-bit field is read from at most three bytes, the third holding two bits.
pub open spec fn parse_u16(bytes: Seq<u8>) -> Result<(nat, nat), CodecError> {
    parse_varint(bytes, 3, 3)
}

/// `postcard::to_allocvec` on a `u32`. Claimed of it: the bytes are exactly
/// `varint(value)`. The call writes into a growing vector, which never
/// reports a full buffer, so it does not fail.
#[verifier::external_body]
pub(crate) fn put_u32(value: u32) -> (out: Vec<u8>)
    ensures
        out@ == varint(value as nat),
{
    postcard::to_allocvec(&value).unwrap_or_default()
}

/// `postcard::take_from_bytes` at type `u32`. Claimed of it: it reads the
/// front of `bytes` as `parse_u32` says and hands back the value with the
/// bytes behind it; it fails on a frame that ends too early or on a field
/// that is too wide, and says which.
#[verifier::external_body]
pub(crate) fn take_u32<'a>(bytes: &'a [u8]) -> (r: Result<(u32, &'a [u8]), CodecError>)
    ensures
        match parse_u32(bytes@) {
            Ok((value, used)) => r matches Ok((v, rest)) && v == value && rest@ == bytes@.skip(
                used as int,
            ),
            Err(e) => r matches Err(f) && f == e,
        },
{
    match postcard::take_from_bytes::<u32>(bytes) {
        Ok((value, rest)) => Ok((value, rest)),
        Err(postcard::Error::DeserializeUnexpectedEnd) => Err(CodecError::UnexpectedEnd),
        Err(_) => Err(CodecError::BadVarint),
    }
}

/// `postcard::take_from_bytes` at type `u16`. Claimed of it: as `take_u32`,
/// with the narrower reader `parse_u16`.
#[verifier::external_body]
pub(crate) fn take_u16<'a>(bytes: &'a [u8]) -> (r: Result<(u16, &'a [u8]), CodecError>)
    ensures
        match parse_u16(bytes@) {
            Ok((value, used)) => r matches Ok((v, rest)) && v == value && rest@ == bytes@.skip(
                used as int,
            ),
            Err(e) => r matches Err(f) && f == e,
        },
{
    match postcard::take_from_bytes::<u16>(bytes) {
        Ok((value, rest)) => Ok((value, rest)),
        Err(postcard::Error::DeserializeUnexpectedEnd) => Err(CodecError::UnexpectedEnd),
        Err(_) => Err(CodecError::BadVarint),
    }
}

/// The bytes of a value below `varint_limit(width, top)` number at most
/// `width`, and at least one.
pub proof fn varint_len_bound(n: nat, width: nat, top: u8)
    requires
        top < 128,
        n < varint_limit(width, top),
    ensures
        1 <= varint(n).len() <= width,
    decreases width,
{
    if n >= 128 {
        assert(width >= 2);
        varint_len_bound(n / 128, (width - 1) as nat, top);
    }
}

/// Reading undoes writing: whatever follows the bytes of `n`, a reader wide
/// enough for `n` gets `n` back and stops right behind its bytes.
pub proof fn parse_varint_roundtrip(n: nat, tail: Seq<u8>, width: nat, top: u8)
    requires
        top < 128,
        n < varint_limit(width, top),
    ensures
        parse_varint(varint(n) + tail, width, top) == Ok::<(nat, nat), CodecError>(
            (n, varint(n).len()),
        ),
    decreases width,
{
    let bytes = varint(n) + tail;
    if n < 128 {
        assert(bytes[0] == n as u8);
    } else {
        assert(width >= 2);
        let rest = varint(n / 128) + tail;
        assert(bytes[0] == (128 + n % 128) as u8);
        assert(bytes.skip(1) =~= rest);
        parse_varint_roundtrip(n / 128, tail, (width - 1) as nat, top);
    }
}

/// A value that was read fits the reader: it lies below
/// `varint_limit(width, top)` and took between one and `width` bytes, none
/// of them from beyond the end.
pub proof fn parse_varint_in_range(bytes: Seq<u8>, width: nat, top: u8)
    requires
        top < 128,
        parse_varint(bytes, width, top) is Ok,
    ensures
        parse_varint(bytes, width, top)->Ok_0.0 < varint_limit(width, top),
        1 <= parse_varint(bytes, width, top)->Ok_0.1 <= width,
        parse_varint(bytes, width, top)->Ok_0.1 <= bytes.len(),
    decreases width,
{
    if width > 0 && bytes.len() > 0 && bytes[0] >= 128 {
        parse_varint_in_range(bytes.skip(1), (width - 1) as nat, top);
    } else if width > 1 {
        varint_limit_at_least(width, top);
    }
}

/// A reader of two bytes or more takes any single group of seven bits.
proof fn varint_limit_at_least(width: nat, top: u8)
    requires
        width >= 2,
    ensures
        varint_limit(width, top) >= 128,
    decreases width,
{
    if width > 2 {
        varint_limit_at_least((width - 1) as nat, top);
    } else {
        assert(varint_limit(1, top) >= 1);
    }
}

/// The two readers of this format end where the integer types end.
pub proof fn varint_limits()
    ensures
        varint_limit(5, 15) == 0x1_0000_0000,
        varint_limit(3, 3) == 0x1_0000,
{
    reveal_with_fuel(varint_limit, 6);
}

} // verus!
