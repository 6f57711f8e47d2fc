//! The encoding as mathematics: what a byte sequence means for a target of a given width.
//!
//! Every decoder of the crate is held to [`decode_unsigned`] or [`decode_signed`].

use crate::error::Error;
use crate::format::{
    is_negative_fixint, is_positive_fixint, signed_width, unsigned_width, BIN8, WIDE_LEN,
};
use vstd::prelude::*;

verus! {

/// `256` to the power `width`: the number of values that `width` bytes can hold.
pub open spec fn radix(width: nat) -> nat
    decreases width,
{
    if width == 0 {
        1
    } else {
        256 * radix((width - 1) as nat)
    }
}

/// The number that `bytes` spell in base 256, most significant byte first: each byte counts
/// for as many powers of 256 as bytes follow it.
pub open spec fn be_value(bytes: Seq<u8>) -> nat
    decreases bytes.len(),
{
    if bytes.len() == 0 {
        0
    } else {
        bytes[0] as nat * radix((bytes.len() - 1) as nat) + be_value(bytes.skip(1))
    }
}

/// The `width` bytes that spell `value` in base 256, most significant first; of a value too
/// large for them, its low digits.
pub open spec fn be_bytes(value: nat, width: nat) -> Seq<u8>
    decreases width,
{
    if width == 0 {
        Seq::empty()
    } else {
        be_bytes(value / 256, (width - 1) as nat).push((value % 256) as u8)
    }
}

/// `raw`, the unsigned reading of `width` bytes, read as two's complement.
pub open spec fn twos_complement(raw: nat, width: nat) -> int {
    if 2 * raw < radix(width) {
        raw as int
    } else {
        raw - radix(width)
    }
}

/// The payload of an explicit tag: the `width` bytes at the front of `rest`, as a number.
pub open spec fn payload(rest: Seq<u8>, width: nat) -> Result<nat, Error> {
    if rest.len() < width {
        Err(Error::BufferTooShort)
    } else {
        Ok(be_value(rest.take(width as int)))
    }
}

/// The payload of a 128-bit integer behind the binary tag: a length byte, which must be 16,
/// and then sixteen bytes.
pub open spec fn wide_payload(rest: Seq<u8>) -> Result<nat, Error> {
    if rest.len() == 0 {
        Err(Error::BufferTooShort)
    } else if rest[0] != WIDE_LEN {
        Err(Error::UnexpectedBinLength)
    } else {
        payload(rest.skip(1), 16)
    }
}

/// What `bytes` decode to for an unsigned target of `width` bytes: the number of bytes read
/// and the value.
///
/// It is the tag that is held against the width, never the value: an explicit tag wider than
/// the target is refused whatever its payload holds.
pub open spec fn decode_unsigned(bytes: Seq<u8>, width: nat) -> Result<(nat, nat), Error> {
    if bytes.len() == 0 {
        Err(Error::BufferTooShort)
    } else {
        let tag = bytes[0];
        let rest = bytes.skip(1);
        if is_positive_fixint(tag) {
            Ok((1, tag as nat))
        } else if unsigned_width(tag) is Some && unsigned_width(tag)->0 <= width {
            match payload(rest, unsigned_width(tag)->0) {
                Ok(v) => Ok((1 + unsigned_width(tag)->0, v)),
                Err(e) => Err(e),
            }
        } else if tag == BIN8 && width == 16 {
            match wide_payload(rest) {
                Ok(v) => Ok((18, v)),
                Err(e) => Err(e),
            }
        } else {
            Err(Error::UnexpectedFormatTag)
        }
    }
}

/// What `bytes` decode to for a signed target of `width` bytes: the number of bytes read and
/// the value. A payload is read as two's complement at its own width, so that it keeps its
/// sign in a wider target.
pub open spec fn decode_signed(bytes: Seq<u8>, width: nat) -> Result<(nat, int), Error> {
    if bytes.len() == 0 {
        Err(Error::BufferTooShort)
    } else {
        let tag = bytes[0];
        let rest = bytes.skip(1);
        if is_positive_fixint(tag) {
            Ok((1, tag as int))
        } else if is_negative_fixint(tag) {
            Ok((1, tag - 256))
        } else if signed_width(tag) is Some && signed_width(tag)->0 <= width {
            match payload(rest, signed_width(tag)->0) {
                Ok(v) => Ok((1 + signed_width(tag)->0, twos_complement(v, signed_width(tag)->0))),
                Err(e) => Err(e),
            }
        } else if tag == BIN8 && width == 16 {
            match wide_payload(rest) {
                Ok(v) => Ok((18, twos_complement(v, 16))),
                Err(e) => Err(e),
            }
        } else {
            Err(Error::UnexpectedFormatTag)
        }
    }
}

/// The length of an encoded integer as its tag alone gives it: the tag byte and the payload
/// that the tag announces; behind the binary tag a length byte and sixteen bytes.
pub open spec fn encoded_len(tag: u8) -> nat {
    if unsigned_width(tag) is Some {
        1 + unsigned_width(tag)->0
    } else if signed_width(tag) is Some {
        1 + signed_width(tag)->0
    } else if tag == BIN8 {
        18
    } else {
        1
    }
}

/// A 128-bit integer as it travels: the binary tag, the length byte 16, and the sixteen
/// bytes that spell `raw`.
pub open spec fn wide_encoding(raw: nat) -> Seq<u8> {
    seq![BIN8, WIDE_LEN] + be_bytes(raw, 16)
}

/// The powers of 256 at the widths that the encoding uses.
pub proof fn lemma_radix_values()
    ensures
        radix(0) == 1,
        radix(1) == 0x100,
        radix(2) == 0x1_0000,
        radix(4) == 0x1_0000_0000,
        radix(8) == 0x1_0000_0000_0000_0000,
        radix(16) == 0x1_0000_0000_0000_0000_0000_0000_0000_0000,
{
    reveal_with_fuel(radix, 17);
}

/// A wider field holds at least as many values.
pub proof fn lemma_radix_grows(narrow: nat, wide: nat)
    requires
        narrow <= wide,
    ensures
        radix(narrow) <= radix(wide),
    decreases wide,
{
    if narrow < wide {
        lemma_radix_grows(narrow, (wide - 1) as nat);
    }
}

/// A byte appended at the end is the new least significant digit: all that stood before it
/// moves up by one.
pub proof fn lemma_be_value_push(bytes: Seq<u8>, last: u8)
    ensures
        be_value(bytes.push(last)) == be_value(bytes) * 256 + last,
    decreases bytes.len(),
{
    let longer = bytes.push(last);
    if bytes.len() == 0 {
        assert(be_value(longer.skip(1)) == 0);
        assert(radix(0) == 1);
        assert(be_value(longer) == last as nat * radix(0) + be_value(longer.skip(1)));
    } else {
        let first = bytes[0] as nat;
        let weight = radix((bytes.len() - 1) as nat);
        assert(longer.skip(1) =~= bytes.skip(1).push(last));
        lemma_be_value_push(bytes.skip(1), last);
        assert(radix(bytes.len()) == 256 * weight);
        assert(be_value(longer) == first * radix(bytes.len()) + be_value(longer.skip(1)));
        assert(first * (256 * weight) == first * weight * 256) by (nonlinear_arith);
    }
}

/// One byte spells itself.
pub proof fn lemma_be_value_byte(bytes: Seq<u8>)
    ensures
        bytes.len() > 0 ==> be_value(bytes.take(1)) == bytes[0],
{
    if bytes.len() > 0 {
        lemma_be_value_push(Seq::empty(), bytes[0]);
        assert(bytes.take(1) =~= Seq::<u8>::empty().push(bytes[0]));
    }
}

/// `n` bytes spell a number below `256` to the `n`.
pub proof fn lemma_be_value_bound(bytes: Seq<u8>)
    ensures
        be_value(bytes) < radix(bytes.len()),
    decreases bytes.len(),
{
    if bytes.len() > 0 {
        let first = bytes[0] as nat;
        let weight = radix((bytes.len() - 1) as nat);
        lemma_be_value_bound(bytes.skip(1));
        assert(first * weight <= 255 * weight) by (nonlinear_arith)
            requires
                first <= 255,
        ;
    }
}

/// A value that fits `width` bytes is read back from the bytes that spell it.
pub proof fn lemma_be_bytes_read_back(value: nat, width: nat)
    requires
        value < radix(width),
    ensures
        be_bytes(value, width).len() == width,
        be_value(be_bytes(value, width)) == value,
    decreases width,
{
    if width > 0 {
        lemma_be_bytes_read_back(value / 256, (width - 1) as nat);
        lemma_be_value_push(be_bytes(value / 256, (width - 1) as nat), (value % 256) as u8);
    }
}

} // verus!
