//! What holds of the decoders on every input.
//!
//! The laws speak of [`Unpackable::decoded`], to which both forms of every decoder are held,
//! and of [`decode_unsigned`] and [`decode_signed`], by which it is defined for each integer
//! type.

use crate::error::Error;
use crate::format::{
    is_negative_fixint, is_positive_fixint, signed_width, unsigned_width, BIN8, WIDE_LEN,
};
use crate::unpack::Unpackable;
use crate::wire::{
    be_bytes, decode_signed, decode_unsigned, encoded_len, lemma_be_bytes_read_back,
    lemma_be_value_bound, lemma_radix_grows, lemma_radix_values, radix, twos_complement,
    wide_encoding,
};
use vstd::prelude::*;

verus! {

/// The decode was turned away for its tag.
pub open spec fn tag_refused<T>(r: Result<(usize, T), Error>) -> bool {
    r matches Err(Error::UnexpectedFormatTag)
}

/// The decode gave the value `v` and read `n` bytes.
pub open spec fn gave<T>(r: Result<(usize, T), Error>, n: usize, v: T) -> bool {
    r == Ok::<(usize, T), Error>((n, v))
}

/// A fixint is its own value and the only byte read, whatever follows it: a positive one
/// for every target, a negative one, read as `i8`, for every signed target.
pub proof fn lemma_fixint(bytes: Seq<u8>)
    requires
        bytes.len() > 0,
    ensures
        is_positive_fixint(bytes[0]) ==> {
            &&& gave(u8::decoded(bytes), 1, bytes[0])
            &&& gave(u16::decoded(bytes), 1, bytes[0] as u16)
            &&& gave(u32::decoded(bytes), 1, bytes[0] as u32)
            &&& gave(u64::decoded(bytes), 1, bytes[0] as u64)
            &&& gave(u128::decoded(bytes), 1, bytes[0] as u128)
            &&& gave(usize::decoded(bytes), 1, bytes[0] as usize)
            &&& gave(i8::decoded(bytes), 1, bytes[0] as i8)
            &&& gave(i16::decoded(bytes), 1, bytes[0] as i16)
            &&& gave(i32::decoded(bytes), 1, bytes[0] as i32)
            &&& gave(i64::decoded(bytes), 1, bytes[0] as i64)
            &&& gave(i128::decoded(bytes), 1, bytes[0] as i128)
            &&& gave(isize::decoded(bytes), 1, bytes[0] as isize)
        },
        is_negative_fixint(bytes[0]) ==> {
            &&& gave(i8::decoded(bytes), 1, (bytes[0] - 256) as i8)
            &&& gave(i16::decoded(bytes), 1, (bytes[0] - 256) as i16)
            &&& gave(i32::decoded(bytes), 1, (bytes[0] - 256) as i32)
            &&& gave(i64::decoded(bytes), 1, (bytes[0] - 256) as i64)
            &&& gave(i128::decoded(bytes), 1, (bytes[0] - 256) as i128)
            &&& gave(isize::decoded(bytes), 1, (bytes[0] - 256) as isize)
        },
{
}

/// It is the tag that is held against the target's width, not the value: an explicit tag
/// that announces more payload bytes than the target has is refused, even where the payload
/// would fit; and the binary tag, which carries sixteen bytes, is refused by every target
/// of fewer. (No explicit tag is wider than the 64-bit targets.)
pub proof fn lemma_tag_width_strict(bytes: Seq<u8>)
    requires
        bytes.len() > 0,
    ensures
        unsigned_width(bytes[0]) matches Some(w) ==> {
            &&& w > 1 ==> tag_refused(u8::decoded(bytes))
            &&& w > 2 ==> tag_refused(u16::decoded(bytes))
            &&& w > 4 ==> tag_refused(u32::decoded(bytes))
        },
        signed_width(bytes[0]) matches Some(w) ==> {
            &&& w > 1 ==> tag_refused(i8::decoded(bytes))
            &&& w > 2 ==> tag_refused(i16::decoded(bytes))
            &&& w > 4 ==> tag_refused(i32::decoded(bytes))
        },
        bytes[0] == BIN8 ==> {
            &&& tag_refused(u8::decoded(bytes))
            &&& tag_refused(u16::decoded(bytes))
            &&& tag_refused(u32::decoded(bytes))
            &&& tag_refused(u64::decoded(bytes))
            &&& tag_refused(usize::decoded(bytes))
            &&& tag_refused(i8::decoded(bytes))
            &&& tag_refused(i16::decoded(bytes))
            &&& tag_refused(i32::decoded(bytes))
            &&& tag_refused(i64::decoded(bytes))
            &&& tag_refused(isize::decoded(bytes))
        },
{
}

/// No unsigned target takes a negative fixint or a signed tag, and no signed target an
/// unsigned tag.
pub proof fn lemma_families_apart(bytes: Seq<u8>)
    requires
        bytes.len() > 0,
    ensures
        is_negative_fixint(bytes[0]) || signed_width(bytes[0]) is Some ==> {
            &&& tag_refused(u8::decoded(bytes))
            &&& tag_refused(u16::decoded(bytes))
            &&& tag_refused(u32::decoded(bytes))
            &&& tag_refused(u64::decoded(bytes))
            &&& tag_refused(u128::decoded(bytes))
            &&& tag_refused(usize::decoded(bytes))
        },
        unsigned_width(bytes[0]) is Some ==> {
            &&& tag_refused(i8::decoded(bytes))
            &&& tag_refused(i16::decoded(bytes))
            &&& tag_refused(i32::decoded(bytes))
            &&& tag_refused(i64::decoded(bytes))
            &&& tag_refused(i128::decoded(bytes))
            &&& tag_refused(isize::decoded(bytes))
        },
{
}

/// An unsigned decode reads the tag and the payload that the tag announces, no byte more
/// and none less, all of them present in the input; and the value fits a target of `width`
/// bytes, so that widening never loses a bit.
pub proof fn lemma_unsigned_decoded(bytes: Seq<u8>, width: nat)
    requires
        width >= 1,
    ensures
        decode_unsigned(bytes, width) matches Ok((n, v)) ==> {
            &&& n == encoded_len(bytes[0])
            &&& 1 <= n <= bytes.len()
            &&& v < radix(width)
        },
{
    if decode_unsigned(bytes, width) is Ok {
        let tag = bytes[0];
        let rest = bytes.skip(1);
        lemma_radix_values();
        if is_positive_fixint(tag) {
            lemma_radix_grows(1, width);
        } else if unsigned_width(tag) is Some && unsigned_width(tag)->0 <= width {
            let w = unsigned_width(tag)->0;
            lemma_be_value_bound(rest.take(w as int));
            lemma_radix_grows(w, width);
        } else {
            lemma_be_value_bound(rest.skip(1).take(16));
        }
    }
}

/// A signed decode reads the tag and the payload that the tag announces, no byte more and
/// none less, all of them present in the input; and the value fits a signed target of
/// `width` bytes, so that widening never loses a bit.
pub proof fn lemma_signed_decoded(bytes: Seq<u8>, width: nat)
    requires
        width >= 1,
    ensures
        decode_signed(bytes, width) matches Ok((n, v)) ==> {
            &&& n == encoded_len(bytes[0])
            &&& 1 <= n <= bytes.len()
            &&& -radix(width) <= 2 * v < radix(width)
        },
{
    if decode_signed(bytes, width) is Ok {
        let tag = bytes[0];
        let rest = bytes.skip(1);
        lemma_radix_values();
        if is_positive_fixint(tag) || is_negative_fixint(tag) {
            lemma_radix_grows(1, width);
        } else if signed_width(tag) is Some && signed_width(tag)->0 <= width {
            let w = signed_width(tag)->0;
            lemma_be_value_bound(rest.take(w as int));
            lemma_radix_grows(w, width);
        } else {
            lemma_be_value_bound(rest.skip(1).take(16));
        }
    }
}

/// The count of bytes read is the tag byte and the payload that the tag announces, never
/// more and never less, and all of them lie in the input.
pub proof fn lemma_bytes_read(bytes: Seq<u8>)
    ensures
        u8::decoded(bytes) matches Ok((n, _)) ==> n == encoded_len(bytes[0]) && n <= bytes.len(),
        u16::decoded(bytes) matches Ok((n, _)) ==> n == encoded_len(bytes[0]) && n <= bytes.len(),
        u32::decoded(bytes) matches Ok((n, _)) ==> n == encoded_len(bytes[0]) && n <= bytes.len(),
        u64::decoded(bytes) matches Ok((n, _)) ==> n == encoded_len(bytes[0]) && n <= bytes.len(),
        u128::decoded(bytes) matches Ok((n, _)) ==> n == encoded_len(bytes[0]) && n <= bytes.len(),
        usize::decoded(bytes) matches Ok((n, _)) ==> n == encoded_len(bytes[0]) && n <= bytes.len(),
        i8::decoded(bytes) matches Ok((n, _)) ==> n == encoded_len(bytes[0]) && n <= bytes.len(),
        i16::decoded(bytes) matches Ok((n, _)) ==> n == encoded_len(bytes[0]) && n <= bytes.len(),
        i32::decoded(bytes) matches Ok((n, _)) ==> n == encoded_len(bytes[0]) && n <= bytes.len(),
        i64::decoded(bytes) matches Ok((n, _)) ==> n == encoded_len(bytes[0]) && n <= bytes.len(),
        i128::decoded(bytes) matches Ok((n, _)) ==> n == encoded_len(bytes[0]) && n <= bytes.len(),
        isize::decoded(bytes) matches Ok((n, _)) ==> n == encoded_len(bytes[0]) && n <= bytes.len(),
{
    lemma_unsigned_decoded(bytes, 1);
    lemma_unsigned_decoded(bytes, 2);
    lemma_unsigned_decoded(bytes, 4);
    lemma_unsigned_decoded(bytes, 8);
    lemma_unsigned_decoded(bytes, 16);
    lemma_signed_decoded(bytes, 1);
    lemma_signed_decoded(bytes, 2);
    lemma_signed_decoded(bytes, 4);
    lemma_signed_decoded(bytes, 8);
    lemma_signed_decoded(bytes, 16);
}

/// What an unsigned decoder returns is the number on the wire and the count of its bytes:
/// no target is too narrow for what it accepts.
pub proof fn lemma_unsigned_value_kept(bytes: Seq<u8>)
    ensures
        u8::decoded(bytes) matches Ok((n, v)) ==> decode_unsigned(bytes, 1) == Ok::<
            (nat, nat),
            Error,
        >((n as nat, v as nat)),
        u16::decoded(bytes) matches Ok((n, v)) ==> decode_unsigned(bytes, 2) == Ok::<
            (nat, nat),
            Error,
        >((n as nat, v as nat)),
        u32::decoded(bytes) matches Ok((n, v)) ==> decode_unsigned(bytes, 4) == Ok::<
            (nat, nat),
            Error,
        >((n as nat, v as nat)),
        u64::decoded(bytes) matches Ok((n, v)) ==> decode_unsigned(bytes, 8) == Ok::<
            (nat, nat),
            Error,
        >((n as nat, v as nat)),
        u128::decoded(bytes) matches Ok((n, v)) ==> decode_unsigned(bytes, 16) == Ok::<
            (nat, nat),
            Error,
        >((n as nat, v as nat)),
{
    lemma_radix_values();
    lemma_unsigned_decoded(bytes, 1);
    lemma_unsigned_decoded(bytes, 2);
    lemma_unsigned_decoded(bytes, 4);
    lemma_unsigned_decoded(bytes, 8);
    lemma_unsigned_decoded(bytes, 16);
}

/// What a signed decoder returns is the number on the wire, sign and all, and the count of
/// its bytes: no target is too narrow for what it accepts.
pub proof fn lemma_signed_value_kept(bytes: Seq<u8>)
    ensures
        i8::decoded(bytes) matches Ok((n, v)) ==> decode_signed(bytes, 1) == Ok::<
            (nat, int),
            Error,
        >((n as nat, v as int)),
        i16::decoded(bytes) matches Ok((n, v)) ==> decode_signed(bytes, 2) == Ok::<
            (nat, int),
            Error,
        >((n as nat, v as int)),
        i32::decoded(bytes) matches Ok((n, v)) ==> decode_signed(bytes, 4) == Ok::<
            (nat, int),
            Error,
        >((n as nat, v as int)),
        i64::decoded(bytes) matches Ok((n, v)) ==> decode_signed(bytes, 8) == Ok::<
            (nat, int),
            Error,
        >((n as nat, v as int)),
        i128::decoded(bytes) matches Ok((n, v)) ==> decode_signed(bytes, 16) == Ok::<
            (nat, int),
            Error,
        >((n as nat, v as int)),
{
    lemma_radix_values();
    lemma_signed_decoded(bytes, 1);
    lemma_signed_decoded(bytes, 2);
    lemma_signed_decoded(bytes, 4);
    lemma_signed_decoded(bytes, 8);
    lemma_signed_decoded(bytes, 16);
}

/// The pointer-sized types decode as the 64-bit types do: the same count of bytes, the same
/// errors, and the same value cast to the pointer's size, which changes nothing where
/// pointers are 64 bits wide.
pub proof fn lemma_pointer_sized(bytes: Seq<u8>)
    ensures
        match (usize::decoded(bytes), u64::decoded(bytes)) {
            (Ok((n, v)), Ok((m, w))) => {
                &&& n == m
                &&& v == w as usize
                &&& usize::BITS == 64 ==> v == w
            },
            (Err(e), Err(f)) => e == f,
            _ => false,
        },
        match (isize::decoded(bytes), i64::decoded(bytes)) {
            (Ok((n, v)), Ok((m, w))) => {
                &&& n == m
                &&& v == w as isize
                &&& isize::BITS == 64 ==> v == w
            },
            (Err(e), Err(f)) => e == f,
            _ => false,
        },
{
    lemma_radix_values();
    lemma_unsigned_decoded(bytes, 8);
    lemma_signed_decoded(bytes, 8);
}

/// A decode looks at the bytes of its own value only: what `front` decodes to, it decodes
/// to with anything behind it. So a caller that skips the bytes read stands at the next
/// value.
pub proof fn lemma_decode_front(front: Seq<u8>, back: Seq<u8>, width: nat)
    ensures
        decode_unsigned(front, width) is Ok ==> decode_unsigned(front + back, width)
            == decode_unsigned(front, width),
        decode_signed(front, width) is Ok ==> decode_signed(front + back, width) == decode_signed(
            front,
            width,
        ),
{
    if front.len() > 0 {
        let whole = front + back;
        let tag = front[0];
        let rest = front.skip(1);
        assert(whole[0] == tag);
        assert(whole.skip(1) =~= rest + back);
        if decode_unsigned(front, width) is Ok || decode_signed(front, width) is Ok {
            if unsigned_width(tag) is Some {
                let w = unsigned_width(tag)->0;
                assert((rest + back).take(w as int) =~= rest.take(w as int));
            } else if signed_width(tag) is Some {
                let w = signed_width(tag)->0;
                assert((rest + back).take(w as int) =~= rest.take(w as int));
            } else if tag == BIN8 {
                assert((rest + back)[0] == rest[0]);
                assert((rest + back).skip(1).take(16) =~= rest.skip(1).take(16));
            }
        }
    }
}

/// An encoded value that is cut short is reported as too short, wherever the cut falls.
pub proof fn lemma_cut_short(whole: Seq<u8>, kept: int, width: nat)
    requires
        0 <= kept,
    ensures
        decode_unsigned(whole, width) matches Ok((n, _)) && kept < n ==> decode_unsigned(
            whole.take(kept),
            width,
        ) == Err::<(nat, nat), Error>(Error::BufferTooShort),
        decode_signed(whole, width) matches Ok((n, _)) && kept < n ==> decode_signed(
            whole.take(kept),
            width,
        ) == Err::<(nat, int), Error>(Error::BufferTooShort),
{
    if 0 < kept < whole.len() {
        let cut = whole.take(kept);
        assert(cut[0] == whole[0]);
        assert(cut.skip(1).len() == kept - 1);
        if whole[0] == BIN8 && kept > 1 {
            assert(cut.skip(1)[0] == whole.skip(1)[0]);
            assert(cut.skip(1).skip(1).len() == kept - 2);
        }
    }
}

/// The decode found the input too short.
pub open spec fn too_short<T>(r: Result<(usize, T), Error>) -> bool {
    r matches Err(Error::BufferTooShort)
}

/// Every decoder looks at the bytes of its own value only: what the front of an input
/// decodes to does not depend on what follows. So a caller that skips the bytes read stands
/// at the next value.
pub proof fn lemma_front_decides(front: Seq<u8>, back: Seq<u8>)
    ensures
        u8::decoded(front) is Ok ==> u8::decoded(front + back) == u8::decoded(front),
        u16::decoded(front) is Ok ==> u16::decoded(front + back) == u16::decoded(front),
        u32::decoded(front) is Ok ==> u32::decoded(front + back) == u32::decoded(front),
        u64::decoded(front) is Ok ==> u64::decoded(front + back) == u64::decoded(front),
        u128::decoded(front) is Ok ==> u128::decoded(front + back) == u128::decoded(front),
        usize::decoded(front) is Ok ==> usize::decoded(front + back) == usize::decoded(front),
        i8::decoded(front) is Ok ==> i8::decoded(front + back) == i8::decoded(front),
        i16::decoded(front) is Ok ==> i16::decoded(front + back) == i16::decoded(front),
        i32::decoded(front) is Ok ==> i32::decoded(front + back) == i32::decoded(front),
        i64::decoded(front) is Ok ==> i64::decoded(front + back) == i64::decoded(front),
        i128::decoded(front) is Ok ==> i128::decoded(front + back) == i128::decoded(front),
        isize::decoded(front) is Ok ==> isize::decoded(front + back) == isize::decoded(front),
{
    lemma_decode_front(front, back, 1);
    lemma_decode_front(front, back, 2);
    lemma_decode_front(front, back, 4);
    lemma_decode_front(front, back, 8);
    lemma_decode_front(front, back, 16);
}

/// Every decoder reports an encoded value that is cut short as too short, wherever the cut
/// falls.
pub proof fn lemma_truncated(whole: Seq<u8>, kept: int)
    requires
        0 <= kept,
    ensures
        u8::decoded(whole) matches Ok((n, _)) && kept < n ==> too_short(u8::decoded(
            whole.take(kept),
        )),
        u16::decoded(whole) matches Ok((n, _)) && kept < n ==> too_short(u16::decoded(
            whole.take(kept),
        )),
        u32::decoded(whole) matches Ok((n, _)) && kept < n ==> too_short(u32::decoded(
            whole.take(kept),
        )),
        u64::decoded(whole) matches Ok((n, _)) && kept < n ==> too_short(u64::decoded(
            whole.take(kept),
        )),
        u128::decoded(whole) matches Ok((n, _)) && kept < n ==> too_short(u128::decoded(
            whole.take(kept),
        )),
        usize::decoded(whole) matches Ok((n, _)) && kept < n ==> too_short(usize::decoded(
            whole.take(kept),
        )),
        i8::decoded(whole) matches Ok((n, _)) && kept < n ==> too_short(i8::decoded(
            whole.take(kept),
        )),
        i16::decoded(whole) matches Ok((n, _)) && kept < n ==> too_short(i16::decoded(
            whole.take(kept),
        )),
        i32::decoded(whole) matches Ok((n, _)) && kept < n ==> too_short(i32::decoded(
            whole.take(kept),
        )),
        i64::decoded(whole) matches Ok((n, _)) && kept < n ==> too_short(i64::decoded(
            whole.take(kept),
        )),
        i128::decoded(whole) matches Ok((n, _)) && kept < n ==> too_short(i128::decoded(
            whole.take(kept),
        )),
        isize::decoded(whole) matches Ok((n, _)) && kept < n ==> too_short(isize::decoded(
            whole.take(kept),
        )),
{
    lemma_cut_short(whole, kept, 1);
    lemma_cut_short(whole, kept, 2);
    lemma_cut_short(whole, kept, 4);
    lemma_cut_short(whole, kept, 8);
    lemma_cut_short(whole, kept, 16);
}

/// The bytes that carry `v` as a 128-bit integer. A negative `v` travels as `v + 2^128`.
pub open spec fn wide_encoding_of(v: int) -> Seq<u8> {
    wide_encoding(
        if v >= 0 {
            v as nat
        } else {
            (v + radix(16)) as nat
        },
    )
}

/// Every 128-bit pattern comes back from its eighteen bytes: as itself for an unsigned
/// target, in two's complement for a signed one.
pub proof fn lemma_wide_read_back(raw: nat)
    requires
        raw < radix(16),
    ensures
        wide_encoding(raw).len() == 18,
        decode_unsigned(wide_encoding(raw), 16) == Ok::<(nat, nat), Error>((18, raw)),
        decode_signed(wide_encoding(raw), 16) == Ok::<(nat, int), Error>(
            (18, twos_complement(raw, 16)),
        ),
{
    lemma_be_bytes_read_back(raw, 16);
    let bytes = wide_encoding(raw);
    let rest = bytes.skip(1);
    assert(bytes[0] == BIN8);
    assert(rest[0] == WIDE_LEN);
    assert(rest.skip(1).take(16) =~= be_bytes(raw, 16));
}

/// Every `u128` and every `i128` comes back from its encoding, with eighteen bytes read.
pub proof fn lemma_wide_round_trip(unsigned: u128, signed: i128)
    ensures
        u128::decoded(wide_encoding_of(unsigned as int)) == Ok::<(usize, u128), Error>(
            (18, unsigned),
        ),
        i128::decoded(wide_encoding_of(signed as int)) == Ok::<(usize, i128), Error>((18, signed)),
{
    lemma_radix_values();
    lemma_wide_read_back(unsigned as nat);
    if signed >= 0 {
        lemma_wide_read_back(signed as nat);
    } else {
        lemma_wide_read_back((signed + radix(16)) as nat);
    }
}

/// Behind the binary tag a length byte other than 16 ends the decode of a 128-bit integer
/// with [`Error::UnexpectedBinLength`], whatever follows.
pub proof fn lemma_wide_length_strict(bytes: Seq<u8>)
    requires
        bytes.len() >= 2,
        bytes[0] == BIN8,
        bytes[1] != WIDE_LEN,
    ensures
        u128::decoded(bytes) matches Err(Error::UnexpectedBinLength),
        i128::decoded(bytes) matches Err(Error::UnexpectedBinLength),
{
}

} // verus!
