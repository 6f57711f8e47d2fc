//! Format tags: the first byte of an encoded value, read by the range it falls in.

use vstd::prelude::*;

verus! {

/// The largest positive fixint; the tags `0x00..=0x7f` are their own value.
pub const POSITIVE_FIXINT: u8 = 0x7f;

/// The smallest negative fixint; the tags `0xe0..=0xff` are their own value, read as `i8`.
pub const NEGATIVE_FIXINT: u8 = 0xe0;

/// Binary blob with a one-byte length, the carrier of 128-bit integers.
pub const BIN8: u8 = 0xc4;

/// One unsigned payload byte.
pub const UINT8: u8 = 0xcc;

/// Two unsigned payload bytes.
pub const UINT16: u8 = 0xcd;

/// Four unsigned payload bytes.
pub const UINT32: u8 = 0xce;

/// Eight unsigned payload bytes.
pub const UINT64: u8 = 0xcf;

/// One payload byte in two's complement.
pub const INT8: u8 = 0xd0;

/// Two payload bytes in two's complement.
pub const INT16: u8 = 0xd1;

/// Four payload bytes in two's complement.
pub const INT32: u8 = 0xd2;

/// Eight payload bytes in two's complement.
pub const INT64: u8 = 0xd3;

/// The length byte that must follow [`BIN8`] where it carries a 128-bit integer.
pub const WIDE_LEN: u8 = 16;

/// The tag holds a non-negative value and no payload follows.
pub open spec fn is_positive_fixint(tag: u8) -> bool {
    tag <= POSITIVE_FIXINT
}

/// The tag holds a negative value and no payload follows.
pub open spec fn is_negative_fixint(tag: u8) -> bool {
    tag >= NEGATIVE_FIXINT
}

/// The payload width in bytes that an explicit unsigned tag announces.
pub open spec fn unsigned_width(tag: u8) -> Option<nat> {
    if tag == UINT8 {
        Some(1)
    } else if tag == UINT16 {
        Some(2)
    } else if tag == UINT32 {
        Some(4)
    } else if tag == UINT64 {
        Some(8)
    } else {
        None
    }
}

/// The payload width in bytes that an explicit signed tag announces.
pub open spec fn signed_width(tag: u8) -> Option<nat> {
    if tag == INT8 {
        Some(1)
    } else if tag == INT16 {
        Some(2)
    } else if tag == INT32 {
        Some(4)
    } else if tag == INT64 {
        Some(8)
    } else {
        None
    }
}

} // verus!
