//! Decoders of the unsigned integer types.
//!
//! An unsigned target takes the positive fixints and the explicit unsigned tags up to its
//! own width, and refuses every other tag: the negative fixints, the signed tags, and an
//! unsigned tag wider than itself, whatever the payload holds. A narrower payload is widened
//! with zeros.

use crate::endian::{u128_from_be_bytes, u16_from_be_bytes, u32_from_be_bytes, u64_from_be_bytes};
use crate::error::Error;
use crate::format::{BIN8, POSITIVE_FIXINT, UINT16, UINT32, UINT64, UINT8, WIDE_LEN};
use crate::helpers::{take_byte, take_byte_iter, take_num, take_num_iter};
use crate::unpack::Unpackable;
use crate::wire::{decode_unsigned, lemma_be_value_byte};
use vstd::prelude::*;
use vstd::std_specs::iter::IteratorSpec;

verus! {

/// `u8` takes the positive fixints and one unsigned payload byte.
impl Unpackable for u8 {
    type Error = Error;

    open spec fn decoded(bytes: Seq<u8>) -> Result<(usize, Self), Error> {
        match decode_unsigned(bytes, 1) {
            Ok((n, v)) => Ok((n as usize, v as u8)),
            Err(e) => Err(e),
        }
    }

    fn unpack(buf: &[u8]) -> Result<(usize, Self), Error> {
        let mut buf = buf;
        let format = take_byte(&mut buf)?;
        match format {
            0x00..=POSITIVE_FIXINT => Ok((1, format)),
            UINT8 => {
                proof {
                    lemma_be_value_byte(buf@);
                }
                let v = take_byte(&mut buf)?;
                Ok((2, v))
            },
            _ => Err(Error::UnexpectedFormatTag),
        }
    }

    fn unpack_iter<I: Iterator<Item = u8>>(bytes: &mut I) -> Result<(usize, Self), Error> {
        let format = take_byte_iter(bytes)?;
        match format {
            0x00..=POSITIVE_FIXINT => Ok((1, format)),
            UINT8 => {
                proof {
                    lemma_be_value_byte((*bytes).remaining());
                }
                let v = take_byte_iter(bytes)?;
                Ok((2, v))
            },
            _ => Err(Error::UnexpectedFormatTag),
        }
    }
}

/// `u16` takes the positive fixints and unsigned payloads of one or two bytes.
impl Unpackable for u16 {
    type Error = Error;

    open spec fn decoded(bytes: Seq<u8>) -> Result<(usize, Self), Error> {
        match decode_unsigned(bytes, 2) {
            Ok((n, v)) => Ok((n as usize, v as u16)),
            Err(e) => Err(e),
        }
    }

    fn unpack(buf: &[u8]) -> Result<(usize, Self), Error> {
        let mut buf = buf;
        let format = take_byte(&mut buf)?;
        match format {
            0x00..=POSITIVE_FIXINT => Ok((1, format as u16)),
            UINT8 => {
                proof {
                    lemma_be_value_byte(buf@);
                }
                let v = take_byte(&mut buf)?;
                Ok((2, v as u16))
            },
            UINT16 => {
                let v = take_num(&mut buf, u16_from_be_bytes)?;
                Ok((3, v))
            },
            _ => Err(Error::UnexpectedFormatTag),
        }
    }

    fn unpack_iter<I: Iterator<Item = u8>>(bytes: &mut I) -> Result<(usize, Self), Error> {
        let format = take_byte_iter(bytes)?;
        match format {
            0x00..=POSITIVE_FIXINT => Ok((1, format as u16)),
            UINT8 => {
                proof {
                    lemma_be_value_byte((*bytes).remaining());
                }
                let v = take_byte_iter(bytes)?;
                Ok((2, v as u16))
            },
            UINT16 => {
                let v = take_num_iter(bytes, u16_from_be_bytes)?;
                Ok((3, v))
            },
            _ => Err(Error::UnexpectedFormatTag),
        }
    }
}

/// `u32` takes the positive fixints and unsigned payloads of up to four bytes.
impl Unpackable for u32 {
    type Error = Error;

    open spec fn decoded(bytes: Seq<u8>) -> Result<(usize, Self), Error> {
        match decode_unsigned(bytes, 4) {
            Ok((n, v)) => Ok((n as usize, v as u32)),
            Err(e) => Err(e),
        }
    }

    fn unpack(buf: &[u8]) -> Result<(usize, Self), Error> {
        let mut buf = buf;
        let format = take_byte(&mut buf)?;
        match format {
            0x00..=POSITIVE_FIXINT => Ok((1, format as u32)),
            UINT8 => {
                proof {
                    lemma_be_value_byte(buf@);
                }
                let v = take_byte(&mut buf)?;
                Ok((2, v as u32))
            },
            UINT16 => {
                let v = take_num(&mut buf, u16_from_be_bytes)?;
                Ok((3, v as u32))
            },
            UINT32 => {
                let v = take_num(&mut buf, u32_from_be_bytes)?;
                Ok((5, v))
            },
            _ => Err(Error::UnexpectedFormatTag),
        }
    }

    fn unpack_iter<I: Iterator<Item = u8>>(bytes: &mut I) -> Result<(usize, Self), Error> {
        let format = take_byte_iter(bytes)?;
        match format {
            0x00..=POSITIVE_FIXINT => Ok((1, format as u32)),
            UINT8 => {
                proof {
                    lemma_be_value_byte((*bytes).remaining());
                }
                let v = take_byte_iter(bytes)?;
                Ok((2, v as u32))
            },
            UINT16 => {
                let v = take_num_iter(bytes, u16_from_be_bytes)?;
                Ok((3, v as u32))
            },
            UINT32 => {
                let v = take_num_iter(bytes, u32_from_be_bytes)?;
                Ok((5, v))
            },
            _ => Err(Error::UnexpectedFormatTag),
        }
    }
}

/// `u64` takes the positive fixints and unsigned payloads of up to eight bytes.
impl Unpackable for u64 {
    type Error = Error;

    open spec fn decoded(bytes: Seq<u8>) -> Result<(usize, Self), Error> {
        match decode_unsigned(bytes, 8) {
            Ok((n, v)) => Ok((n as usize, v as u64)),
            Err(e) => Err(e),
        }
    }

    fn unpack(buf: &[u8]) -> Result<(usize, Self), Error> {
        let mut buf = buf;
        let format = take_byte(&mut buf)?;
        match format {
            0x00..=POSITIVE_FIXINT => Ok((1, format as u64)),
            UINT8 => {
                proof {
                    lemma_be_value_byte(buf@);
                }
                let v = take_byte(&mut buf)?;
                Ok((2, v as u64))
            },
            UINT16 => {
                let v = take_num(&mut buf, u16_from_be_bytes)?;
                Ok((3, v as u64))
            },
            UINT32 => {
                let v = take_num(&mut buf, u32_from_be_bytes)?;
                Ok((5, v as u64))
            },
            UINT64 => {
                let v = take_num(&mut buf, u64_from_be_bytes)?;
                Ok((9, v))
            },
            _ => Err(Error::UnexpectedFormatTag),
        }
    }

    fn unpack_iter<I: Iterator<Item = u8>>(bytes: &mut I) -> Result<(usize, Self), Error> {
        let format = take_byte_iter(bytes)?;
        match format {
            0x00..=POSITIVE_FIXINT => Ok((1, format as u64)),
            UINT8 => {
                proof {
                    lemma_be_value_byte((*bytes).remaining());
                }
                let v = take_byte_iter(bytes)?;
                Ok((2, v as u64))
            },
            UINT16 => {
                let v = take_num_iter(bytes, u16_from_be_bytes)?;
                Ok((3, v as u64))
            },
            UINT32 => {
                let v = take_num_iter(bytes, u32_from_be_bytes)?;
                Ok((5, v as u64))
            },
            UINT64 => {
                let v = take_num_iter(bytes, u64_from_be_bytes)?;
                Ok((9, v))
            },
            _ => Err(Error::UnexpectedFormatTag),
        }
    }
}

/// `u128` takes the positive fixints, unsigned payloads of up to eight bytes, and the
/// binary tag with a length byte of 16 and sixteen payload bytes.
impl Unpackable for u128 {
    type Error = Error;

    open spec fn decoded(bytes: Seq<u8>) -> Result<(usize, Self), Error> {
        match decode_unsigned(bytes, 16) {
            Ok((n, v)) => Ok((n as usize, v as u128)),
            Err(e) => Err(e),
        }
    }

    fn unpack(buf: &[u8]) -> Result<(usize, Self), Error> {
        let mut buf = buf;
        let format = take_byte(&mut buf)?;
        match format {
            0x00..=POSITIVE_FIXINT => Ok((1, format as u128)),
            UINT8 => {
                proof {
                    lemma_be_value_byte(buf@);
                }
                let v = take_byte(&mut buf)?;
                Ok((2, v as u128))
            },
            UINT16 => {
                let v = take_num(&mut buf, u16_from_be_bytes)?;
                Ok((3, v as u128))
            },
            UINT32 => {
                let v = take_num(&mut buf, u32_from_be_bytes)?;
                Ok((5, v as u128))
            },
            UINT64 => {
                let v = take_num(&mut buf, u64_from_be_bytes)?;
                Ok((9, v as u128))
            },
            BIN8 => {
                if take_byte(&mut buf)? != WIDE_LEN {
                    return Err(Error::UnexpectedBinLength);
                }
                let v = take_num(&mut buf, u128_from_be_bytes)?;
                Ok((18, v))
            },
            _ => Err(Error::UnexpectedFormatTag),
        }
    }

    fn unpack_iter<I: Iterator<Item = u8>>(bytes: &mut I) -> Result<(usize, Self), Error> {
        let format = take_byte_iter(bytes)?;
        match format {
            0x00..=POSITIVE_FIXINT => Ok((1, format as u128)),
            UINT8 => {
                proof {
                    lemma_be_value_byte((*bytes).remaining());
                }
                let v = take_byte_iter(bytes)?;
                Ok((2, v as u128))
            },
            UINT16 => {
                let v = take_num_iter(bytes, u16_from_be_bytes)?;
                Ok((3, v as u128))
            },
            UINT32 => {
                let v = take_num_iter(bytes, u32_from_be_bytes)?;
                Ok((5, v as u128))
            },
            UINT64 => {
                let v = take_num_iter(bytes, u64_from_be_bytes)?;
                Ok((9, v as u128))
            },
            BIN8 => {
                if take_byte_iter(bytes)? != WIDE_LEN {
                    return Err(Error::UnexpectedBinLength);
                }
                let v = take_num_iter(bytes, u128_from_be_bytes)?;
                Ok((18, v))
            },
            _ => Err(Error::UnexpectedFormatTag),
        }
    }
}

/// `usize` takes what `u64` takes. On a host with narrower pointers a value beyond
/// `usize::MAX` keeps its low bits, as the cast does.
impl Unpackable for usize {
    type Error = Error;

    open spec fn decoded(bytes: Seq<u8>) -> Result<(usize, Self), Error> {
        match decode_unsigned(bytes, 8) {
            Ok((n, v)) => Ok((n as usize, v as usize)),
            Err(e) => Err(e),
        }
    }

    fn unpack(buf: &[u8]) -> Result<(usize, Self), Error> {
        let mut buf = buf;
        let format = take_byte(&mut buf)?;
        match format {
            0x00..=POSITIVE_FIXINT => Ok((1, format as usize)),
            UINT8 => {
                proof {
                    lemma_be_value_byte(buf@);
                }
                let v = take_byte(&mut buf)?;
                Ok((2, v as usize))
            },
            UINT16 => {
                let v = take_num(&mut buf, u16_from_be_bytes)?;
                Ok((3, v as usize))
            },
            UINT32 => {
                let v = take_num(&mut buf, u32_from_be_bytes)?;
                Ok((5, v as usize))
            },
            UINT64 => {
                let v = take_num(&mut buf, u64_from_be_bytes)?;
                Ok((9, #[verifier::truncate] (v as usize)))
            },
            _ => Err(Error::UnexpectedFormatTag),
        }
    }

    fn unpack_iter<I: Iterator<Item = u8>>(bytes: &mut I) -> Result<(usize, Self), Error> {
        let format = take_byte_iter(bytes)?;
        match format {
            0x00..=POSITIVE_FIXINT => Ok((1, format as usize)),
            UINT8 => {
                proof {
                    lemma_be_value_byte((*bytes).remaining());
                }
                let v = take_byte_iter(bytes)?;
                Ok((2, v as usize))
            },
            UINT16 => {
                let v = take_num_iter(bytes, u16_from_be_bytes)?;
                Ok((3, v as usize))
            },
            UINT32 => {
                let v = take_num_iter(bytes, u32_from_be_bytes)?;
                Ok((5, v as usize))
            },
            UINT64 => {
                let v = take_num_iter(bytes, u64_from_be_bytes)?;
                Ok((9, #[verifier::truncate] (v as usize)))
            },
            _ => Err(Error::UnexpectedFormatTag),
        }
    }
}

} // verus!
