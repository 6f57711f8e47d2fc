//! Decoders of the signed integer types.
//!
//! A signed target takes both fixint ranges and the explicit signed tags up to its own
//! width, and refuses every other tag: the unsigned tags, and a signed tag wider than itself,
//! whatever the payload holds. A narrower payload is read as two's complement at its own
//! width and keeps its sign when it is widened.

use crate::endian::{
    i128_from_be_bytes, i16_from_be_bytes, i32_from_be_bytes, i64_from_be_bytes, lemma_cast_i8,
};
use crate::error::Error;
use crate::format::{
    BIN8, INT16, INT32, INT64, INT8, NEGATIVE_FIXINT, POSITIVE_FIXINT, WIDE_LEN,
};
use crate::helpers::{take_byte, take_byte_iter, take_num, take_num_iter};
use crate::unpack::Unpackable;
use crate::wire::{decode_signed, lemma_be_value_byte};
use vstd::prelude::*;
use vstd::std_specs::iter::IteratorSpec;

verus! {

/// `i8` takes both fixint ranges and one payload byte in two's complement.
impl Unpackable for i8 {
    type Error = Error;

    open spec fn decoded(bytes: Seq<u8>) -> Result<(usize, Self), Error> {
        match decode_signed(bytes, 1) {
            Ok((n, v)) => Ok((n as usize, v as i8)),
            Err(e) => Err(e),
        }
    }

    fn unpack(buf: &[u8]) -> Result<(usize, Self), Error> {
        let mut buf = buf;
        let format = take_byte(&mut buf)?;
        proof {
            lemma_cast_i8(format);
        }
        match format {
            0x00..=POSITIVE_FIXINT => Ok((1, format as i8)),
            NEGATIVE_FIXINT..=0xff => Ok((1, format as i8)),
            INT8 => {
                proof {
                    lemma_be_value_byte(buf@);
                }
                let v = take_byte(&mut buf)?;
                proof {
                    lemma_cast_i8(v);
                }
                Ok((2, v as i8))
            },
            _ => Err(Error::UnexpectedFormatTag),
        }
    }

    fn unpack_iter<I: Iterator<Item = u8>>(bytes: &mut I) -> Result<(usize, Self), Error> {
        let format = take_byte_iter(bytes)?;
        proof {
            lemma_cast_i8(format);
        }
        match format {
            0x00..=POSITIVE_FIXINT => Ok((1, format as i8)),
            NEGATIVE_FIXINT..=0xff => Ok((1, format as i8)),
            INT8 => {
                proof {
                    lemma_be_value_byte((*bytes).remaining());
                }
                let v = take_byte_iter(bytes)?;
                proof {
                    lemma_cast_i8(v);
                }
                Ok((2, v as i8))
            },
            _ => Err(Error::UnexpectedFormatTag),
        }
    }
}

/// `i16` takes both fixint ranges and signed payloads of one or two bytes.
impl Unpackable for i16 {
    type Error = Error;

    open spec fn decoded(bytes: Seq<u8>) -> Result<(usize, Self), Error> {
        match decode_signed(bytes, 2) {
            Ok((n, v)) => Ok((n as usize, v as i16)),
            Err(e) => Err(e),
        }
    }

    fn unpack(buf: &[u8]) -> Result<(usize, Self), Error> {
        let mut buf = buf;
        let format = take_byte(&mut buf)?;
        proof {
            lemma_cast_i8(format);
        }
        match format {
            0x00..=POSITIVE_FIXINT => Ok((1, (format as i8) as i16)),
            NEGATIVE_FIXINT..=0xff => Ok((1, (format as i8) as i16)),
            INT8 => {
                proof {
                    lemma_be_value_byte(buf@);
                }
                let v = take_byte(&mut buf)?;
                proof {
                    lemma_cast_i8(v);
                }
                Ok((2, (v as i8) as i16))
            },
            INT16 => {
                let v = take_num(&mut buf, i16_from_be_bytes)?;
                Ok((3, v))
            },
            _ => Err(Error::UnexpectedFormatTag),
        }
    }

    fn unpack_iter<I: Iterator<Item = u8>>(bytes: &mut I) -> Result<(usize, Self), Error> {
        let format = take_byte_iter(bytes)?;
        proof {
            lemma_cast_i8(format);
        }
        match format {
            0x00..=POSITIVE_FIXINT => Ok((1, (format as i8) as i16)),
            NEGATIVE_FIXINT..=0xff => Ok((1, (format as i8) as i16)),
            INT8 => {
                proof {
                    lemma_be_value_byte((*bytes).remaining());
                }
                let v = take_byte_iter(bytes)?;
                proof {
                    lemma_cast_i8(v);
                }
                Ok((2, (v as i8) as i16))
            },
            INT16 => {
                let v = take_num_iter(bytes, i16_from_be_bytes)?;
                Ok((3, v))
            },
            _ => Err(Error::UnexpectedFormatTag),
        }
    }
}

/// `i32` takes both fixint ranges and signed payloads of up to four bytes.
impl Unpackable for i32 {
    type Error = Error;

    open spec fn decoded(bytes: Seq<u8>) -> Result<(usize, Self), Error> {
        match decode_signed(bytes, 4) {
            Ok((n, v)) => Ok((n as usize, v as i32)),
            Err(e) => Err(e),
        }
    }

    fn unpack(buf: &[u8]) -> Result<(usize, Self), Error> {
        let mut buf = buf;
        let format = take_byte(&mut buf)?;
        proof {
            lemma_cast_i8(format);
        }
        match format {
            0x00..=POSITIVE_FIXINT => Ok((1, (format as i8) as i32)),
            NEGATIVE_FIXINT..=0xff => Ok((1, (format as i8) as i32)),
            INT8 => {
                proof {
                    lemma_be_value_byte(buf@);
                }
                let v = take_byte(&mut buf)?;
                proof {
                    lemma_cast_i8(v);
                }
                Ok((2, (v as i8) as i32))
            },
            INT16 => {
                let v = take_num(&mut buf, i16_from_be_bytes)?;
                Ok((3, v as i32))
            },
            INT32 => {
                let v = take_num(&mut buf, i32_from_be_bytes)?;
                Ok((5, v))
            },
            _ => Err(Error::UnexpectedFormatTag),
        }
    }

    fn unpack_iter<I: Iterator<Item = u8>>(bytes: &mut I) -> Result<(usize, Self), Error> {
        let format = take_byte_iter(bytes)?;
        proof {
            lemma_cast_i8(format);
        }
        match format {
            0x00..=POSITIVE_FIXINT => Ok((1, (format as i8) as i32)),
            NEGATIVE_FIXINT..=0xff => Ok((1, (format as i8) as i32)),
            INT8 => {
                proof {
                    lemma_be_value_byte((*bytes).remaining());
                }
                let v = take_byte_iter(bytes)?;
                proof {
                    lemma_cast_i8(v);
                }
                Ok((2, (v as i8) as i32))
            },
            INT16 => {
                let v = take_num_iter(bytes, i16_from_be_bytes)?;
                Ok((3, v as i32))
            },
            INT32 => {
                let v = take_num_iter(bytes, i32_from_be_bytes)?;
                Ok((5, v))
            },
            _ => Err(Error::UnexpectedFormatTag),
        }
    }
}

/// `i64` takes both fixint ranges and signed payloads of up to eight bytes.
impl Unpackable for i64 {
    type Error = Error;

    open spec fn decoded(bytes: Seq<u8>) -> Result<(usize, Self), Error> {
        match decode_signed(bytes, 8) {
            Ok((n, v)) => Ok((n as usize, v as i64)),
            Err(e) => Err(e),
        }
    }

    fn unpack(buf: &[u8]) -> Result<(usize, Self), Error> {
        let mut buf = buf;
        let format = take_byte(&mut buf)?;
        proof {
            lemma_cast_i8(format);
        }
        match format {
            0x00..=POSITIVE_FIXINT => Ok((1, (format as i8) as i64)),
            NEGATIVE_FIXINT..=0xff => Ok((1, (format as i8) as i64)),
            INT8 => {
                proof {
                    lemma_be_value_byte(buf@);
                }
                let v = take_byte(&mut buf)?;
                proof {
                    lemma_cast_i8(v);
                }
                Ok((2, (v as i8) as i64))
            },
            INT16 => {
                let v = take_num(&mut buf, i16_from_be_bytes)?;
                Ok((3, v as i64))
            },
            INT32 => {
                let v = take_num(&mut buf, i32_from_be_bytes)?;
                Ok((5, v as i64))
            },
            INT64 => {
                let v = take_num(&mut buf, i64_from_be_bytes)?;
                Ok((9, v))
            },
            _ => Err(Error::UnexpectedFormatTag),
        }
    }

    fn unpack_iter<I: Iterator<Item = u8>>(bytes: &mut I) -> Result<(usize, Self), Error> {
        let format = take_byte_iter(bytes)?;
        proof {
            lemma_cast_i8(format);
        }
        match format {
            0x00..=POSITIVE_FIXINT => Ok((1, (format as i8) as i64)),
            NEGATIVE_FIXINT..=0xff => Ok((1, (format as i8) as i64)),
            INT8 => {
                proof {
                    lemma_be_value_byte((*bytes).remaining());
                }
                let v = take_byte_iter(bytes)?;
                proof {
                    lemma_cast_i8(v);
                }
                Ok((2, (v as i8) as i64))
            },
            INT16 => {
                let v = take_num_iter(bytes, i16_from_be_bytes)?;
                Ok((3, v as i64))
            },
            INT32 => {
                let v = take_num_iter(bytes, i32_from_be_bytes)?;
                Ok((5, v as i64))
            },
            INT64 => {
                let v = take_num_iter(bytes, i64_from_be_bytes)?;
                Ok((9, v))
            },
            _ => Err(Error::UnexpectedFormatTag),
        }
    }
}

/// `i128` takes both fixint ranges, signed payloads of up to eight bytes, and the binary
/// tag with a length byte of 16 and sixteen payload bytes in two's complement.
impl Unpackable for i128 {
    type Error = Error;

    open spec fn decoded(bytes: Seq<u8>) -> Result<(usize, Self), Error> {
        match decode_signed(bytes, 16) {
            Ok((n, v)) => Ok((n as usize, v as i128)),
            Err(e) => Err(e),
        }
    }

    fn unpack(buf: &[u8]) -> Result<(usize, Self), Error> {
        let mut buf = buf;
        let format = take_byte(&mut buf)?;
        proof {
            lemma_cast_i8(format);
        }
        match format {
            0x00..=POSITIVE_FIXINT => Ok((1, (format as i8) as i128)),
            NEGATIVE_FIXINT..=0xff => Ok((1, (format as i8) as i128)),
            INT8 => {
                proof {
                    lemma_be_value_byte(buf@);
                }
                let v = take_byte(&mut buf)?;
                proof {
                    lemma_cast_i8(v);
                }
                Ok((2, (v as i8) as i128))
            },
            INT16 => {
                let v = take_num(&mut buf, i16_from_be_bytes)?;
                Ok((3, v as i128))
            },
            INT32 => {
                let v = take_num(&mut buf, i32_from_be_bytes)?;
                Ok((5, v as i128))
            },
            INT64 => {
                let v = take_num(&mut buf, i64_from_be_bytes)?;
                Ok((9, v as i128))
            },
            BIN8 => {
                if take_byte(&mut buf)? != WIDE_LEN {
                    return Err(Error::UnexpectedBinLength);
                }
                let v = take_num(&mut buf, i128_from_be_bytes)?;
                Ok((18, v))
            },
            _ => Err(Error::UnexpectedFormatTag),
        }
    }

    fn unpack_iter<I: Iterator<Item = u8>>(bytes: &mut I) -> Result<(usize, Self), Error> {
        let format = take_byte_iter(bytes)?;
        proof {
            lemma_cast_i8(format);
        }
        match format {
            0x00..=POSITIVE_FIXINT => Ok((1, (format as i8) as i128)),
            NEGATIVE_FIXINT..=0xff => Ok((1, (format as i8) as i128)),
            INT8 => {
                proof {
                    lemma_be_value_byte((*bytes).remaining());
                }
                let v = take_byte_iter(bytes)?;
                proof {
                    lemma_cast_i8(v);
                }
                Ok((2, (v as i8) as i128))
            },
            INT16 => {
                let v = take_num_iter(bytes, i16_from_be_bytes)?;
                Ok((3, v as i128))
            },
            INT32 => {
                let v = take_num_iter(bytes, i32_from_be_bytes)?;
                Ok((5, v as i128))
            },
            INT64 => {
                let v = take_num_iter(bytes, i64_from_be_bytes)?;
                Ok((9, v as i128))
            },
            BIN8 => {
                if take_byte_iter(bytes)? != WIDE_LEN {
                    return Err(Error::UnexpectedBinLength);
                }
                let v = take_num_iter(bytes, i128_from_be_bytes)?;
                Ok((18, v))
            },
            _ => Err(Error::UnexpectedFormatTag),
        }
    }
}

/// `isize` takes what `i64` takes. On a host with narrower pointers a value outside
/// `isize` keeps its low bits, as the cast does.
impl Unpackable for isize {
    type Error = Error;

    open spec fn decoded(bytes: Seq<u8>) -> Result<(usize, Self), Error> {
        match decode_signed(bytes, 8) {
            Ok((n, v)) => Ok((n as usize, v as isize)),
            Err(e) => Err(e),
        }
    }

    fn unpack(buf: &[u8]) -> Result<(usize, Self), Error> {
        let mut buf = buf;
        let format = take_byte(&mut buf)?;
        proof {
            lemma_cast_i8(format);
        }
        match format {
            0x00..=POSITIVE_FIXINT => Ok((1, (format as i8) as isize)),
            NEGATIVE_FIXINT..=0xff => Ok((1, (format as i8) as isize)),
            INT8 => {
                proof {
                    lemma_be_value_byte(buf@);
                }
                let v = take_byte(&mut buf)?;
                proof {
                    lemma_cast_i8(v);
                }
                Ok((2, (v as i8) as isize))
            },
            INT16 => {
                let v = take_num(&mut buf, i16_from_be_bytes)?;
                Ok((3, v as isize))
            },
            INT32 => {
                let v = take_num(&mut buf, i32_from_be_bytes)?;
                Ok((5, v as isize))
            },
            INT64 => {
                let v = take_num(&mut buf, i64_from_be_bytes)?;
                Ok((9, #[verifier::truncate] (v as isize)))
            },
            _ => Err(Error::UnexpectedFormatTag),
        }
    }

    fn unpack_iter<I: Iterator<Item = u8>>(bytes: &mut I) -> Result<(usize, Self), Error> {
        let format = take_byte_iter(bytes)?;
        proof {
            lemma_cast_i8(format);
        }
        match format {
            0x00..=POSITIVE_FIXINT => Ok((1, (format as i8) as isize)),
            NEGATIVE_FIXINT..=0xff => Ok((1, (format as i8) as isize)),
            INT8 => {
                proof {
                    lemma_be_value_byte((*bytes).remaining());
                }
                let v = take_byte_iter(bytes)?;
                proof {
                    lemma_cast_i8(v);
                }
                Ok((2, (v as i8) as isize))
            },
            INT16 => {
                let v = take_num_iter(bytes, i16_from_be_bytes)?;
                Ok((3, v as isize))
            },
            INT32 => {
                let v = take_num_iter(bytes, i32_from_be_bytes)?;
                Ok((5, v as isize))
            },
            INT64 => {
                let v = take_num_iter(bytes, i64_from_be_bytes)?;
                Ok((9, #[verifier::truncate] (v as isize)))
            },
            _ => Err(Error::UnexpectedFormatTag),
        }
    }
}

} // verus!
