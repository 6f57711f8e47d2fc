//! Decoding of integers from a MessagePack-style byte encoding.
//!
//! Every fixed-width and pointer-sized integer type, and the optional non-zero form of each,
//! is decoded by [`Unpackable::unpack`] from a byte buffer and by [`Unpackable::unpack_iter`]
//! from a stream of bytes. A decoder accepts the tags that its own type can hold and no
//! other, whatever the value is; integers of 128 bits travel behind the binary tag.
//!
//! - [`format`] names the tags, and [`wire`] says what a byte sequence means.
//! - [`helpers`] reads bytes off the two kinds of source, and [`endian`] makes numbers of
//!   them.
//! - [`unsigned`], [`signed`] and [`nonzero`] hold the decoders, one pair for each type.
//! - [`laws`] states what holds of the decoders on every input.

pub mod endian;
pub mod error;
pub mod format;
pub mod helpers;
pub mod laws;
pub mod nonzero;
pub mod signed;
pub mod unpack;
pub mod unsigned;
pub mod wire;

pub use crate::error::Error;
pub use crate::nonzero::{
    NonZero, NonZeroI128, NonZeroI16, NonZeroI32, NonZeroI64, NonZeroI8, NonZeroIsize,
    NonZeroU128, NonZeroU16, NonZeroU32, NonZeroU64, NonZeroU8, NonZeroUsize, Zeroable,
};
pub use crate::unpack::Unpackable;
