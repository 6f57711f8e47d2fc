//! Integers that are never zero, and their decoding.
//!
//! On the wire an optional non-zero integer looks like the plain integer of its width: zero
//! stands for "absent", every other value for itself. No tag and no error is added.

use crate::unpack::Unpackable;
use vstd::prelude::*;

verus! {

/// An integer type whose zero can be told from its other values.
pub trait Zeroable: Copy {
    /// `self` is the zero of its type.
    spec fn spec_is_zero(&self) -> bool;

    /// Whether `self` is the zero of its type.
    fn is_zero(&self) -> (r: bool)
        ensures
            r == self.spec_is_zero(),
    ;
}

impl Zeroable for u8 {
    open spec fn spec_is_zero(&self) -> bool {
        *self == 0
    }

    fn is_zero(&self) -> bool {
        *self == 0
    }
}

impl Zeroable for u16 {
    open spec fn spec_is_zero(&self) -> bool {
        *self == 0
    }

    fn is_zero(&self) -> bool {
        *self == 0
    }
}

impl Zeroable for u32 {
    open spec fn spec_is_zero(&self) -> bool {
        *self == 0
    }

    fn is_zero(&self) -> bool {
        *self == 0
    }
}

impl Zeroable for u64 {
    open spec fn spec_is_zero(&self) -> bool {
        *self == 0
    }

    fn is_zero(&self) -> bool {
        *self == 0
    }
}

impl Zeroable for u128 {
    open spec fn spec_is_zero(&self) -> bool {
        *self == 0
    }

    fn is_zero(&self) -> bool {
        *self == 0
    }
}

impl Zeroable for usize {
    open spec fn spec_is_zero(&self) -> bool {
        *self == 0
    }

    fn is_zero(&self) -> bool {
        *self == 0
    }
}

impl Zeroable for i8 {
    open spec fn spec_is_zero(&self) -> bool {
        *self == 0
    }

    fn is_zero(&self) -> bool {
        *self == 0
    }
}

impl Zeroable for i16 {
    open spec fn spec_is_zero(&self) -> bool {
        *self == 0
    }

    fn is_zero(&self) -> bool {
        *self == 0
    }
}

impl Zeroable for i32 {
    open spec fn spec_is_zero(&self) -> bool {
        *self == 0
    }

    fn is_zero(&self) -> bool {
        *self == 0
    }
}

impl Zeroable for i64 {
    open spec fn spec_is_zero(&self) -> bool {
        *self == 0
    }

    fn is_zero(&self) -> bool {
        *self == 0
    }
}

impl Zeroable for i128 {
    open spec fn spec_is_zero(&self) -> bool {
        *self == 0
    }

    fn is_zero(&self) -> bool {
        *self == 0
    }
}

impl Zeroable for isize {
    open spec fn spec_is_zero(&self) -> bool {
        *self == 0
    }

    fn is_zero(&self) -> bool {
        *self == 0
    }
}

/// An integer that is known not to be zero.
#[derive(Debug, Copy, PartialEq, Eq)]
pub struct NonZero<T: Zeroable> {
    value: T,
}

impl<T: Zeroable> Clone for NonZero<T> {
    fn clone(&self) -> (r: Self)
        ensures
            r == *self,
    {
        *self
    }
}

impl<T: Zeroable> View for NonZero<T> {
    type V = T;

    /// The integer held.
    closed spec fn view(&self) -> T {
        self.value
    }
}

impl<T: Zeroable> NonZero<T> {
    #[verifier::type_invariant]
    spec fn held_is_not_zero(self) -> bool {
        !self.value.spec_is_zero()
    }

    /// What [`NonZero::new`] makes of `value`: nothing of zero, and of any other value the
    /// non-zero integer that holds it.
    pub closed spec fn checked(value: T) -> Option<Self> {
        if value.spec_is_zero() {
            None
        } else {
            Some(NonZero { value })
        }
    }

    /// Zero alone is turned away, and what is let in is kept as it is.
    pub proof fn lemma_checked(value: T)
        ensures
            value.spec_is_zero() <==> Self::checked(value) is None,
            Self::checked(value) matches Some(n) ==> n@ == value,
    {
    }

    /// `value` as a non-zero integer, or `None` if it is zero.
    pub fn new(value: T) -> (r: Option<Self>)
        ensures
            r == Self::checked(value),
            value.spec_is_zero() <==> r is None,
            r matches Some(n) ==> n@ == value,
    {
        if value.is_zero() {
            None
        } else {
            Some(NonZero { value })
        }
    }

    /// The integer held, which is not zero.
    pub fn get(self) -> (value: T)
        ensures
            value == self@,
            !value.spec_is_zero(),
    {
        proof {
            use_type_invariant(&self);
        }
        self.value
    }
}

/// A `u8` that is not zero.
pub type NonZeroU8 = NonZero<u8>;

/// A `u16` that is not zero.
pub type NonZeroU16 = NonZero<u16>;

/// A `u32` that is not zero.
pub type NonZeroU32 = NonZero<u32>;

/// A `u64` that is not zero.
pub type NonZeroU64 = NonZero<u64>;

/// A `u128` that is not zero.
pub type NonZeroU128 = NonZero<u128>;

/// A `usize` that is not zero.
pub type NonZeroUsize = NonZero<usize>;

/// An `i8` that is not zero.
pub type NonZeroI8 = NonZero<i8>;

/// An `i16` that is not zero.
pub type NonZeroI16 = NonZero<i16>;

/// An `i32` that is not zero.
pub type NonZeroI32 = NonZero<i32>;

/// An `i64` that is not zero.
pub type NonZeroI64 = NonZero<i64>;

/// An `i128` that is not zero.
pub type NonZeroI128 = NonZero<i128>;

/// An `isize` that is not zero.
pub type NonZeroIsize = NonZero<isize>;

/// An optional non-zero integer decodes as the integer does, with zero read as `None`. The
/// count of bytes and the errors are those of the integer.
impl<T: Unpackable + Zeroable> Unpackable for Option<NonZero<T>> {
    type Error = T::Error;

    open spec fn decoded(bytes: Seq<u8>) -> Result<(usize, Self), T::Error> {
        match T::decoded(bytes) {
            Ok((n, v)) => Ok((n, NonZero::checked(v))),
            Err(e) => Err(e),
        }
    }

    fn unpack(buf: &[u8]) -> Result<(usize, Self), T::Error> {
        match T::unpack(buf) {
            Ok((n, v)) => Ok((n, NonZero::new(v))),
            Err(e) => Err(e),
        }
    }

    fn unpack_iter<I: Iterator<Item = u8>>(bytes: &mut I) -> Result<(usize, Self), T::Error> {
        match T::unpack_iter(bytes) {
            Ok((n, v)) => Ok((n, NonZero::new(v))),
            Err(e) => Err(e),
        }
    }
}

/// Zero on the wire is absence and nothing else is: where the integer decodes to `v`, the
/// optional non-zero integer decodes to `None` if `v` is zero and else to the non-zero
/// integer holding `v`, with the same count of bytes; where the integer fails, so does the
/// optional one, with the same error. No input gives a present zero.
pub proof fn lemma_zero_is_absent<T: Unpackable + Zeroable>(bytes: Seq<u8>)
    ensures
        match (T::decoded(bytes), <Option<NonZero<T>> as Unpackable>::decoded(bytes)) {
            (Ok((n, v)), Ok((m, present))) => {
                &&& m == n
                &&& present is None <==> v.spec_is_zero()
                &&& present matches Some(held) ==> held@ == v && !held@.spec_is_zero()
            },
            (Err(e), Err(f)) => f == e,
            _ => false,
        },
{
    if let Ok((_, v)) = T::decoded(bytes) {
        NonZero::lemma_checked(v);
    }
}

} // verus!
