//! The decoding interface: one value off the front of a buffer, or off a stream.

use vstd::prelude::*;
use vstd::std_specs::iter::IteratorSpec;

verus! {

/// A type whose values can be decoded from bytes.
///
/// Both forms are held to the one function [`Unpackable::decoded`], so that they agree on
/// every input: in the value, in the count of bytes read, and in the kind of error.
pub trait Unpackable: Sized {
    /// The error that a failed decode reports.
    type Error;

    /// What `bytes` decode to: the number of bytes that the value takes at the front of
    /// `bytes`, tag included, and the value.
    spec fn decoded(bytes: Seq<u8>) -> Result<(usize, Self), Self::Error>;

    /// Decodes the value at the front of `buf`. The caller goes on behind the bytes read,
    /// of which there is at least one and which all lie in `buf`.
    fn unpack(buf: &[u8]) -> (r: Result<(usize, Self), Self::Error>)
        ensures
            r == Self::decoded(buf@),
            r matches Ok((n, _)) ==> 1 <= n <= buf@.len(),
    ;

    /// Decodes the next value of the stream `bytes`, pulling the bytes of that value and no
    /// byte beyond them.
    ///
    /// The result is stated for a stream that yields a fixed sequence of bytes and then
    /// ends. After an error the position of the stream is left open.
    fn unpack_iter<I: Iterator<Item = u8>>(bytes: &mut I) -> (r: Result<
        (usize, Self),
        Self::Error,
    >)
        ensures
            (*final(bytes)).obeys_prophetic_iter_laws() == (*old(
                bytes,
            )).obeys_prophetic_iter_laws(),
            (*old(bytes)).obeys_prophetic_iter_laws() ==> {
                let before = (*old(bytes)).remaining();
                let after = (*final(bytes)).remaining();
                &&& r == Self::decoded(before)
                &&& r matches Ok((n, _)) ==> {
                    &&& 1 <= n <= before.len()
                    &&& after == before.skip(n as int)
                }
            },
    ;
}

/// The two forms agree. Let `from_buffer` be a result that [`Unpackable::unpack`] can return
/// for `buf`, and `from_stream` one that [`Unpackable::unpack_iter`] can return for a stream
/// that yields the bytes of `buf`: then the two are the same, be it the value with the count
/// of bytes read or the error.
pub proof fn lemma_forms_agree<T: Unpackable, I: Iterator<Item = u8>>(
    buf: &[u8],
    stream: &mut I,
    from_buffer: Result<(usize, T), T::Error>,
    from_stream: Result<(usize, T), T::Error>,
)
    requires
        (*stream).obeys_prophetic_iter_laws(),
        (*stream).remaining() == buf@,
        call_ensures(T::unpack, (buf,), from_buffer),
        call_ensures(T::unpack_iter::<I>, (stream,), from_stream),
    ensures
        from_buffer == from_stream,
{
}

} // verus!
