//! The two byte sources: a buffer that is re-sliced as it is read, and a stream that is
//! pulled byte by byte. Each hands out one byte or a fixed number of them, or reports that
//! the input ended early.

use crate::error::Error;
use vstd::prelude::*;
use vstd::std_specs::iter::IteratorSpec;

verus! {

/// `f` may return `v` for the array that holds `bytes`.
pub open spec fn made_of<V, const N: usize, F: Fn([u8; N]) -> V>(
    f: F,
    bytes: Seq<u8>,
    v: V,
) -> bool {
    exists|array: [u8; N]| array@ == bytes && #[trigger] call_ensures(f, (array,), v)
}

/// Takes the first byte off `buf`.
pub fn take_byte(buf: &mut &[u8]) -> (r: Result<u8, Error>)
    ensures
        match r {
            Ok(byte) => {
                &&& old(buf)@.len() > 0
                &&& byte == old(buf)@[0]
                &&& final(buf)@ == old(buf)@.skip(1)
            },
            Err(e) => {
                &&& old(buf)@.len() == 0
                &&& e == Error::BufferTooShort
                &&& final(buf)@ == old(buf)@
            },
        },
{
    if buf.len() == 0 {
        return Err(Error::BufferTooShort);
    }
    let (head, tail) = buf.split_at(1);
    *buf = tail;
    Ok(head[0])
}

/// Pulls the next byte from `bytes`.
///
/// The result is stated for a stream that yields a fixed sequence of bytes and then ends.
pub fn take_byte_iter<I: Iterator<Item = u8>>(bytes: &mut I) -> (r: Result<u8, Error>)
    ensures
        (*final(bytes)).obeys_prophetic_iter_laws() == (*old(bytes)).obeys_prophetic_iter_laws(),
        (*old(bytes)).obeys_prophetic_iter_laws() ==> match r {
            Ok(byte) => {
                &&& (*old(bytes)).remaining().len() > 0
                &&& byte == (*old(bytes)).remaining()[0]
                &&& (*final(bytes)).remaining() == (*old(bytes)).remaining().skip(1)
            },
            Err(e) => {
                &&& (*old(bytes)).remaining().len() == 0
                &&& e == Error::BufferTooShort
                &&& (*final(bytes)).remaining() == (*old(bytes)).remaining()
            },
        },
{
    let next = bytes.next();
    proof {
        if (*old(bytes)).obeys_prophetic_iter_laws() && next is Some {
            assert((*old(bytes)).remaining().drop_first() =~= (*old(bytes)).remaining().skip(1));
        }
    }
    next.ok_or(Error::BufferTooShort)
}

/// Takes the first `N` bytes off `buf` and hands them to `f`, which makes a number of them.
pub fn take_num<V, const N: usize, F: Fn([u8; N]) -> V>(buf: &mut &[u8], f: F) -> (r: Result<
    V,
    Error,
>)
    requires
        forall|array: [u8; N]|
            array@ == old(buf)@.take(N as int) ==> #[trigger] call_requires(f, (array,)),
    ensures
        match r {
            Ok(v) => {
                &&& old(buf)@.len() >= N
                &&& final(buf)@ == old(buf)@.skip(N as int)
                &&& made_of(f, old(buf)@.take(N as int), v)
            },
            Err(e) => {
                &&& old(buf)@.len() < N
                &&& e == Error::BufferTooShort
                &&& final(buf)@ == old(buf)@
            },
        },
{
    if buf.len() < N {
        return Err(Error::BufferTooShort);
    }
    let (head, tail) = buf.split_at(N);
    let mut array = [0u8; N];
    let mut i: usize = 0;
    while i < N
        invariant
            i <= N,
            head@.len() == N,
            forall|j: int| 0 <= j < i ==> array@[j] == head@[j],
        decreases N - i,
    {
        array[i] = head[i];
        i += 1;
    }
    *buf = tail;
    assert(array@ =~= old(buf)@.take(N as int));
    let v = f(array);
    assert(call_ensures(f, (array,), v));
    Ok(v)
}

/// Pulls the next `N` bytes from `bytes` and hands them to `f`, which makes a number of them.
///
/// The result is stated for a stream that yields a fixed sequence of bytes and then ends.
/// Where the stream ends early, the bytes that it still had are gone.
pub fn take_num_iter<I: Iterator<Item = u8>, V, const N: usize, F: Fn([u8; N]) -> V>(
    bytes: &mut I,
    f: F,
) -> (r: Result<V, Error>)
    requires
        forall|array: [u8; N]| #[trigger] call_requires(f, (array,)),
    ensures
        (*final(bytes)).obeys_prophetic_iter_laws() == (*old(bytes)).obeys_prophetic_iter_laws(),
        (*old(bytes)).obeys_prophetic_iter_laws() ==> match r {
            Ok(v) => {
                &&& (*old(bytes)).remaining().len() >= N
                &&& (*final(bytes)).remaining() == (*old(bytes)).remaining().skip(N as int)
                &&& made_of(f, (*old(bytes)).remaining().take(N as int), v)
            },
            Err(e) => {
                &&& (*old(bytes)).remaining().len() < N
                &&& e == Error::BufferTooShort
                &&& (*final(bytes)).remaining().len() == 0
            },
        },
{
    let mut array = [0u8; N];
    let mut i: usize = 0;
    while i < N
        invariant
            i <= N,
            (*bytes).obeys_prophetic_iter_laws() == (*old(bytes)).obeys_prophetic_iter_laws(),
            (*old(bytes)).obeys_prophetic_iter_laws() ==> {
                &&& i <= (*old(bytes)).remaining().len()
                &&& (*bytes).remaining() == (*old(bytes)).remaining().skip(i as int)
                &&& forall|j: int| 0 <= j < i ==> array@[j] == (*old(bytes)).remaining()[j]
            },
        decreases N - i,
    {
        let ghost before = (*bytes).remaining();
        match bytes.next() {
            Some(byte) => {
                array[i] = byte;
                i += 1;
                proof {
                    if (*old(bytes)).obeys_prophetic_iter_laws() {
                        assert(before.drop_first() =~= (*old(bytes)).remaining().skip(i as int));
                    }
                }
            },
            None => {
                return Err(Error::BufferTooShort);
            },
        }
    }
    proof {
        if (*old(bytes)).obeys_prophetic_iter_laws() {
            assert(array@ =~= (*old(bytes)).remaining().take(N as int));
        }
    }
    let v = f(array);
    assert(call_ensures(f, (array,), v));
    Ok(v)
}

} // verus!
