use vstd::prelude::*;

verus! {

/// Capacity of every frame buffer, in bytes (one standard Ethernet MTU).
pub const MTU: usize = 1500;

/// A frame buffer: up to [`MTU`] bytes held inline.
pub type Buf = heapless::Vec<u8, MTU>;

#[verifier::external_type_specification]
#[verifier::external_body]
#[verifier::reject_recursive_types(T)]
pub struct ExHeaplessVec<T, const N: usize>(heapless::Vec<T, N>);

/// The bytes held by a frame buffer, in order.
pub uninterp spec fn frame_bytes(b: heapless::Vec<u8, MTU>) -> Seq<u8>;

/// Relies on heapless::Vec::new: a new vector holds nothing.
#[verifier::external_body]
pub(crate) fn empty_buf() -> (r: Buf)
    ensures
        frame_bytes(r) == Seq::<u8>::empty(),
{
    heapless::Vec::new()
}

/// Relies on heapless::Vec::as_slice: the slice is the vector's contents, at
/// most its capacity long.
#[verifier::external_body]
pub(crate) fn buf_bytes(b: &Buf) -> (r: &[u8])
    ensures
        r@ == frame_bytes(*b),
        r@.len() <= MTU,
{
    b.as_slice()
}

/// Relies on heapless::Vec::extend_from_slice: the bytes are appended when they
/// fit in the capacity; otherwise nothing changes and an error comes back.
#[verifier::external_body]
pub(crate) fn append_bytes(b: &mut Buf, bytes: &[u8]) -> (r: Result<(), ()>)
    ensures
        frame_bytes(*old(b)).len() + bytes@.len() <= MTU ==> {
            &&& r is Ok
            &&& frame_bytes(*final(b)) == frame_bytes(*old(b)) + bytes@
        },
        frame_bytes(*old(b)).len() + bytes@.len() > MTU ==> {
            &&& r is Err
            &&& frame_bytes(*final(b)) == frame_bytes(*old(b))
        },
{
    b.extend_from_slice(bytes)
}

/// A new buffer holding a copy of `bytes`, which must fit in one frame.
pub(crate) fn buf_from_bytes(bytes: &[u8]) -> (r: Buf)
    requires
        bytes@.len() <= MTU,
    ensures
        frame_bytes(r) == bytes@,
{
    let mut b = empty_buf();
    let res = append_bytes(&mut b, bytes);
    assert(Seq::<u8>::empty() + bytes@ =~= bytes@);
    b
}

} // verus!
