//! Frames are held in `bytes::Bytes`, so that handing the latest frame to a
//! reader shares the buffer instead of copying it. This file is the whole of
//! what the library assumes of that type.

use bytes::Bytes;
use vstd::prelude::*;

verus! {

/// `bytes::Bytes`, carried through as it is: nothing is known of a handle
/// but the bytes it shows.
#[verifier::external_type_specification]
#[verifier::external_body]
pub struct ExBytes(bytes::Bytes);

/// The bytes that a `Bytes` handle gives access to, in order.
pub uninterp spec fn frame_bytes(b: Bytes) -> Seq<u8>;

/// `Bytes::from(Vec<u8>)`: the handle takes the vector's storage over and
/// shows exactly the vector's bytes.
#[verifier::external_body]
pub(crate) fn bytes_from_vec(v: Vec<u8>) -> (b: Bytes)
    ensures
        frame_bytes(b) == v@,
{
    Bytes::from(v)
}

/// `Bytes::clone`: a second handle on the same storage, showing the same
/// bytes.
#[verifier::external_body]
pub(crate) fn bytes_clone(b: &Bytes) -> (c: Bytes)
    ensures
        frame_bytes(c) == frame_bytes(*b),
{
    b.clone()
}

} // verus!
