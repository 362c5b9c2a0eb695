//! Shared byte buffers (`bytes::Bytes`) as the grams arrive from the network.
use std::sync::Arc;

use bytes::Bytes;
use vstd::prelude::*;

verus! {

#[verifier::external_type_specification]
#[verifier::external_body]
pub struct ExBytes(Bytes);

/// The bytes that a `Bytes` buffer holds, in order.
pub uninterp spec fn bytes_content(b: Bytes) -> Seq<u8>;

/// Calls `<Bytes as AsRef<[u8]>>::as_ref`, which hands out the buffer's bytes
/// as a slice; the slice holds exactly the bytes of the buffer.
#[verifier::external_body]
pub(crate) fn bytes_as_slice(b: &Bytes) -> (r: &[u8])
    ensures
        r@ == bytes_content(*b),
{
    b.as_ref()
}

/// Calls `<Arc<T> as Clone>::clone`, which hands out another handle to the
/// same value; to Verus an `Arc` is the value it points to.
#[verifier::external_body]
pub(crate) fn share<T>(a: &Arc<T>) -> (r: Arc<T>)
    ensures
        r == *a,
{
    Arc::clone(a)
}

} // verus!
