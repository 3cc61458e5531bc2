use vstd::prelude::*;

verus! {

/// `Vec::into_boxed_slice` of the standard library: the boxed slice holds
/// the vector's bytes, in the vector's order.
#[verifier::external_body]
pub(crate) fn into_boxed_slice(bytes: Vec<u8>) -> (boxed: Box<[u8]>)
    ensures
        boxed@ == bytes@,
{
    bytes.into_boxed_slice()
}

} // verus!
