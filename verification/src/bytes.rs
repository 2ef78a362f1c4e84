//! Plain memory seen as bytes.

use vstd::prelude::*;

verus! {

/// `bytemuck::bytes_of` on an array of bytes. The slice it hands back is the
/// array itself read as bytes: as many bytes as the array has, each in its
/// place. This is taken from the crate's documentation, not proved here.
#[verifier::external_body]
pub(crate) fn bytes_of_array<const LEN: usize>(array: &[u8; LEN]) -> (bytes: &[u8])
    ensures
        bytes@ == array@,
{
    bytemuck::bytes_of(array)
}

} // verus!
