//! Size-checked casts from a byte buffer to a byte array of a record's
//! length. The casts are `bytemuck`'s; what they do is stated here and is
//! not proved.

use vstd::prelude::*;

verus! {

/// Why `bytemuck` refused a cast.
#[verifier::external_type_specification]
#[verifier::external_body]
pub struct ExPodCastError(bytemuck::PodCastError);

/// `bytemuck::try_from_bytes` at the type `[u8; N]`. The cast succeeds
/// exactly when `buffer` holds `N` bytes: `bytemuck` tests the length and
/// then the address against the alignment of the target, and a byte array
/// has alignment 1, which every address meets. The array handed back is the
/// buffer's own memory, so it holds the buffer's bytes.
///
/// This is claimed of `bytemuck` built without its `align_offset` feature,
/// where the address is tested by its remainder. With that feature the test
/// goes through `align_offset` of the standard library, whose documentation
/// leaves open that it fails.
#[verifier::external_body]
pub(crate) fn try_from_bytes<const N: usize>(buffer: &[u8]) -> (r: Result<
    &[u8; N],
    bytemuck::PodCastError,
>)
    ensures
        r is Ok <==> buffer@.len() == N,
        r matches Ok(array) ==> array@ == buffer@,
{
    bytemuck::try_from_bytes::<[u8; N]>(buffer)
}

/// `bytemuck::try_from_bytes_mut` at the type `[u8; N]`. It succeeds exactly
/// when `buffer` holds `N` bytes, for the reason and under the condition
/// given at [`try_from_bytes`]. The array handed back is the buffer's own
/// memory: it starts with the buffer's bytes, and what it holds when the
/// caller is done with it is what the buffer holds from then on. A refused
/// buffer is left as it was.
#[verifier::external_body]
pub(crate) fn try_from_bytes_mut<const N: usize>(buffer: &mut [u8]) -> (r: Result<
    &mut [u8; N],
    bytemuck::PodCastError,
>)
    ensures
        r is Ok <==> old(buffer)@.len() == N,
        r matches Ok(array) ==> array@ == old(buffer)@ && final(buffer)@ == final(array)@,
        r is Err ==> final(buffer)@ == old(buffer)@,
{
    bytemuck::try_from_bytes_mut::<[u8; N]>(buffer)
}

} // verus!
