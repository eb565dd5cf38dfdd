use vstd::prelude::*;

use rand_core::OsRng;

verus! {

/// The operating system's random number generator, a zero-sized handle.
#[verifier::external_type_specification]
#[verifier::external_body]
pub struct ExOsRng(rand_core::OsRng);

/// Relies on `RngCore::fill_bytes` of rand_core's `OsRng`: every one of the
/// 24 bytes is drawn afresh from the operating system's source, so nothing is
/// promised of their values. rand_core documents that the call panics only if
/// the operating system's source itself fails.
#[verifier::external_body]
pub(crate) fn random_bytes(csprng: &mut OsRng) -> (r: [u8; 24]) {
    let mut bytes = [0u8; 24];
    rand_core::RngCore::fill_bytes(csprng, &mut bytes);
    bytes
}

} // verus!
