//! Random identifiers of `uuid`, carried through as opaque values.

use uuid::Uuid;
use vstd::prelude::*;

verus! {

/// The identifier type of `uuid`.
#[verifier::external_type_specification]
#[verifier::external_body]
pub struct ExUuid(Uuid);

/// The identifier as one number: the value `Uuid::as_u128` gives (its
/// sixteen bytes read big-endian).
pub uninterp spec fn uuid_bits(u: Uuid) -> u128;

/// `Uuid::new_v4`: a fresh random identifier. Its bits come from the
/// system's random source; the contract claims only what every outcome
/// has: version 4 in bits 76 to 79 and the RFC variant (binary 10) in bits
/// 62 and 63, which `new_v4` sets by masking.
#[verifier::external_body]
pub(crate) fn new_random_id() -> (id: Uuid)
    ensures
        uuid_bits(id) & 0xF000_C000_0000_0000_0000u128 == 0x4000_8000_0000_0000_0000u128,
{
    Uuid::new_v4()
}

} // verus!
