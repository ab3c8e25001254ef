//! Fresh per-request correlation identifiers.

use vstd::prelude::*;

verus! {

/// The bit layout of a version-4 UUID read as one big-endian 128-bit integer:
/// the version nibble holds 4 and the two variant bits hold `10`.
pub open spec fn spec_v4_layout(id: u128) -> bool {
    &&& (id >> 76) & 0xf == 4
    &&& (id >> 62) & 0x3 == 2
}

/// Generates a fresh random request identifier.
///
/// Relies on `uuid::Uuid::new_v4`, which draws 122 random bits and fixes the
/// version nibble to 4 and the variant bits to `10`, and on
/// `uuid::Uuid::as_u128`, which reads the sixteen bytes back as the same
/// big-endian integer. The value is random: nothing beyond the fixed bits
/// holds of it, and two calls may (with overwhelming improbability) collide.
#[verifier::external_body]
pub fn fresh_request_id() -> (r: u128)
    ensures
        spec_v4_layout(r),
{
    uuid::Uuid::new_v4().as_u128()
}

} // verus!
