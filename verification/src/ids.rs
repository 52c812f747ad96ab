//! Fresh identifiers.

use vstd::prelude::*;

verus! {

/// Whether `id` has the layout of a random UUID: version 4 in bits 76 to 79
/// and the RFC variant `10` in bits 62 and 63.
pub open spec fn is_random_uuid(id: u128) -> bool {
    (id >> 76u128) & 0xfu128 == 4u128 && (id >> 62u128) & 0x3u128 == 2u128
}

/// A new random identifier.
///
/// Calls `uuid::Uuid::new_v4` and packs its sixteen bytes into a `u128` with
/// `Uuid::as_u128`. The contract claims only what `new_v4` fixes by masking:
/// the version and variant bits. The other 122 bits are random, so two calls
/// may or may not differ.
#[verifier::external_body]
pub(crate) fn fresh_id() -> (id: u128)
    ensures
        is_random_uuid(id),
{
    uuid::Uuid::new_v4().as_u128()
}

} // verus!
