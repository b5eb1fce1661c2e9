//! Generation of Keep identities.
//!
//! An identity is a 128-bit value drawn at random. Nothing is promised of
//! the random bits themselves; all that is stated of a draw is the fixed
//! version field that every such value carries, and the registry establishes
//! uniqueness by checking each draw against its table before using it.

use vstd::prelude::*;

verus! {

/// The value carries the fixed version field of a randomly drawn identity:
/// the four bits at position 76 hold 0x4.
pub open spec fn is_random_identity(x: u128) -> bool {
    x & 0xF0000000000000000000u128 == 0x40000000000000000000u128
}

/// Relies on uuid's `Uuid::new_v4`: draws a version-4 (random) UUID and
/// hands its 128 bits back big-endian. `new_v4` masks the drawn bits and
/// sets the version nibble (the four bits at position 76) to 0x4, whatever
/// the random source returns; nothing else is stated of the value.
#[verifier::external_body]
pub(crate) fn fresh_identity() -> (id: u128)
    ensures
        is_random_identity(id),
{
    uuid::Uuid::new_v4().as_u128()
}

} // verus!
