//! Task identifiers: the 128-bit values of random (version 4) UUIDs.

use vstd::prelude::*;

verus! {

/// The bits of an identifier that hold the UUID version and variant.
pub const LAYOUT_MASK: u128 = 0x0000_0000_0000_f000_c000_0000_0000_0000;

/// Those bits in a random UUID: version 4, variant RFC 4122.
pub const RANDOM_LAYOUT: u128 = 0x0000_0000_0000_4000_8000_0000_0000_0000;

/// Whether `id` is laid out as a random UUID: its version field is 4 and its
/// variant field marks RFC 4122.
pub open spec fn is_random_identifier(id: u128) -> bool {
    id & LAYOUT_MASK == RANDOM_LAYOUT
}

/// Whether one of `ids` is laid out as a random UUID. Only such an identifier
/// can stand in the way of a fresh draw; where none is in use, every draw
/// yields an unused identifier.
pub open spec fn holds_random_identifier(ids: Set<u128>) -> bool {
    exists|id: u128| #[trigger] ids.contains(id) && is_random_identifier(id)
}

/// Tells whether `id` is laid out as a random UUID.
pub fn has_random_layout(id: u128) -> (yes: bool)
    ensures
        yes == is_random_identifier(id),
{
    id & LAYOUT_MASK == RANDOM_LAYOUT
}

/// Draws a fresh identifier from `uuid::Uuid::new_v4` and hands it out as the
/// integer that `uuid::Uuid::as_u128` gives for it.
///
/// Trusted: `new_v4` fills 128 bits from the operating system's random source
/// and then forces the version field to 4 and the variant field to RFC 4122;
/// the contract claims that layout and nothing else. Which identifier comes
/// back is left open, so two draws may or may not differ. `new_v4` panics if
/// the operating system cannot supply random bytes.
#[verifier::external_body]
pub(crate) fn fresh_identifier() -> (id: u128)
    ensures
        is_random_identifier(id),
{
    uuid::Uuid::new_v4().as_u128()
}

} // verus!
