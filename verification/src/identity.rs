//! Process-unique identities.

use vstd::prelude::*;

verus! {

/// The bits of a 128-bit identity that say how it was made: the version
/// field and the two variant bits.
pub const KIND_MASK: u128 = 0x0000_0000_0000_F000_C000_0000_0000_0000;

/// The value of those bits in a randomly generated identity: version 4,
/// variant `10`.
pub const RANDOM_KIND: u128 = 0x0000_0000_0000_4000_8000_0000_0000_0000;

/// Whether `id` has the shape of a randomly generated identity.
pub open spec fn is_random_identity(id: u128) -> bool {
    id & KIND_MASK == RANDOM_KIND
}

/// A fresh random identity, from `uuid::Uuid::new_v4` and
/// `uuid::Uuid::as_u128`.
///
/// Trusted: `new_v4` draws 128 random bits from the operating system, then
/// clears and sets the version and variant bits so that the version field
/// reads 4 and the variant bits read `10`; `as_u128` returns those same 128
/// bits. Which identity comes back is not stated: two calls are expected to
/// differ, but nothing here promises it. `new_v4` panics where the operating
/// system cannot supply random bytes.
#[verifier::external_body]
pub(crate) fn random_identity() -> (id: u128)
    ensures
        is_random_identity(id),
{
    uuid::Uuid::new_v4().as_u128()
}

} // verus!
