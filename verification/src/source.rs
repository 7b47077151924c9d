//! The random stream that the tasks draw from.
//!
//! The generator is the `random` crate's Xorshift128+ source. Nothing is
//! claimed of the numbers it hands out: every caller here is proved for any
//! number that may come back.

use vstd::prelude::*;

verus! {

/// `random::Xorshift128Plus`, the generator of the `random` crate, carried
/// through as an opaque value.
#[verifier::external_type_specification]
#[verifier::external_body]
pub struct ExXorshift128Plus(random::Xorshift128Plus);

/// Calls `random::default`, which builds the generator from a 64-bit seed.
/// It accepts every seed. Nothing is claimed of the generator's state.
#[verifier::external_body]
pub(crate) fn seeded(seed: u64) -> (source: random::Xorshift128Plus) {
    random::default(seed)
}

/// Calls `random::Source::read` for an 8-bit value: the next number of the
/// stream, cut down to its low eight bits. Nothing is claimed of the value.
#[verifier::external_body]
pub(crate) fn read_u8(source: &mut random::Xorshift128Plus) -> (raw: u8) {
    random::Source::read::<u8>(source)
}

/// Calls `random::Source::read` for a 16-bit value: the next number of the
/// stream, cut down to its low sixteen bits. Nothing is claimed of the value.
#[verifier::external_body]
pub(crate) fn read_u16(source: &mut random::Xorshift128Plus) -> (raw: u16) {
    random::Source::read::<u16>(source)
}

} // verus!
