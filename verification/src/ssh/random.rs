//! The random source behind packet padding.
//!
//! Everything here is taken on trust from the `rand` crate: Verus reads the
//! contracts below and none of the code they describe.

use rand::rngs::ThreadRng;
use rand::Rng;
use vstd::prelude::*;

verus! {

/// `rand::rngs::ThreadRng`, the handle to the generator of the current
/// thread. Its contents are hidden from the verifier.
#[verifier::external_type_specification]
#[verifier::external_body]
pub struct ExThreadRng(rand::rngs::ThreadRng);

/// `rand::thread_rng` hands out the generator of the current thread. Nothing
/// is claimed of the handle. The generator is seeded from the operating
/// system on first use, and `rand` panics if the system gives no entropy
/// then.
pub assume_specification[ rand::thread_rng ]() -> (rng: ThreadRng);

/// `Rng::gen_range` on the half-open range `low..high` of bytes. `rand`
/// panics on an empty range, so one is not admitted; for any other range it
/// returns a value inside it. Which value is not said.
///
/// The generator reseeds itself from the operating system after every 64 KiB
/// of output and after a fork, and `rand` panics if that reseeding fails. No
/// argument decides this, so no `requires` can leave it out.
#[verifier::external_body]
pub(crate) fn gen_range(rng: &mut ThreadRng, low: u8, high: u8) -> (n: u8)
    requires
        low < high,
    ensures
        low <= n < high,
{
    rng.gen_range(low..high)
}

/// `Rng::gen` for one byte. Any byte may come back, so nothing is claimed.
///
/// As with `gen_range`, `rand` panics if the generator has to reseed itself
/// from the operating system and that fails.
#[verifier::external_body]
pub(crate) fn gen_byte(rng: &mut ThreadRng) -> (b: u8) {
    rng.gen()
}

} // verus!
