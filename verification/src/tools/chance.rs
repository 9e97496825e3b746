//! What the crate takes from chance: identities and places to spawn at.
//! Nothing here is proved; each item says what it trusts.

use rand::Rng;
use vstd::prelude::*;

verus! {

/// `uuid::Uuid`, the identity of an entity. Its inside is never looked at:
/// an identity is made once, kept, and handed on.
#[verifier::external_type_specification]
#[verifier::external_body]
pub struct ExUuid(uuid::Uuid);

/// `rand::rngs::ThreadRng`, the generator of the current thread.
#[verifier::external_type_specification]
#[verifier::external_body]
pub struct ExThreadRng(rand::rngs::ThreadRng);

/// `uuid::Uuid::new_v4` makes a random identity. Nothing is claimed of it.
pub assume_specification[ uuid::Uuid::new_v4 ]() -> uuid::Uuid
;

/// `rand::thread_rng` hands out the generator of the current thread.
/// Nothing is claimed of it.
pub assume_specification[ rand::thread_rng ]() -> rand::rngs::ThreadRng
;

/// `rand::Rng::gen_range` on the half-open range from `low` to `high`: the
/// number drawn lies in the range. The call panics on an empty range, which
/// is left out.
#[verifier::external_body]
pub(crate) fn gen_range(rng: &mut rand::rngs::ThreadRng, low: u32, high: u32) -> (n: u32)
    requires
        low < high,
    ensures
        low <= n < high,
{
    rng.gen_range(low..high)
}

} // verus!
