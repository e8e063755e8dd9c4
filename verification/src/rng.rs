//! The one source of chance.

use vstd::prelude::*;

verus! {

/// Calls `rand::random::<u16>()`, which draws from the thread's generator.
/// Nothing is claimed of the value: every `u16` may come back, and two calls
/// need not agree.
#[verifier::external_body]
pub(crate) fn random_u16() -> (r: u16) {
    rand::random::<u16>()
}

} // verus!
