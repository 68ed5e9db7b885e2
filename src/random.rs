use vstd::prelude::*;

verus! {

/// Relies on `rand::random::<u8>`, drawn from the thread-local generator: any byte may
/// come back, so nothing is promised of it.
#[verifier::external_body]
pub(crate) fn random_byte() -> (r: u8) {
    rand::random::<u8>()
}

} // verus!
