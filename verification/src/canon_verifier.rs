//! Block verification.
use vstd::prelude::*;

verus! {

/// A canonical verifier: the verifier that does full verification of a
/// block, its family and its final state.
#[derive(Clone, Copy, Debug, PartialEq, Eq, Structural)]
pub struct CanonVerifier;

} // verus!
