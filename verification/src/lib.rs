//! Instance-commitment computation against a Lagrange polynomial commitment
//! scheme: public-input vectors are validated against a circuit's declared
//! shape, zero-padded to the commitment domain size, and committed one curve
//! point per vector.

pub mod backend;
pub mod commit;

pub use commit::CommitError;
pub use commit::CommitmentEngine;

use vstd::prelude::*;

verus! {

/// Fixed seed exposed for the demonstration programs built around this
/// library.
pub const GOD_PRIVATE_KEY: u128 = 42;

} // verus!
