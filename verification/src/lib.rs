//! Base case of a Dory-style polynomial commitment over the BN254 pairing:
//! witness construction, the commitment triple, and the randomized proof of
//! knowledge of the two group elements under a length-one commitment.
//!
//! The curve arithmetic is that of the arkworks crates. Group elements are
//! held in canonical encoding, and every contract says which group operations
//! were applied to which elements; `laws` holds what follows from that.

pub mod commitment;
pub mod curve;
pub mod encoding;
pub mod error;
pub mod field;
pub mod laws;
pub mod params;
pub mod polynomial;
pub mod scalar_proof;
pub mod transcript;
pub mod vec_operations;
pub mod witness;

pub use crate::commitment::{commit, Commitment};
pub use crate::error::Error;
pub use crate::scalar_proof::ScalarProof;
pub use crate::witness::Witness;
