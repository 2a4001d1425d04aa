//! Elliptic-curve primitives for full-chain membership proofs: scalar and
//! point arithmetic over the Ed25519 group, domain-separated hash-to-point,
//! Pedersen commitments, parameter lifecycle, and the proof entry points.

use vstd::prelude::*;

pub mod backend;
pub mod byteops;
pub mod hashing;
pub mod lifecycle;
pub mod pedersen;
pub mod point;
pub mod proving;
pub mod scalar;

pub use hashing::{fcmp_hash_to_point, fcmp_hash_to_scalar};
pub use lifecycle::{fcmp_cleanup, fcmp_init, fcmp_is_initialized, FcmpParams};
pub use pedersen::fcmp_pedersen_commit;
pub use point::{fcmp_point_add, fcmp_point_basepoint, fcmp_point_is_valid, fcmp_point_mul};
pub use proving::{
    fcmp_proof_size, fcmp_prove, fcmp_verify, FcmpBranch, FcmpBranchLayer, FcmpInput, FcmpProof,
};
pub use scalar::{fcmp_scalar_add, fcmp_scalar_mul, fcmp_scalar_random, scalar_reduce};

verus! {

/// Operation completed successfully.
pub const FCMP_SUCCESS: i32 = 0;
/// Invalid parameter (wrong size, malformed shape).
pub const FCMP_ERROR_INVALID_PARAM: i32 = -1;
/// Proof generation failed.
pub const FCMP_ERROR_PROOF_GENERATION: i32 = -2;
/// Proof verification failed.
pub const FCMP_ERROR_PROOF_VERIFICATION: i32 = -3;
/// Output buffer too small.
pub const FCMP_ERROR_MEMORY: i32 = -4;
/// Invalid point encoding.
pub const FCMP_ERROR_INVALID_POINT: i32 = -5;
/// Invalid scalar encoding.
pub const FCMP_ERROR_INVALID_SCALAR: i32 = -6;
/// Library not initialized.
pub const FCMP_ERROR_NOT_INITIALIZED: i32 = -7;
/// Internal error (entropy failure, exhausted sampling budget).
pub const FCMP_ERROR_INTERNAL: i32 = -99;

/// Size of a scalar encoding in bytes.
pub const SCALAR_SIZE: usize = 32;
/// Size of a compressed point encoding in bytes.
pub const POINT_SIZE: usize = 32;
/// Size of an output tuple (O, I, C = 3 points).
pub const OUTPUT_TUPLE_SIZE: usize = POINT_SIZE * 3;
/// Elements per output in field representation.
pub const ELEMENTS_PER_OUTPUT: usize = 6;

/// The library version string.
pub fn fcmp_version() -> (r: &'static str)
    ensures
        r@ == "0.1.0"@,
{
    "0.1.0"
}

/// A human-readable message for a status code; unknown codes map to a
/// generic message rather than failing.
pub fn fcmp_error_string(code: i32) -> (r: &'static str)
    ensures
        code == FCMP_SUCCESS ==> r@ == "Success"@,
        code == FCMP_ERROR_INVALID_PARAM ==> r@ == "Invalid parameter"@,
        code == FCMP_ERROR_PROOF_GENERATION ==> r@ == "Proof generation failed"@,
        code == FCMP_ERROR_PROOF_VERIFICATION ==> r@ == "Proof verification failed"@,
        code == FCMP_ERROR_MEMORY ==> r@ == "Memory allocation failed"@,
        code == FCMP_ERROR_INVALID_POINT ==> r@ == "Invalid curve point"@,
        code == FCMP_ERROR_INVALID_SCALAR ==> r@ == "Invalid scalar"@,
        code == FCMP_ERROR_NOT_INITIALIZED ==> r@ == "Library not initialized"@,
        code == FCMP_ERROR_INTERNAL ==> r@ == "Internal error"@,
        !(code == FCMP_SUCCESS || code == FCMP_ERROR_INVALID_PARAM
            || code == FCMP_ERROR_PROOF_GENERATION || code == FCMP_ERROR_PROOF_VERIFICATION
            || code == FCMP_ERROR_MEMORY || code == FCMP_ERROR_INVALID_POINT
            || code == FCMP_ERROR_INVALID_SCALAR || code == FCMP_ERROR_NOT_INITIALIZED
            || code == FCMP_ERROR_INTERNAL) ==> r@ == "Unknown error"@,
{
    if code == FCMP_SUCCESS {
        "Success"
    } else if code == FCMP_ERROR_INVALID_PARAM {
        "Invalid parameter"
    } else if code == FCMP_ERROR_PROOF_GENERATION {
        "Proof generation failed"
    } else if code == FCMP_ERROR_PROOF_VERIFICATION {
        "Proof verification failed"
    } else if code == FCMP_ERROR_MEMORY {
        "Memory allocation failed"
    } else if code == FCMP_ERROR_INVALID_POINT {
        "Invalid curve point"
    } else if code == FCMP_ERROR_INVALID_SCALAR {
        "Invalid scalar"
    } else if code == FCMP_ERROR_NOT_INITIALIZED {
        "Library not initialized"
    } else if code == FCMP_ERROR_INTERNAL {
        "Internal error"
    } else {
        "Unknown error"
    }
}

} // verus!
