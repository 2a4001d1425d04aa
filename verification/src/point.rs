//! Point operations: 32-byte compressed Ed25519 encodings, validated on
//! entry and operated on through the trusted curve backend.

use vstd::prelude::*;

use crate::backend;
use crate::backend::{
    spec_basepoint, spec_point_add, spec_point_decodes, spec_point_mul, spec_scalar_two,
};
use crate::FCMP_ERROR_INVALID_PARAM;
use crate::FCMP_ERROR_INVALID_POINT;

verus! {

/// Multiply a point by a scalar. Succeeds exactly on 32-byte inputs whose
/// point encoding decompresses; the result is the compressed product, itself
/// a decodable encoding.
pub fn fcmp_point_mul(scalar: &[u8], point: &[u8]) -> (r: Result<Vec<u8>, i32>)
    ensures
        r.is_ok() <==> (scalar@.len() == 32 && point@.len() == 32 && spec_point_decodes(point@)),
        r matches Ok(v) ==> v@ == spec_point_mul(scalar@, point@) && v@.len() == 32
            && spec_point_decodes(v@),
        r matches Err(e) ==> if scalar@.len() == 32 && point@.len() == 32 {
            e == FCMP_ERROR_INVALID_POINT
        } else {
            e == FCMP_ERROR_INVALID_PARAM
        },
{
    if scalar.len() != 32 || point.len() != 32 {
        return Err(FCMP_ERROR_INVALID_PARAM);
    }
    match backend::point_mul(scalar, point) {
        Some(v) => Ok(v),
        None => Err(FCMP_ERROR_INVALID_POINT),
    }
}

/// Add two points. Succeeds exactly on 32-byte inputs that both decompress;
/// the result is the compressed sum, itself a decodable encoding. The sum
/// is the same in either operand order, and adding a point to itself equals
/// multiplying it by the scalar two.
pub fn fcmp_point_add(a: &[u8], b: &[u8]) -> (r: Result<Vec<u8>, i32>)
    ensures
        r.is_ok() <==> (a@.len() == 32 && b@.len() == 32 && spec_point_decodes(a@)
            && spec_point_decodes(b@)),
        r matches Ok(v) ==> v@ == spec_point_add(a@, b@) && v@.len() == 32 && spec_point_decodes(
            v@,
        ),
        r matches Ok(v) ==> v@ == spec_point_add(b@, a@),
        r matches Ok(v) ==> (a@ == b@ ==> v@ == spec_point_mul(spec_scalar_two(), a@)),
        r matches Err(e) ==> if a@.len() == 32 && b@.len() == 32 {
            e == FCMP_ERROR_INVALID_POINT
        } else {
            e == FCMP_ERROR_INVALID_PARAM
        },
{
    if a.len() != 32 || b.len() != 32 {
        return Err(FCMP_ERROR_INVALID_PARAM);
    }
    match backend::point_add(a, b) {
        Some(v) => Ok(v),
        None => Err(FCMP_ERROR_INVALID_POINT),
    }
}

/// The fixed group generator, as a compressed encoding; always decodable.
pub fn fcmp_point_basepoint() -> (r: Vec<u8>)
    ensures
        r@ == spec_basepoint(),
        r@.len() == 32,
        spec_point_decodes(r@),
{
    backend::basepoint()
}

/// Whether an encoding decompresses to a curve point: 1 when it does, 0 for
/// any other input, a wrong-sized one included.
pub fn fcmp_point_is_valid(point: &[u8]) -> (r: i32)
    ensures
        r == 1 <==> (point@.len() == 32 && spec_point_decodes(point@)),
        r == 1 || r == 0,
{
    if point.len() != 32 {
        return 0;
    }
    if backend::point_decodes(point) {
        1
    } else {
        0
    }
}

} // verus!
