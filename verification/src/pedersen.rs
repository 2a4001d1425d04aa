//! Pedersen commitments: `C = value * G + blinding * H`, with `G` the fixed
//! basepoint and `H` derived deterministically by hashing a fixed domain
//! string to a point. The derivation tag is distinct from every other
//! domain tag in the library.

use vstd::prelude::*;

use crate::backend;
use crate::backend::{spec_basepoint, spec_point_add, spec_point_decodes, spec_point_mul};
use crate::hashing::{fcmp_hash_to_point, spec_hash_to_point, spec_hash_to_point_ok};
use crate::FCMP_ERROR_INTERNAL;
use crate::FCMP_ERROR_INVALID_PARAM;

verus! {

/// The derivation tag of the second generator: "WATTx_Pedersen_H_v1".
pub open spec fn pedersen_h_tag() -> Seq<u8> {
    seq![
        0x57u8, 0x41, 0x54, 0x54, 0x78, 0x5f, 0x50, 0x65, 0x64, 0x65, 0x72, 0x73, 0x65, 0x6e,
        0x5f, 0x48, 0x5f, 0x76, 0x31,
    ]
}

/// The compressed encoding of the second generator `H`.
pub open spec fn spec_pedersen_h() -> Seq<u8> {
    spec_hash_to_point(pedersen_h_tag())
}

/// The commitment to `value` under `blinding`:
/// `value * G + blinding * H`, as a compressed encoding.
pub open spec fn spec_pedersen_commit(value: Seq<u8>, blinding: Seq<u8>) -> Seq<u8> {
    spec_point_add(
        spec_point_mul(value, spec_basepoint()),
        spec_point_mul(blinding, spec_pedersen_h()),
    )
}

/// Commit to a 32-byte value under a 32-byte blinding factor. Deterministic:
/// the result is a function of the two scalars alone, and always a decodable
/// point encoding. Fails only on wrong-sized inputs, or internally when the
/// derivation of `H` exhausts its sampling budget.
pub fn fcmp_pedersen_commit(value: &[u8], blinding: &[u8]) -> (r: Result<Vec<u8>, i32>)
    ensures
        r.is_ok() <==> (value@.len() == 32 && blinding@.len() == 32 && spec_hash_to_point_ok(
            pedersen_h_tag(),
        )),
        r matches Ok(v) ==> v@ == spec_pedersen_commit(value@, blinding@) && v@.len() == 32
            && spec_point_decodes(v@),
        r matches Err(e) ==> if value@.len() == 32 && blinding@.len() == 32 {
            e == FCMP_ERROR_INTERNAL
        } else {
            e == FCMP_ERROR_INVALID_PARAM
        },
{
    if value.len() != 32 || blinding.len() != 32 {
        return Err(FCMP_ERROR_INVALID_PARAM);
    }
    let tag: Vec<u8> = vec![
        0x57u8, 0x41, 0x54, 0x54, 0x78, 0x5f, 0x50, 0x65, 0x64, 0x65, 0x72, 0x73, 0x65, 0x6e,
        0x5f, 0x48, 0x5f, 0x76, 0x31,
    ];
    proof {
        assert(tag@ =~= pedersen_h_tag());
    }
    let h = match fcmp_hash_to_point(tag.as_slice()) {
        Ok(h) => h,
        Err(_) => {
            return Err(FCMP_ERROR_INTERNAL);
        },
    };
    let g = backend::basepoint();
    let vg = match backend::point_mul(value, g.as_slice()) {
        Some(p) => p,
        None => {
            proof {
                assert(false);
            }
            return Err(FCMP_ERROR_INTERNAL);
        },
    };
    let bh = match backend::point_mul(blinding, h.as_slice()) {
        Some(p) => p,
        None => {
            proof {
                assert(false);
            }
            return Err(FCMP_ERROR_INTERNAL);
        },
    };
    match backend::point_add(vg.as_slice(), bh.as_slice()) {
        Some(c) => Ok(c),
        None => {
            proof {
                assert(false);
            }
            Err(FCMP_ERROR_INTERNAL)
        },
    }
}

} // verus!
