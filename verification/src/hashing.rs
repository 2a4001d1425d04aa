//! Deterministic mappings from byte strings to scalars and to points of the
//! prime-order subgroup: a BLAKE2b-512 hash truncated and masked for
//! scalars, and domain-separated rejection sampling with cofactor clearing
//! for points. The domain tags and the attempt-counter encoding are part of
//! the external contract: they must never change.

use vstd::prelude::*;

use crate::backend;
use crate::backend::{spec_blake2b, spec_clear_cofactor, spec_point_decodes};
use crate::byteops::push_all;
use crate::FCMP_ERROR_INTERNAL;

verus! {

/// The domain tag of the hash-to-point construction: "WATTx_hash_to_point_v1".
pub open spec fn h2p_domain() -> Seq<u8> {
    seq![
        0x57u8, 0x41, 0x54, 0x54, 0x78, 0x5f, 0x68, 0x61, 0x73, 0x68, 0x5f, 0x74, 0x6f, 0x5f,
        0x70, 0x6f, 0x69, 0x6e, 0x74, 0x5f, 0x76, 0x31,
    ]
}

/// A scalar from a hash: the first 32 digest bytes, the last masked below
/// `2^255`.
pub open spec fn spec_hash_to_scalar(data: Seq<u8>) -> Seq<u8> {
    spec_blake2b(data).take(32).update(31, spec_blake2b(data)[31] & 0x7f)
}

/// The seed of the rejection-sampling loop: the digest of the domain tag
/// followed by the input.
pub open spec fn h2p_seed(data: Seq<u8>) -> Seq<u8> {
    spec_blake2b(h2p_domain() + data)
}

/// Candidate number `i`: the first 32 bytes of the digest of the seed
/// followed by the one-byte attempt counter.
pub open spec fn h2p_attempt(seed: Seq<u8>, i: int) -> Seq<u8> {
    spec_blake2b(seed.push(i as u8)).take(32)
}

/// The first attempt index at or after `i` whose candidate decodes, or 256
/// when none of the remaining candidates does.
pub open spec fn h2p_first_ok_from(seed: Seq<u8>, i: int) -> int
    decreases 256 - i,
{
    if i >= 256 {
        256
    } else if spec_point_decodes(h2p_attempt(seed, i)) {
        i
    } else {
        h2p_first_ok_from(seed, i + 1)
    }
}

/// Whether the rejection sampling succeeds within the 256-attempt budget.
pub open spec fn spec_hash_to_point_ok(data: Seq<u8>) -> bool {
    h2p_first_ok_from(h2p_seed(data), 0) < 256
}

/// The hash-to-point image: the first decodable candidate, multiplied by
/// the cofactor to land in the prime-order subgroup.
pub open spec fn spec_hash_to_point(data: Seq<u8>) -> Seq<u8> {
    spec_clear_cofactor(h2p_attempt(h2p_seed(data), h2p_first_ok_from(h2p_seed(data), 0)))
}

/// Hash arbitrary bytes to a scalar. Deterministic: the result is a
/// function of the input alone.
pub fn fcmp_hash_to_scalar(data: &[u8]) -> (r: Vec<u8>)
    ensures
        r@ == spec_hash_to_scalar(data@),
        r@.len() == 32,
        r@[31] < 128,
{
    let mut h = backend::blake2b512(data);
    h.truncate(32);
    let b31 = h[31];
    let masked = b31 & 0x7f;
    assert(masked < 128) by (bit_vector)
        requires
            masked == b31 & 0x7f,
    ;
    h[31] = masked;
    proof {
        assert(h@ =~= spec_hash_to_scalar(data@));
    }
    h
}

/// Hash arbitrary bytes to a point of the prime-order subgroup, by
/// domain-separated rejection sampling. Deterministic; fails only when no
/// candidate within the 256-attempt budget decodes.
pub fn fcmp_hash_to_point(data: &[u8]) -> (r: Result<Vec<u8>, i32>)
    ensures
        r.is_ok() <==> spec_hash_to_point_ok(data@),
        r matches Ok(v) ==> v@ == spec_hash_to_point(data@) && v@.len() == 32
            && spec_point_decodes(v@),
        r matches Err(e) ==> e == FCMP_ERROR_INTERNAL,
{
    let mut msg: Vec<u8> = Vec::new();
    push_all(&mut msg, domain_tag().as_slice());
    push_all(&mut msg, data);
    proof {
        assert(msg@ =~= h2p_domain() + data@);
    }
    let seed = backend::blake2b512(msg.as_slice());
    for i in 0..256usize
        invariant
            seed@ == h2p_seed(data@),
            forall|j: int| 0 <= j < i ==> !spec_point_decodes(h2p_attempt(seed@, j)),
    {
        let mut msg2: Vec<u8> = Vec::new();
        push_all(&mut msg2, seed.as_slice());
        msg2.push(i as u8);
        let mut candidate = backend::blake2b512(msg2.as_slice());
        candidate.truncate(32);
        proof {
            assert(candidate@ =~= h2p_attempt(seed@, i as int));
        }
        match backend::clear_cofactor(candidate.as_slice()) {
            Some(v) => {
                proof {
                    lemma_h2p_first_ok_prefix(seed@, i as int);
                }
                return Ok(v);
            },
            None => {},
        }
    }
    proof {
        lemma_h2p_first_ok_prefix(seed@, 256);
    }
    Err(FCMP_ERROR_INTERNAL)
}

/// The domain tag as a vector.
fn domain_tag() -> (r: Vec<u8>)
    ensures
        r@ == h2p_domain(),
{
    let r: Vec<u8> = vec![
        0x57u8, 0x41, 0x54, 0x54, 0x78, 0x5f, 0x68, 0x61, 0x73, 0x68, 0x5f, 0x74, 0x6f, 0x5f,
        0x70, 0x6f, 0x69, 0x6e, 0x74, 0x5f, 0x76, 0x31,
    ];
    proof {
        assert(r@ =~= h2p_domain());
    }
    r
}

/// When no candidate below `i` decodes, the search from 0 lands at `i`:
/// either the first success, or 256 when the budget is exhausted.
proof fn lemma_h2p_first_ok_prefix(seed: Seq<u8>, i: int)
    requires
        0 <= i <= 256,
        forall|j: int| 0 <= j < i ==> !spec_point_decodes(h2p_attempt(seed, j)),
    ensures
        h2p_first_ok_from(seed, i) == h2p_first_ok_from(seed, 0),
    decreases i,
{
    if i > 0 {
        lemma_h2p_first_ok_prefix(seed, i - 1);
    }
}

} // verus!
