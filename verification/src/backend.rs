//! Trusted boundary to the outside cryptographic crates: the BLAKE2b hash,
//! the Ed25519 group operations of curve25519-dalek, operating-system
//! entropy, and secret wiping. Every other module is verified against the
//! contracts stated here.

use vstd::prelude::*;

use blake2::Digest;

verus! {

/// The 64-byte BLAKE2b-512 digest of a byte string.
pub uninterp spec fn spec_blake2b(data: Seq<u8>) -> Seq<u8>;

/// Whether a 32-byte string decompresses to a point of the Ed25519 curve.
pub uninterp spec fn spec_point_decodes(enc: Seq<u8>) -> bool;

/// The compressed encoding of `scalar * point`, for a 32-byte scalar encoding
/// (reduced modulo the group order) and a decodable 32-byte point encoding.
pub uninterp spec fn spec_point_mul(scalar: Seq<u8>, point: Seq<u8>) -> Seq<u8>;

/// The compressed encoding of the sum of two decodable points.
pub uninterp spec fn spec_point_add(a: Seq<u8>, b: Seq<u8>) -> Seq<u8>;

/// The compressed encoding of eight times the point encoded by `enc`:
/// multiplication by the curve's cofactor, which lands in the prime-order
/// subgroup.
pub uninterp spec fn spec_clear_cofactor(enc: Seq<u8>) -> Seq<u8>;

/// The compressed encoding of the Ed25519 basepoint: the y-coordinate 4/5
/// in little-endian form with the sign bit clear.
pub open spec fn spec_basepoint() -> Seq<u8> {
    Seq::new(32, |i: int| if i == 0 { 0x58u8 } else { 0x66u8 })
}

/// The 32-byte little-endian encoding of the scalar two.
pub open spec fn spec_scalar_two() -> Seq<u8> {
    Seq::new(32, |i: int| if i == 0 { 2u8 } else { 0u8 })
}

/// Relies on blake2's `Blake2b512`: a 64-byte digest that is a function of
/// the input bytes alone.
#[verifier::external_body]
pub(crate) fn blake2b512(data: &[u8]) -> (r: Vec<u8>)
    ensures
        r@ == spec_blake2b(data@),
        r@.len() == 64,
{
    blake2::Blake2b512::digest(data).to_vec()
}

/// Relies on curve25519-dalek's `CompressedEdwardsY::decompress`: whether a
/// 32-byte encoding names a curve point depends on those bytes alone.
#[verifier::external_body]
pub(crate) fn point_decodes(enc: &[u8]) -> (r: bool)
    requires
        enc@.len() == 32,
    ensures
        r == spec_point_decodes(enc@),
{
    let mut b = [0u8; 32];
    b.copy_from_slice(enc);
    curve25519_dalek::edwards::CompressedEdwardsY(b).decompress().is_some()
}

/// Relies on curve25519-dalek's `EdwardsPoint` scalar multiplication, with
/// `Scalar::from_bytes_mod_order` on the scalar bytes and the canonical
/// compressed encoding on both sides. Succeeds exactly when the point
/// encoding decompresses; the compression of a curve point decompresses.
#[verifier::external_body]
pub(crate) fn point_mul(scalar: &[u8], point: &[u8]) -> (r: Option<Vec<u8>>)
    requires
        scalar@.len() == 32,
        point@.len() == 32,
    ensures
        r.is_some() == spec_point_decodes(point@),
        r matches Some(v) ==> v@ == spec_point_mul(scalar@, point@) && v@.len() == 32
            && spec_point_decodes(v@),
{
    let mut s = [0u8; 32];
    s.copy_from_slice(scalar);
    let mut p = [0u8; 32];
    p.copy_from_slice(point);
    let pt = curve25519_dalek::edwards::CompressedEdwardsY(p).decompress()?;
    let sc = curve25519_dalek::scalar::Scalar::from_bytes_mod_order(s);
    Some((sc * pt).compress().to_bytes().to_vec())
}

/// Relies on curve25519-dalek's `EdwardsPoint` group addition, in the
/// canonical compressed encoding on both sides. Succeeds exactly when both
/// operands decompress; the compression of a curve point decompresses.
/// Group addition is commutative, so the encoding of the sum is the same in
/// either operand order; and adding a point to itself doubles it, which is
/// multiplication by the scalar two.
#[verifier::external_body]
pub(crate) fn point_add(a: &[u8], b: &[u8]) -> (r: Option<Vec<u8>>)
    requires
        a@.len() == 32,
        b@.len() == 32,
    ensures
        r.is_some() == (spec_point_decodes(a@) && spec_point_decodes(b@)),
        r matches Some(v) ==> v@ == spec_point_add(a@, b@) && v@.len() == 32
            && spec_point_decodes(v@),
        r matches Some(v) ==> v@ == spec_point_add(b@, a@),
        r matches Some(v) ==> (a@ == b@ ==> v@ == spec_point_mul(spec_scalar_two(), a@)),
{
    let mut x = [0u8; 32];
    x.copy_from_slice(a);
    let mut y = [0u8; 32];
    y.copy_from_slice(b);
    let xp = curve25519_dalek::edwards::CompressedEdwardsY(x).decompress()?;
    let yp = curve25519_dalek::edwards::CompressedEdwardsY(y).decompress()?;
    Some((xp + yp).compress().to_bytes().to_vec())
}

/// Relies on curve25519-dalek's `EdwardsPoint::mul_by_cofactor`, in the
/// canonical compressed encoding on both sides. Succeeds exactly when the
/// encoding decompresses; the compression of a curve point decompresses.
#[verifier::external_body]
pub(crate) fn clear_cofactor(enc: &[u8]) -> (r: Option<Vec<u8>>)
    requires
        enc@.len() == 32,
    ensures
        r.is_some() == spec_point_decodes(enc@),
        r matches Some(v) ==> v@ == spec_clear_cofactor(enc@) && v@.len() == 32
            && spec_point_decodes(v@),
{
    let mut b = [0u8; 32];
    b.copy_from_slice(enc);
    let pt = curve25519_dalek::edwards::CompressedEdwardsY(b).decompress()?;
    Some(pt.mul_by_cofactor().compress().to_bytes().to_vec())
}

/// Relies on curve25519-dalek's `ED25519_BASEPOINT_COMPRESSED` constant: the
/// canonical encoding of the Ed25519 generator, which decompresses.
#[verifier::external_body]
pub(crate) fn basepoint() -> (r: Vec<u8>)
    ensures
        r@ == spec_basepoint(),
        spec_point_decodes(r@),
{
    curve25519_dalek::constants::ED25519_BASEPOINT_COMPRESSED
        .to_bytes()
        .to_vec()
}

/// Relies on rand_core's `OsRng::try_fill_bytes`: operating-system entropy.
/// Nothing is promised of the bytes beyond their count; the draw may fail.
#[verifier::external_body]
pub(crate) fn os_random_32() -> (r: Option<Vec<u8>>)
    ensures
        r matches Some(v) ==> v@.len() == 32,
{
    let mut b = [0u8; 32];
    if rand_core::RngCore::try_fill_bytes(&mut rand_core::OsRng, &mut b).is_ok() {
        Some(b.to_vec())
    } else {
        None
    }
}

/// Relies on zeroize's `Zeroize` for `Vec<u8>`: the bytes are overwritten
/// with zeroes and the vector is cleared.
#[verifier::external_body]
pub(crate) fn wipe(buf: &mut Vec<u8>)
    ensures
        final(buf)@.len() == 0,
{
    zeroize::Zeroize::zeroize(buf)
}

} // verus!
