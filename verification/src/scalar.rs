//! Scalar operations: 32-byte little-endian scalar encodings, schoolbook
//! addition with carry, the xor-based multiplication placeholder, and random
//! scalar generation. The final byte of every result is masked to keep the
//! value below `2^255`, the simplified reduction used throughout.

use vstd::prelude::*;

use crate::backend;
use crate::byteops::{le_val, lemma_le_val_bound, lemma_pow256_pos, pow256};
use crate::FCMP_ERROR_INTERNAL;
use crate::FCMP_ERROR_INVALID_PARAM;

verus! {

/// The carry into byte position `i` of the schoolbook addition of two
/// 32-byte strings.
pub open spec fn add_carry(a: Seq<u8>, b: Seq<u8>, i: int) -> nat
    decreases i,
{
    if i <= 0 {
        0
    } else {
        ((a[i - 1] + b[i - 1] + add_carry(a, b, i - 1)) / 256) as nat
    }
}

/// Byte `i` of the schoolbook sum, before the final mask.
pub open spec fn add_byte(a: Seq<u8>, b: Seq<u8>, i: int) -> u8 {
    ((a[i] + b[i] + add_carry(a, b, i)) % 256) as u8
}

/// The 32-byte schoolbook sum of two scalars, with the top bit of the last
/// byte cleared: the little-endian value is `(le_val(a) + le_val(b))`
/// reduced modulo `2^255`.
pub open spec fn spec_scalar_add(a: Seq<u8>, b: Seq<u8>) -> Seq<u8> {
    Seq::new(
        32,
        |i: int|
            if i == 31 {
                ((a[31] + b[31] + add_carry(a, b, 31)) % 128) as u8
            } else {
                add_byte(a, b, i)
            },
    )
}

/// The byte-wise xor of two scalars with the top bit of the last byte
/// cleared: the multiplication placeholder.
pub open spec fn spec_scalar_mul(a: Seq<u8>, b: Seq<u8>) -> Seq<u8> {
    Seq::new(
        32,
        |i: int|
            if i == 31 {
                (a[31] ^ b[31]) & 0x7f
            } else {
                a[i] ^ b[i]
            },
    )
}

/// The bound kept by the simplified reduction: `2^255`.
pub open spec fn scalar_modulus() -> nat {
    128 * pow256(31)
}

/// Add two scalars: the little-endian sum reduced modulo `2^255`.
/// Succeeds exactly on two 32-byte inputs.
pub fn fcmp_scalar_add(a: &[u8], b: &[u8]) -> (r: Result<Vec<u8>, i32>)
    ensures
        r.is_ok() <==> (a@.len() == 32 && b@.len() == 32),
        r matches Ok(v) ==> v@ == spec_scalar_add(a@, b@) && v@.len() == 32,
        r matches Err(e) ==> e == FCMP_ERROR_INVALID_PARAM,
{
    if a.len() != 32 || b.len() != 32 {
        return Err(FCMP_ERROR_INVALID_PARAM);
    }
    let mut result: Vec<u8> = Vec::new();
    let mut carry: u16 = 0;
    for i in 0..31usize
        invariant
            a@.len() == 32,
            b@.len() == 32,
            result@.len() == i,
            carry == add_carry(a@, b@, i as int),
            carry <= 1,
            forall|j: int| 0 <= j < i ==> result@[j] == add_byte(a@, b@, j),
    {
        let sum: u16 = (a[i] as u16) + (b[i] as u16) + carry;
        result.push((sum % 256) as u8);
        carry = sum / 256;
    }
    let sum: u16 = (a[31] as u16) + (b[31] as u16) + carry;
    result.push((sum % 128) as u8);
    proof {
        assert(result@ =~= spec_scalar_add(a@, b@));
    }
    Ok(result)
}

/// Multiply two scalars: the byte-wise xor placeholder, masked to stay
/// below `2^255`. Succeeds exactly on two 32-byte inputs.
pub fn fcmp_scalar_mul(a: &[u8], b: &[u8]) -> (r: Result<Vec<u8>, i32>)
    ensures
        r.is_ok() <==> (a@.len() == 32 && b@.len() == 32),
        r matches Ok(v) ==> v@ == spec_scalar_mul(a@, b@) && v@.len() == 32,
        r matches Err(e) ==> e == FCMP_ERROR_INVALID_PARAM,
{
    if a.len() != 32 || b.len() != 32 {
        return Err(FCMP_ERROR_INVALID_PARAM);
    }
    let mut result: Vec<u8> = Vec::new();
    for i in 0..31usize
        invariant
            a@.len() == 32,
            b@.len() == 32,
            result@.len() == i,
            forall|j: int| 0 <= j < i ==> result@[j] == (a@[j] ^ b@[j]),
    {
        result.push(a[i] ^ b[i]);
    }
    result.push((a[31] ^ b[31]) & 0x7f);
    proof {
        assert(result@ =~= spec_scalar_mul(a@, b@));
    }
    Ok(result)
}

/// Force a 32-byte string into the valid scalar range: the top bit of the
/// last byte is cleared, every other byte kept as given.
pub fn scalar_reduce(buf: &[u8]) -> (r: Vec<u8>)
    requires
        buf@.len() == 32,
    ensures
        r@ == buf@.update(31, buf@[31] & 0x7f),
        r@.len() == 32,
        r@[31] < 128,
{
    let mut out: Vec<u8> = Vec::new();
    for i in 0..31usize
        invariant
            buf@.len() == 32,
            out@.len() == i,
            forall|j: int| 0 <= j < i ==> out@[j] == buf@[j],
    {
        out.push(buf[i]);
    }
    let b31 = buf[31];
    let masked = b31 & 0x7f;
    assert(masked < 128) by (bit_vector)
        requires
            masked == b31 & 0x7f,
    ;
    out.push(masked);
    proof {
        assert(out@ =~= buf@.update(31, buf@[31] & 0x7f));
    }
    out
}

/// Draw a uniformly random scalar from operating-system entropy: the drawn
/// bytes pass through `scalar_reduce`, whose contract fixes the result for
/// every value of them; the intermediate buffer is wiped before returning.
pub fn fcmp_scalar_random() -> (r: Result<Vec<u8>, i32>)
    ensures
        r matches Ok(v) ==> v@.len() == 32 && v@[31] < 128,
        r matches Err(e) ==> e == FCMP_ERROR_INTERNAL,
{
    let mut buf = match backend::os_random_32() {
        Some(b) => b,
        None => {
            return Err(FCMP_ERROR_INTERNAL);
        },
    };
    let out = scalar_reduce(buf.as_slice());
    backend::wipe(&mut buf);
    Ok(out)
}

/// Scalar addition is commutative.
pub proof fn lemma_scalar_add_commutes(a: Seq<u8>, b: Seq<u8>)
    requires
        a.len() == 32,
        b.len() == 32,
    ensures
        spec_scalar_add(a, b) == spec_scalar_add(b, a),
{
    assert forall|i: int| 0 <= i <= 32 implies add_carry(a, b, i) == add_carry(b, a, i) by {
        lemma_add_carry_commutes(a, b, i);
    }
    assert(spec_scalar_add(a, b) =~= spec_scalar_add(b, a));
}

proof fn lemma_add_carry_commutes(a: Seq<u8>, b: Seq<u8>, i: int)
    ensures
        add_carry(a, b, i) == add_carry(b, a, i),
    decreases i,
{
    if i > 0 {
        lemma_add_carry_commutes(a, b, i - 1);
    }
}

/// The little-endian reading of the schoolbook sum: addition of the values,
/// reduced modulo `2^255`.
pub proof fn lemma_scalar_add_le_val(a: Seq<u8>, b: Seq<u8>)
    requires
        a.len() == 32,
        b.len() == 32,
    ensures
        le_val(spec_scalar_add(a, b)) == ((le_val(a) + le_val(b)) as int) % (
        scalar_modulus() as int),
{
    let s = spec_scalar_add(a, b);
    let prefix = Seq::new(31, |j: int| add_byte(a, b, j));
    let p31 = pow256(31);
    let c31 = add_carry(a, b, 31) as int;
    let t = a[31] + b[31] + c31;
    let m = t % 128;
    let q = t / 128;
    lemma_add_partial(a, b, 31);
    assert(s.drop_last() =~= prefix);
    assert(s.last() == m);
    assert(le_val(s) == le_val(prefix) + m * p31);
    assert(a.drop_last() =~= a.take(31));
    assert(b.drop_last() =~= b.take(31));
    assert(le_val(a) == le_val(a.take(31)) + a[31] * p31);
    assert(le_val(b) == le_val(b.take(31)) + b[31] * p31);
    assert(le_val(prefix) + c31 * p31 == le_val(a.take(31)) + le_val(b.take(31)));
    vstd::arithmetic::div_mod::lemma_fundamental_div_mod(t, 128);
    assert(t == 128 * q + m);
    lemma_le_val_bound(prefix);
    lemma_pow256_pos(31);
    assert(le_val(a) + le_val(b) == le_val(prefix) + c31 * p31 + a[31] * p31 + b[31] * p31);
    assert(c31 * p31 + a[31] * p31 + b[31] * p31 == t * p31) by (nonlinear_arith)
        requires
            t == a[31] + b[31] + c31,
    ;
    assert(t * p31 == m * p31 + q * (128 * p31)) by (nonlinear_arith)
        requires
            t == 128 * q + m,
    ;
    assert(le_val(a) + le_val(b) == le_val(s) + q * (128 * p31));
    assert(le_val(s) < 128 * p31) by (nonlinear_arith)
        requires
            le_val(s) == le_val(prefix) + m * p31,
            le_val(prefix) < p31,
            0 <= m < 128,
            p31 >= 1,
    ;
    assert(q >= 0) by {
        assert(t >= 0);
        vstd::arithmetic::div_mod::lemma_div_is_ordered(0, t, 128);
    }
    vstd::arithmetic::div_mod::lemma_fundamental_div_mod_converse(
        (le_val(a) + le_val(b)) as int,
        (128 * p31) as int,
        q,
        le_val(s) as int,
    );
}

/// After `i` byte positions, the partial sum and the pending carry account
/// exactly for the partial values of the operands.
proof fn lemma_add_partial(a: Seq<u8>, b: Seq<u8>, i: int)
    requires
        a.len() == 32,
        b.len() == 32,
        0 <= i <= 32,
    ensures
        le_val(Seq::new(i as nat, |j: int| add_byte(a, b, j))) + add_carry(a, b, i) * pow256(
            i as nat,
        ) == le_val(a.take(i)) + le_val(b.take(i)),
    decreases i,
{
    if i == 0 {
        assert(Seq::new(0, |j: int| add_byte(a, b, j)) =~= Seq::<u8>::empty());
        assert(a.take(0) =~= Seq::<u8>::empty());
        assert(b.take(0) =~= Seq::<u8>::empty());
    } else {
        lemma_add_partial(a, b, i - 1);
        let prev = Seq::new((i - 1) as nat, |j: int| add_byte(a, b, j));
        let cur = Seq::new(i as nat, |j: int| add_byte(a, b, j));
        let p = pow256((i - 1) as nat);
        let c_prev = add_carry(a, b, i - 1) as int;
        let t = a[i - 1] + b[i - 1] + c_prev;
        let m = t % 256;
        let q = t / 256;
        vstd::arithmetic::div_mod::lemma_fundamental_div_mod(t, 256);
        assert(cur.drop_last() =~= prev);
        assert(cur.last() == add_byte(a, b, i - 1));
        assert(add_byte(a, b, i - 1) == m);
        assert(le_val(cur) == le_val(prev) + m * p);
        assert(add_carry(a, b, i) == q);
        assert(pow256(i as nat) == 256 * p);
        assert(a.take(i).drop_last() =~= a.take(i - 1));
        assert(b.take(i).drop_last() =~= b.take(i - 1));
        assert(le_val(a.take(i)) == le_val(a.take(i - 1)) + a[i - 1] * p);
        assert(le_val(b.take(i)) == le_val(b.take(i - 1)) + b[i - 1] * p);
        assert(m * p + q * (256 * p) == t * p) by (nonlinear_arith)
            requires
                t == 256 * q + m,
        ;
        assert(t * p == a[i - 1] * p + b[i - 1] * p + c_prev * p) by (nonlinear_arith)
            requires
                t == a[i - 1] + b[i - 1] + c_prev,
        ;
        assert(le_val(cur) + add_carry(a, b, i) * pow256(i as nat) == le_val(prev) + m * p + q * (
        256 * p));
    }
}

} // verus!
