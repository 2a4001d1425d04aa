//! Little-endian interpretation of byte strings, and small helpers shared by
//! the arithmetic and hashing modules.

use vstd::prelude::*;

verus! {

/// `256^n`.
pub open spec fn pow256(n: nat) -> nat
    decreases n,
{
    if n == 0 {
        1
    } else {
        256 * pow256((n - 1) as nat)
    }
}

/// The value of a byte string read as a little-endian integer.
pub open spec fn le_val(s: Seq<u8>) -> nat
    decreases s.len(),
{
    if s.len() == 0 {
        0
    } else {
        (le_val(s.drop_last()) + s.last() * pow256((s.len() - 1) as nat)) as nat
    }
}

/// Whether every byte of a string is zero.
pub open spec fn all_zero(s: Seq<u8>) -> bool {
    forall|i: int| 0 <= i < s.len() ==> s[i] == 0
}

pub proof fn lemma_pow256_pos(n: nat)
    ensures
        pow256(n) >= 1,
    decreases n,
{
    if n > 0 {
        lemma_pow256_pos((n - 1) as nat);
    }
}

/// A byte string's value is below `256^len`.
pub proof fn lemma_le_val_bound(s: Seq<u8>)
    ensures
        le_val(s) < pow256(s.len()),
    decreases s.len(),
{
    if s.len() == 0 {
    } else {
        let n = (s.len() - 1) as nat;
        lemma_le_val_bound(s.drop_last());
        lemma_pow256_pos(n);
        assert(s.last() * pow256(n) <= 255 * pow256(n)) by (nonlinear_arith)
            requires
                s.last() <= 255,
                pow256(n) >= 1,
        ;
        assert(le_val(s.drop_last()) + s.last() * pow256(n) < 256 * pow256(n));
    }
}

/// Append the bytes of a slice to a vector.
pub fn push_all(v: &mut Vec<u8>, s: &[u8])
    ensures
        final(v)@ == old(v)@ + s@,
{
    let n = s.len();
    for i in 0..n
        invariant
            n == s@.len(),
            v@ == old(v)@ + s@.take(i as int),
    {
        v.push(s[i]);
        assert(old(v)@ + s@.take(i as int) + seq![s@[i as int]] =~= old(v)@ + s@.take(
            i as int + 1,
        ));
    }
    assert(s@.take(n as int) =~= s@);
}

} // verus!
