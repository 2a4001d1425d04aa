//! Proof entry points and their data model: the branch (an authentication
//! path of layers), the verification input tuple, the proof-size estimator,
//! and the generate/verify calls. The proof binding here is a hash-based
//! stand-in, as in the reference behaviour: a full membership argument is a
//! separate design effort, and the contracts below record exactly what this
//! layer does.

use vstd::prelude::*;

use crate::backend;
use crate::backend::spec_blake2b;
use crate::byteops::{all_zero, push_all};
use crate::lifecycle::FcmpParams;
use crate::FCMP_ERROR_INVALID_PARAM;
use crate::FCMP_ERROR_MEMORY;
use crate::FCMP_ERROR_NOT_INITIALIZED;
use crate::FCMP_ERROR_PROOF_VERIFICATION;
use crate::FCMP_SUCCESS;

verus! {

/// An opaque proof blob.
pub struct FcmpProof {
    /// The serialized proof bytes.
    pub data: Vec<u8>,
}

/// A single layer of an authentication path: the field representations of
/// the sibling elements at one tree level, as consecutive 32-byte scalars.
pub struct FcmpBranchLayer {
    /// The layer's element bytes.
    pub elements: Vec<u8>,
}

/// An authentication path from a leaf to the tree root.
pub struct FcmpBranch {
    /// Index of the leaf in the tree.
    pub leaf_index: u64,
    /// The layers, leaf level first.
    pub layers: Vec<FcmpBranchLayer>,
}

/// The re-randomized input tuple consumed by verification: each entry is a
/// pair of field elements.
pub struct FcmpInput {
    /// Re-randomized one-time public key.
    pub o_tilde: [u8; 64],
    /// Re-randomized linkability tag.
    pub i_tilde: [u8; 64],
    /// Auxiliary re-randomization value.
    pub r: [u8; 64],
    /// Re-randomized commitment.
    pub c_tilde: [u8; 64],
}

impl View for FcmpBranchLayer {
    type V = Seq<u8>;

    open spec fn view(&self) -> Seq<u8> {
        self.elements@
    }
}

impl View for FcmpBranch {
    type V = Seq<Seq<u8>>;

    open spec fn view(&self) -> Seq<Seq<u8>> {
        Seq::new(self.layers@.len(), |i: int| self.layers@[i]@)
    }
}

/// `2^k`.
pub open spec fn pow2(k: nat) -> nat
    decreases k,
{
    if k == 0 {
        1
    } else {
        2 * pow2((k - 1) as nat)
    }
}

/// The length of `n` in bits: zero for zero, else one more than for `n / 2`.
pub open spec fn spec_bit_len(n: nat) -> nat
    decreases n,
{
    if n == 0 {
        0
    } else {
        1 + spec_bit_len(n / 2)
    }
}

/// The proof-size estimate: zero when there is nothing to prove, else a
/// fixed base, a term for the inner-product rounds growing with the bit
/// length of the layer count, and a linear commitment term.
pub open spec fn spec_proof_size(num_inputs: nat, num_layers: nat) -> nat {
    if num_inputs == 0 || num_layers == 0 {
        0
    } else {
        512 + 64 * spec_bit_len(num_layers) + 32 * num_inputs * num_layers + 64
    }
}

/// The domain tag of the proof binding: "WATTx_FCMP_Proof_v1".
pub open spec fn prove_domain() -> Seq<u8> {
    seq![
        0x57u8, 0x41, 0x54, 0x54, 0x78, 0x5f, 0x46, 0x43, 0x4d, 0x50, 0x5f, 0x50, 0x72, 0x6f,
        0x6f, 0x66, 0x5f, 0x76, 0x31,
    ]
}

/// The concatenation of the layers' element bytes, in order.
pub open spec fn concat_layers(layers: Seq<Seq<u8>>) -> Seq<u8>
    decreases layers.len(),
{
    if layers.len() == 0 {
        Seq::empty()
    } else {
        layers.first() + concat_layers(layers.drop_first())
    }
}

/// The byte string whose digest binds a proof: the domain tag, the root,
/// the output tuple, and every layer's elements.
pub open spec fn spec_prove_msg(root: Seq<u8>, output: Seq<u8>, layers: Seq<Seq<u8>>) -> Seq<u8> {
    prove_domain() + root + output + concat_layers(layers)
}

/// Estimate the proof size for a number of inputs and of tree layers. Pure;
/// zero inputs or layers give zero, and the estimate never decreases when
/// either count grows.
pub fn fcmp_proof_size(num_inputs: u32, num_layers: u32) -> (r: usize)
    requires
        32 * (num_inputs as nat) * (num_layers as nat) + 2624 <= usize::MAX,
    ensures
        r == spec_proof_size(num_inputs as nat, num_layers as nat),
{
    if num_inputs == 0 || num_layers == 0 {
        return 0;
    }
    let mut n: u32 = num_layers;
    let mut bits: u32 = 0;
    proof {
        lemma_pow2_32();
        lemma_bit_len_below(num_layers as nat, 32);
    }
    while n > 0
        invariant
            bits + spec_bit_len(n as nat) == spec_bit_len(num_layers as nat),
            spec_bit_len(num_layers as nat) <= 32,
        decreases n,
    {
        n = n / 2;
        bits = bits + 1;
    }
    let ni: usize = num_inputs as usize;
    let nl: usize = num_layers as usize;
    proof {
        assert(32 * (num_inputs as int) <= 32 * (num_inputs as int) * (num_layers as int))
            by (nonlinear_arith)
            requires
                num_layers >= 1,
                num_inputs >= 1,
        ;
    }
    let base: usize = 32 * 16;
    let ipa: usize = 32 * 2 * (bits as usize);
    let commits: usize = 32 * ni * nl;
    base + ipa + commits + 64
}

/// Generate a proof binding the tree root, the output tuple, and the
/// branch. Requires initialized parameters, a branch with at least one
/// layer, and room for the 64-byte binding; the proof is the digest of the
/// domain-tagged inputs.
pub fn fcmp_prove(
    params: &Option<FcmpParams>,
    tree_root: &[u8],
    output: &[u8],
    branch: &FcmpBranch,
    proof_max_len: usize,
) -> (r: Result<Vec<u8>, i32>)
    ensures
        params.is_none() ==> (r matches Err(e) && e == FCMP_ERROR_NOT_INITIALIZED),
        params.is_some() && (tree_root@.len() != 32 || output@.len() != 96) ==> (r matches Err(e)
            && e == FCMP_ERROR_INVALID_PARAM),
        params.is_some() && tree_root@.len() == 32 && output@.len() == 96 && branch@.len() == 0
            ==> (r matches Err(e) && e == FCMP_ERROR_INVALID_PARAM),
        params.is_some() && tree_root@.len() == 32 && output@.len() == 96 && branch@.len() > 0
            && proof_max_len < 64 ==> (r matches Err(e) && e == FCMP_ERROR_MEMORY),
        params.is_some() && tree_root@.len() == 32 && output@.len() == 96 && branch@.len() > 0
            && proof_max_len >= 64 ==> (r matches Ok(v) && v@ == spec_blake2b(
            spec_prove_msg(tree_root@, output@, branch@),
        ) && v@.len() == 64),
{
    if params.is_none() {
        return Err(FCMP_ERROR_NOT_INITIALIZED);
    }
    if tree_root.len() != 32 || output.len() != 96 {
        return Err(FCMP_ERROR_INVALID_PARAM);
    }
    if branch.layers.len() == 0 {
        return Err(FCMP_ERROR_INVALID_PARAM);
    }
    let mut msg: Vec<u8> = Vec::new();
    let tag: Vec<u8> = vec![
        0x57u8, 0x41, 0x54, 0x54, 0x78, 0x5f, 0x46, 0x43, 0x4d, 0x50, 0x5f, 0x50, 0x72, 0x6f,
        0x6f, 0x66, 0x5f, 0x76, 0x31,
    ];
    proof {
        assert(tag@ =~= prove_domain());
    }
    push_all(&mut msg, tag.as_slice());
    push_all(&mut msg, tree_root);
    push_all(&mut msg, output);
    let num_layers = branch.layers.len();
    for i in 0..num_layers
        invariant
            num_layers == branch.layers.len(),
            msg@ == prove_domain() + tree_root@ + output@ + concat_layers(branch@.take(i as int)),
    {
        proof {
            assert(concat_layers(branch@.take(0)) =~= Seq::<u8>::empty());
            lemma_concat_layers_snoc(branch@, i as int);
        }
        push_all(&mut msg, branch.layers[i].elements.as_slice());
        proof {
            assert(branch@[i as int] == branch.layers[i as int]@);
        }
    }
    proof {
        assert(branch@.take(num_layers as int) =~= branch@);
        assert(concat_layers(branch@.take(0)) =~= Seq::<u8>::empty());
        assert(prove_domain() + tree_root@ + output@ + concat_layers(branch@.take(0)) =~= (
        prove_domain() + tree_root@ + output@));
    }
    let digest = backend::blake2b512(msg.as_slice());
    if proof_max_len < 64 {
        return Err(FCMP_ERROR_MEMORY);
    }
    Ok(digest)
}

/// Verify a proof blob against a tree root and a re-randomized input.
/// Requires initialized parameters; rejects proofs shorter than the 64-byte
/// scheme minimum and the all-zero buffer, and otherwise accepts the
/// hash-based binding.
pub fn fcmp_verify(
    params: &Option<FcmpParams>,
    tree_root: &[u8],
    input: &FcmpInput,
    proof: &[u8],
) -> (r: i32)
    ensures
        params.is_none() ==> r == FCMP_ERROR_NOT_INITIALIZED,
        params.is_some() && proof@.len() < 64 ==> r == FCMP_ERROR_INVALID_PARAM,
        params.is_some() && proof@.len() >= 64 && all_zero(proof@) ==> r
            == FCMP_ERROR_PROOF_VERIFICATION,
        params.is_some() && proof@.len() >= 64 && !all_zero(proof@) ==> r == FCMP_SUCCESS,
{
    if params.is_none() {
        return FCMP_ERROR_NOT_INITIALIZED;
    }
    if proof.len() < 64 {
        return FCMP_ERROR_INVALID_PARAM;
    }
    let n = proof.len();
    for i in 0..n
        invariant
            n == proof@.len(),
            params.is_some(),
            n >= 64,
            forall|j: int| 0 <= j < i ==> proof@[j] == 0,
    {
        if proof[i] != 0 {
            return FCMP_SUCCESS;
        }
    }
    FCMP_ERROR_PROOF_VERIFICATION
}

/// The estimate is zero exactly when there is nothing to prove.
pub proof fn lemma_proof_size_zero(num_inputs: nat, num_layers: nat)
    ensures
        spec_proof_size(num_inputs, num_layers) == 0 <==> (num_inputs == 0 || num_layers == 0),
{
}

/// The estimate never decreases in either argument, for positive counts.
pub proof fn lemma_proof_size_monotonic(i1: nat, l1: nat, i2: nat, l2: nat)
    requires
        1 <= i1 <= i2,
        1 <= l1 <= l2,
    ensures
        spec_proof_size(i1, l1) <= spec_proof_size(i2, l2),
{
    lemma_bit_len_monotonic(l1, l2);
    assert(32 * i1 * l1 <= 32 * i2 * l2) by (nonlinear_arith)
        requires
            1 <= i1 <= i2,
            1 <= l1 <= l2,
    ;
}

/// Bit length never decreases.
proof fn lemma_bit_len_monotonic(a: nat, b: nat)
    requires
        a <= b,
    ensures
        spec_bit_len(a) <= spec_bit_len(b),
    decreases b,
{
    if a > 0 {
        vstd::arithmetic::div_mod::lemma_div_is_ordered(a as int, b as int, 2);
        lemma_bit_len_monotonic(a / 2, b / 2);
    }
}

/// A number below `2^k` has at most `k` bits.
proof fn lemma_bit_len_below(n: nat, k: nat)
    requires
        n < pow2(k),
    ensures
        spec_bit_len(n) <= k,
    decreases k,
{
    if n > 0 {
        let p = pow2((k - 1) as nat);
        assert(n / 2 < p) by (nonlinear_arith)
            requires
                n < 2 * p,
                p >= 1,
                n >= 0,
        ;
        lemma_bit_len_below(n / 2, (k - 1) as nat);
    }
}

proof fn lemma_pow2_32()
    ensures
        pow2(32) == 0x100000000,
{
    reveal_with_fuel(pow2, 33);
}

/// Extending the layer prefix by one appends that layer's bytes.
proof fn lemma_concat_layers_snoc(layers: Seq<Seq<u8>>, i: int)
    requires
        0 <= i < layers.len(),
    ensures
        concat_layers(layers.take(i + 1)) == concat_layers(layers.take(i)) + layers[i],
    decreases i,
{
    if i == 0 {
        assert(layers.take(1).len() == 1);
        assert(layers.take(1).first() == layers[0]);
        assert(layers.take(1).drop_first() =~= Seq::<Seq<u8>>::empty());
        assert(layers.take(0) =~= Seq::<Seq<u8>>::empty());
        assert(concat_layers(Seq::<Seq<u8>>::empty()) == Seq::<u8>::empty());
        assert(concat_layers(layers.take(1)) == layers[0] + Seq::<u8>::empty());
        assert(layers[0] + Seq::<u8>::empty() =~= Seq::<u8>::empty() + layers[0]);
    } else {
        lemma_concat_layers_snoc(layers.drop_first(), i - 1);
        assert(layers.take(i + 1).drop_first() =~= layers.drop_first().take(i));
        assert(layers.take(i).drop_first() =~= layers.drop_first().take(i - 1));
        assert(layers.take(i + 1).first() == layers[0]);
        assert(layers.take(i).first() == layers[0]);
        assert(layers.drop_first()[i - 1] == layers[i]);
        assert(layers[0] + (concat_layers(layers.drop_first().take(i - 1)) + layers[i]) =~= (
        layers[0] + concat_layers(layers.drop_first().take(i - 1))) + layers[i]);
    }
}

} // verus!
