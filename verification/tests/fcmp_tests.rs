use fcmp::{
    fcmp_cleanup, fcmp_error_string, fcmp_hash_to_point, fcmp_hash_to_scalar, fcmp_init,
    fcmp_is_initialized, fcmp_pedersen_commit, fcmp_point_add, fcmp_point_basepoint,
    fcmp_point_is_valid, fcmp_point_mul, fcmp_proof_size, fcmp_prove, fcmp_scalar_add,
    fcmp_scalar_mul, fcmp_scalar_random, fcmp_verify, FcmpBranch, FcmpBranchLayer, FcmpInput,
    FcmpParams, FCMP_ERROR_INVALID_PARAM, FCMP_ERROR_INVALID_POINT, FCMP_ERROR_MEMORY,
    FCMP_ERROR_NOT_INITIALIZED, FCMP_ERROR_PROOF_VERIFICATION, FCMP_SUCCESS,
};

fn scalar_from_first_byte(b: u8) -> Vec<u8> {
    let mut s = vec![0u8; 32];
    s[0] = b;
    s
}

#[test]
fn test_init_cleanup() {
    let mut params: Option<FcmpParams> = None;
    assert_eq!(fcmp_init(&mut params), FCMP_SUCCESS);
    assert_eq!(fcmp_is_initialized(&params), 1);
    fcmp_cleanup(&mut params);
    assert_eq!(fcmp_is_initialized(&params), 0);
}

#[test]
fn test_init_is_idempotent() {
    let mut params: Option<FcmpParams> = None;
    assert_eq!(fcmp_init(&mut params), FCMP_SUCCESS);
    assert_eq!(fcmp_init(&mut params), FCMP_SUCCESS);
    assert_eq!(fcmp_is_initialized(&params), 1);
    fcmp_cleanup(&mut params);
    fcmp_cleanup(&mut params);
    assert_eq!(fcmp_is_initialized(&params), 0);
}

#[test]
fn test_point_operations() {
    let basepoint = fcmp_point_basepoint();
    assert_eq!(fcmp_point_is_valid(&basepoint), 1);

    // Scalar mul: 2 * G
    let two = [2u8, 0, 0, 0, 0, 0, 0, 0, 0, 0, 0, 0, 0, 0, 0, 0,
               0, 0, 0, 0, 0, 0, 0, 0, 0, 0, 0, 0, 0, 0, 0, 0];
    let two_g = fcmp_point_mul(&two, &basepoint).unwrap();
    assert_eq!(fcmp_point_is_valid(&two_g), 1);

    // G + G should equal 2*G
    let g_plus_g = fcmp_point_add(&basepoint, &basepoint).unwrap();
    assert_eq!(two_g, g_plus_g);

    // Doubling moves the point: the operations do more than echo an input.
    assert_ne!(two_g, basepoint);

    // Addition commutes.
    let g_plus_2g = fcmp_point_add(&basepoint, &two_g).unwrap();
    let two_g_plus_g = fcmp_point_add(&two_g, &basepoint).unwrap();
    assert_eq!(g_plus_2g, two_g_plus_g);
}

#[test]
fn test_point_basepoint_encoding() {
    let basepoint = fcmp_point_basepoint();
    let mut expected = vec![0x66u8; 32];
    expected[0] = 0x58;
    assert_eq!(basepoint, expected);
}

#[test]
fn test_point_wrong_sizes() {
    let basepoint = fcmp_point_basepoint();
    let short = [1u8; 16];
    assert_eq!(fcmp_point_is_valid(&short), 0);
    assert_eq!(
        fcmp_point_mul(&short, &basepoint).unwrap_err(),
        FCMP_ERROR_INVALID_PARAM
    );
    assert_eq!(
        fcmp_point_add(&basepoint, &short).unwrap_err(),
        FCMP_ERROR_INVALID_PARAM
    );
}

#[test]
fn test_point_invalid_encoding() {
    // Roughly half of all 32-byte strings decompress; walk the first byte
    // until one does not, then feed it to the algebraic operations.
    let basepoint = fcmp_point_basepoint();
    let mut bad: Option<Vec<u8>> = None;
    for k in 0..=255u8 {
        let candidate = scalar_from_first_byte(k);
        if fcmp_point_is_valid(&candidate) == 0 {
            bad = Some(candidate);
            break;
        }
    }
    let bad = bad.expect("some single-byte y-coordinate must be off the curve");
    let two = scalar_from_first_byte(2);
    assert_eq!(
        fcmp_point_mul(&two, &bad).unwrap_err(),
        FCMP_ERROR_INVALID_POINT
    );
    assert_eq!(
        fcmp_point_add(&basepoint, &bad).unwrap_err(),
        FCMP_ERROR_INVALID_POINT
    );
}

#[test]
fn test_hash_to_point() {
    let data = b"test data";
    let point = fcmp_hash_to_point(data).unwrap();
    assert_eq!(fcmp_point_is_valid(&point), 1);

    // Same input should give same output
    let point2 = fcmp_hash_to_point(data).unwrap();
    assert_eq!(point, point2);

    // Different input should give different output
    let data2 = b"other data";
    let point3 = fcmp_hash_to_point(data2).unwrap();
    assert_ne!(point, point3);
}

#[test]
fn test_pedersen_commit() {
    let value = [42u8, 0, 0, 0, 0, 0, 0, 0, 0, 0, 0, 0, 0, 0, 0, 0,
                 0, 0, 0, 0, 0, 0, 0, 0, 0, 0, 0, 0, 0, 0, 0, 0];
    let blinding = [1u8, 0, 0, 0, 0, 0, 0, 0, 0, 0, 0, 0, 0, 0, 0, 0,
                    0, 0, 0, 0, 0, 0, 0, 0, 0, 0, 0, 0, 0, 0, 0, 0];

    let commitment = fcmp_pedersen_commit(&value, &blinding).unwrap();
    assert_eq!(fcmp_point_is_valid(&commitment), 1);

    // Same inputs should give same commitment
    let commitment2 = fcmp_pedersen_commit(&value, &blinding).unwrap();
    assert_eq!(commitment, commitment2);
}

#[test]
fn test_pedersen_commit_blinding_changes_point() {
    let value = scalar_from_first_byte(42);
    let blinding1 = scalar_from_first_byte(1);
    let blinding2 = scalar_from_first_byte(2);
    let c1 = fcmp_pedersen_commit(&value, &blinding1).unwrap();
    let c2 = fcmp_pedersen_commit(&value, &blinding2).unwrap();
    assert_ne!(c1, c2);
    assert_eq!(
        fcmp_pedersen_commit(&value, &blinding1[..16]).unwrap_err(),
        FCMP_ERROR_INVALID_PARAM
    );
}

#[test]
fn test_scalar_add_simple() {
    let a = scalar_from_first_byte(2);
    let b = scalar_from_first_byte(3);
    let r = fcmp_scalar_add(&a, &b).unwrap();
    assert_eq!(r, scalar_from_first_byte(5));
}

#[test]
fn test_scalar_add_carry_chain_wraps_to_zero() {
    // 2^256 - 1 plus 1 carries through every byte; the final mask clears
    // the surviving top bit, leaving zero.
    let a = vec![0xffu8; 32];
    let b = scalar_from_first_byte(1);
    let r = fcmp_scalar_add(&a, &b).unwrap();
    assert_eq!(r, vec![0u8; 32]);
}

#[test]
fn test_scalar_add_commutes() {
    let mut a = vec![0u8; 32];
    let mut b = vec![0u8; 32];
    for i in 0..32 {
        a[i] = (i as u8).wrapping_mul(37).wrapping_add(11);
        b[i] = (i as u8).wrapping_mul(101).wrapping_add(3);
    }
    let ab = fcmp_scalar_add(&a, &b).unwrap();
    let ba = fcmp_scalar_add(&b, &a).unwrap();
    assert_eq!(ab, ba);
    assert_eq!(
        fcmp_scalar_add(&a[..31], &b).unwrap_err(),
        FCMP_ERROR_INVALID_PARAM
    );
}

#[test]
fn test_scalar_mul_xor_placeholder() {
    let a = vec![0xffu8; 32];
    let b = vec![0x0fu8; 32];
    let r = fcmp_scalar_mul(&a, &b).unwrap();
    let mut expected = vec![0xf0u8; 32];
    expected[31] = 0x70;
    assert_eq!(r, expected);
    assert_eq!(
        fcmp_scalar_mul(&a, &b[..8]).unwrap_err(),
        FCMP_ERROR_INVALID_PARAM
    );
}

#[test]
fn test_scalar_reduce() {
    let mut buf = vec![0u8; 32];
    for i in 0..32 {
        buf[i] = 0xe0 + i as u8;
    }
    let reduced = fcmp::scalar_reduce(&buf);
    let mut expected = buf.clone();
    expected[31] = 0xff & 0x7f;
    assert_eq!(reduced, expected);

    // A value already in range passes through unchanged.
    let small = scalar_from_first_byte(9);
    assert_eq!(fcmp::scalar_reduce(&small), small);
}

#[test]
fn test_scalar_random() {
    let s1 = fcmp_scalar_random().unwrap();
    let s2 = fcmp_scalar_random().unwrap();
    assert_eq!(s1.len(), 32);
    assert_eq!(s2.len(), 32);
    assert!(s1[31] < 0x80);
    assert!(s2[31] < 0x80);
    assert_ne!(s1, s2);
}

#[test]
fn test_hash_to_scalar() {
    let s1 = fcmp_hash_to_scalar(b"test data");
    let s2 = fcmp_hash_to_scalar(b"test data");
    let s3 = fcmp_hash_to_scalar(b"other data");
    assert_eq!(s1.len(), 32);
    assert!(s1[31] < 0x80);
    assert_eq!(s1, s2);
    assert_ne!(s1, s3);
    assert_ne!(s1, vec![0u8; 32]);
}

#[test]
fn test_proof_size_zero_cases() {
    assert_eq!(fcmp_proof_size(0, 7), 0);
    assert_eq!(fcmp_proof_size(5, 0), 0);
    assert_eq!(fcmp_proof_size(0, 0), 0);
}

#[test]
fn test_proof_size_exact_values() {
    // base 512 + 64 * bit_len(layers) + 32 * inputs * layers + 64
    assert_eq!(fcmp_proof_size(1, 1), 512 + 64 + 32 + 64);
    assert_eq!(fcmp_proof_size(2, 4), 512 + 64 * 3 + 32 * 2 * 4 + 64);
}

#[test]
fn test_proof_size_monotonic_samples() {
    assert!(fcmp_proof_size(1, 1) <= fcmp_proof_size(1, 2));
    assert!(fcmp_proof_size(1, 2) <= fcmp_proof_size(3, 2));
    assert!(fcmp_proof_size(3, 2) <= fcmp_proof_size(4, 9));
}

fn sample_branch() -> FcmpBranch {
    let mut elements = vec![0u8; 64];
    elements[0] = 7;
    elements[32] = 9;
    FcmpBranch {
        leaf_index: 3,
        layers: vec![
            FcmpBranchLayer { elements },
            FcmpBranchLayer { elements: vec![1u8; 32] },
        ],
    }
}

fn sample_input() -> FcmpInput {
    FcmpInput {
        o_tilde: [1u8; 64],
        i_tilde: [2u8; 64],
        r: [3u8; 64],
        c_tilde: [4u8; 64],
    }
}

#[test]
fn test_prove_and_verify_roundtrip() {
    let mut params: Option<FcmpParams> = None;
    fcmp_init(&mut params);
    let root = [5u8; 32];
    let output = [6u8; 96];
    let branch = sample_branch();
    let proof = fcmp_prove(&params, &root, &output, &branch, 1024).unwrap();
    assert_eq!(proof.len(), 64);
    // Deterministic binding.
    let proof2 = fcmp_prove(&params, &root, &output, &branch, 64).unwrap();
    assert_eq!(proof, proof2);
    assert_eq!(
        fcmp_verify(&params, &root, &sample_input(), &proof),
        FCMP_SUCCESS
    );
}

#[test]
fn test_prove_errors() {
    let mut params: Option<FcmpParams> = None;
    let root = [5u8; 32];
    let output = [6u8; 96];
    let branch = sample_branch();
    assert_eq!(
        fcmp_prove(&params, &root, &output, &branch, 1024).unwrap_err(),
        FCMP_ERROR_NOT_INITIALIZED
    );
    // The state is checked before any other input.
    assert_eq!(
        fcmp_prove(&params, &root[..8], &output, &branch, 1024).unwrap_err(),
        FCMP_ERROR_NOT_INITIALIZED
    );
    fcmp_init(&mut params);
    assert_eq!(
        fcmp_prove(&params, &root[..8], &output, &branch, 1024).unwrap_err(),
        FCMP_ERROR_INVALID_PARAM
    );
    let empty_branch = FcmpBranch { leaf_index: 0, layers: Vec::new() };
    assert_eq!(
        fcmp_prove(&params, &root, &output, &empty_branch, 1024).unwrap_err(),
        FCMP_ERROR_INVALID_PARAM
    );
    assert_eq!(
        fcmp_prove(&params, &root, &output, &branch, 10).unwrap_err(),
        FCMP_ERROR_MEMORY
    );
}

#[test]
fn test_verify_boundaries() {
    let mut params: Option<FcmpParams> = None;
    let root = [5u8; 32];
    let input = sample_input();
    let proof = [1u8; 64];
    assert_eq!(
        fcmp_verify(&params, &root, &input, &proof),
        FCMP_ERROR_NOT_INITIALIZED
    );
    fcmp_init(&mut params);
    // Shorter than the scheme minimum: rejected, never a crash or success.
    assert_eq!(
        fcmp_verify(&params, &root, &input, &proof[..10]),
        FCMP_ERROR_INVALID_PARAM
    );
    // The all-zero buffer is rejected.
    let zeros = [0u8; 64];
    assert_eq!(
        fcmp_verify(&params, &root, &input, &zeros),
        FCMP_ERROR_PROOF_VERIFICATION
    );
    assert_eq!(fcmp_verify(&params, &root, &input, &proof), FCMP_SUCCESS);
}

#[test]
fn test_version_and_error_strings() {
    assert_eq!(fcmp::fcmp_version(), "0.1.0");
    assert_eq!(fcmp_error_string(FCMP_SUCCESS), "Success");
    assert_eq!(fcmp_error_string(FCMP_ERROR_INVALID_PARAM), "Invalid parameter");
    assert_eq!(
        fcmp_error_string(fcmp::FCMP_ERROR_PROOF_GENERATION),
        "Proof generation failed"
    );
    assert_eq!(
        fcmp_error_string(FCMP_ERROR_PROOF_VERIFICATION),
        "Proof verification failed"
    );
    assert_eq!(fcmp_error_string(FCMP_ERROR_MEMORY), "Memory allocation failed");
    assert_eq!(fcmp_error_string(FCMP_ERROR_INVALID_POINT), "Invalid curve point");
    assert_eq!(
        fcmp_error_string(fcmp::FCMP_ERROR_INVALID_SCALAR),
        "Invalid scalar"
    );
    assert_eq!(
        fcmp_error_string(FCMP_ERROR_NOT_INITIALIZED),
        "Library not initialized"
    );
    assert_eq!(fcmp_error_string(fcmp::FCMP_ERROR_INTERNAL), "Internal error");
    assert_eq!(fcmp_error_string(123), "Unknown error");
}
