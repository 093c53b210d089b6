use ark_bls12_381::{Fr, G1Affine, G1Projective};
use ark_ec::hashing::curve_maps::wb::WBMap;
use ark_ec::hashing::map_to_curve_hasher::MapToCurveBasedHasher;
use ark_ec::hashing::HashToCurve;
use ark_ec::{AffineRepr, CurveGroup, Group};
use ark_ff::field_hashers::DefaultFieldHasher;
use ark_ff::PrimeField;
use ark_serialize::CanonicalSerialize;
use chaum_pedersen::bls12_381::{
    FrElement, G1Point, TinyBLS381, FQ_MODULUS_LIMBS, FR_MODULUS_LIMBS, HASH_TO_CURVE_DOMAIN,
};
use chaum_pedersen::chaum_pedersen_signature::{
    prove_with_witness, verify_dleq, ChaumPedersenSigner, ChaumPedersenVerifier,
};
use chaum_pedersen::engine::EngineBLS;
use chaum_pedersen::hash::{Sha256, Sha512};
use chaum_pedersen::keys::{Message, PublicKeyInSignatureGroup, SecretKeyVT, Signature};
use digest::Digest;

fn scalar(n: u64) -> FrElement {
    TinyBLS381::scalar_from_be_bytes_mod_order(&n.to_be_bytes())
}

fn ark_scalar_bytes(x: Fr) -> Vec<u8> {
    let mut out = Vec::new();
    x.serialize_compressed(&mut out).unwrap();
    out
}

fn ark_point_bytes(p: G1Projective) -> Vec<u8> {
    let mut out = Vec::new();
    p.into_affine().serialize_compressed(&mut out).unwrap();
    out
}

fn ark_message_point(message: &[u8]) -> G1Affine {
    MapToCurveBasedHasher::<
        G1Projective,
        DefaultFieldHasher<sha2::Sha256, 128>,
        WBMap<ark_bls12_381::g1::Config>,
    >::new(b"BLS12381G1_XMD:SHA-256_SSWU_RO_")
    .unwrap()
    .hash(message)
    .unwrap()
}

/// The proof as the arkworks types compute it, with the five encodings
/// hashed in the order that `order` gives.
fn arkworks_proof(x: Fr, message: &[u8], signature: G1Projective, order: [usize; 5]) -> (Fr, Fr) {
    let k = Fr::from_be_bytes_mod_order(
        &sha2::Sha256::new().chain_update(ark_scalar_bytes(x)).chain_update(message).finalize(),
    );
    let message_point: G1Projective = ark_message_point(message).into();
    let parts = [
        ark_point_bytes(message_point),
        ark_point_bytes(G1Projective::generator() * x),
        ark_point_bytes(signature),
        ark_point_bytes(G1Projective::generator() * k),
        ark_point_bytes(message_point * k),
    ];
    let mut hasher = sha2::Sha256::new();
    for i in order {
        hasher.update(&parts[i]);
    }
    let c = Fr::from_be_bytes_mod_order(&hasher.finalize());
    (c, k - c * x)
}

fn le_32(n: u64) -> Vec<u8> {
    let mut out = n.to_le_bytes().to_vec();
    out.resize(32, 0);
    out
}

const MODULUS_BE: [u8; 32] = [
    0x73, 0xed, 0xa7, 0x53, 0x29, 0x9d, 0x7d, 0x48, 0x33, 0x39, 0xd8, 0x08, 0x09, 0xa1, 0xd8, 0x05,
    0x53, 0xbd, 0xa4, 0x02, 0xff, 0xfe, 0x5b, 0xfe, 0xff, 0xff, 0xff, 0xff, 0x00, 0x00, 0x00, 0x01,
];

#[test]
fn scalar_bytes_are_little_endian() {
    assert_eq!(TinyBLS381::scalar_to_bytes(&scalar(0x0102)), le_32(0x0102));
    assert_eq!(TinyBLS381::scalar_to_bytes(&scalar(0)), vec![0; 32]);
}

#[test]
fn scalar_reduction_is_modulo_the_order() {
    assert_eq!(TinyBLS381::scalar_from_be_bytes_mod_order(&MODULUS_BE), scalar(0));
    let mut above = MODULUS_BE;
    above[31] += 5;
    assert_eq!(TinyBLS381::scalar_from_be_bytes_mod_order(&above), scalar(5));
    assert_eq!(TinyBLS381::scalar_from_be_bytes_mod_order(&[]), scalar(0));
    // 2^256 = 2·r + (2^256 − 2·r)
    let mut wide = vec![1u8];
    wide.extend_from_slice(&[0; 32]);
    let reduced = TinyBLS381::scalar_to_bytes(&TinyBLS381::scalar_from_be_bytes_mod_order(&wide));
    let expected = ark_scalar_bytes(Fr::from_be_bytes_mod_order(&wide));
    assert_eq!(reduced, expected);
    assert_ne!(reduced, vec![0; 32]);
}

#[test]
fn scalar_difference_wraps_below_zero() {
    let minus_one = TinyBLS381::scalar_sub(&scalar(0), &scalar(1));
    let mut expected = MODULUS_BE.to_vec();
    expected[31] -= 1;
    expected.reverse();
    assert_eq!(TinyBLS381::scalar_to_bytes(&minus_one), expected);
    assert_eq!(TinyBLS381::scalar_sub(&scalar(7), &scalar(3)), scalar(4));
}

#[test]
fn scalar_product() {
    assert_eq!(TinyBLS381::scalar_mul(&scalar(3), &scalar(5)), scalar(15));
    let minus_one = TinyBLS381::scalar_sub(&scalar(0), &scalar(1));
    assert_eq!(TinyBLS381::scalar_mul(&minus_one, &minus_one), scalar(1));
    assert_eq!(TinyBLS381::scalar_mul(&scalar(u64::MAX), &scalar(u64::MAX)),
        TinyBLS381::scalar_from_be_bytes_mod_order(&(u64::MAX as u128 * u64::MAX as u128).to_be_bytes()));
}

#[test]
fn scalar_equality_compares_every_limb() {
    assert!(TinyBLS381::scalar_eq(&scalar(9), &scalar(9)));
    assert!(!TinyBLS381::scalar_eq(&scalar(9), &scalar(10)));
    let high = TinyBLS381::scalar_from_be_bytes_mod_order(&[1, 0, 0, 0, 0, 0, 0, 0, 0, 0, 0, 0, 0, 0, 0, 0, 9]);
    assert!(!TinyBLS381::scalar_eq(&scalar(9), &high));
    let top = TinyBLS381::scalar_from_be_bytes_mod_order(&[
        1, 0, 0, 0, 0, 0, 0, 0, 0, 0, 0, 0, 0, 0, 0, 0, 0, 0, 0, 0, 0, 0, 0, 0, 0, 0, 0, 0, 0, 0, 9,
    ]);
    assert!(!TinyBLS381::scalar_eq(&scalar(9), &top));
    assert!(TinyBLS381::scalar_eq(&top, &top.clone()));
}

#[test]
fn zeroize_overwrites_every_limb() {
    let mut s = TinyBLS381::scalar_sub(&scalar(0), &scalar(1));
    TinyBLS381::scalar_zeroize(&mut s);
    assert_eq!(s, scalar(0));
    assert_eq!(TinyBLS381::scalar_to_bytes(&s), vec![0; 32]);
}

#[test]
fn generator_encoding() {
    let expected: Vec<u8> = vec![
        0x97, 0xf1, 0xd3, 0xa7, 0x31, 0x97, 0xd7, 0x94, 0x26, 0x95, 0x63, 0x8c, 0x4f, 0xa9, 0xac,
        0x0f, 0xc3, 0x68, 0x8c, 0x4f, 0x97, 0x74, 0xb9, 0x05, 0xa1, 0x4e, 0x3a, 0x3f, 0x17, 0x1b,
        0xac, 0x58, 0x6c, 0x55, 0xe8, 0x3f, 0xf9, 0x7a, 0x1a, 0xef, 0xfb, 0x3a, 0xf0, 0x0a, 0xdb,
        0x22, 0xc6, 0xbb,
    ];
    assert_eq!(TinyBLS381::signature_point_to_byte(&TinyBLS381::generator()), expected);
}

#[test]
fn point_product_and_sum_agree_with_arkworks() {
    let g = TinyBLS381::generator();
    let seven = TinyBLS381::point_mul(&g, &scalar(7));
    assert_ne!(seven, g);
    assert_eq!(
        TinyBLS381::signature_point_to_byte(&seven),
        ark_point_bytes(G1Projective::generator() * Fr::from(7u64))
    );
    let eight = TinyBLS381::point_add(&seven, &g);
    assert_ne!(eight, seven);
    assert_eq!(eight, TinyBLS381::point_mul(&g, &scalar(8)));
    let double = TinyBLS381::point_add(&g, &g);
    assert_eq!(double, TinyBLS381::point_mul(&g, &scalar(2)));
}

#[test]
fn point_at_infinity() {
    let g = TinyBLS381::generator();
    let zero = TinyBLS381::point_mul(&g, &scalar(0));
    let mut expected = vec![0u8; 48];
    expected[0] = 0xc0;
    assert_eq!(TinyBLS381::signature_point_to_byte(&zero), expected);
    assert_eq!(TinyBLS381::point_add(&zero, &g), g);
    let minus_g = TinyBLS381::point_mul(&g, &TinyBLS381::scalar_sub(&scalar(0), &scalar(1)));
    assert_eq!(TinyBLS381::point_add(&g, &minus_g), zero);
}

#[test]
fn domain_tag() {
    assert_eq!(&HASH_TO_CURVE_DOMAIN[..], b"BLS12381G1_XMD:SHA-256_SSWU_RO_");
}

#[test]
fn message_point_agrees_with_arkworks() {
    for message in [&b""[..], b"abc", b"a longer message, of more than one block of the digest, to be mapped"] {
        let point: G1Point = TinyBLS381::hash_to_signature_curve(message);
        assert_eq!(
            TinyBLS381::signature_point_to_byte(&point),
            ark_point_bytes(ark_message_point(message).into())
        );
    }
    assert_ne!(
        TinyBLS381::hash_to_signature_curve(b"one"),
        TinyBLS381::hash_to_signature_curve(b"two")
    );
}

#[test]
fn signature_and_public_key() {
    let key = SecretKeyVT::<TinyBLS381>(scalar(3));
    let message = Message(b"to be signed".to_vec());
    let signature = key.sign(&message);
    let message_point = TinyBLS381::hash_to_signature_curve(b"to be signed");
    assert_eq!(signature.0, TinyBLS381::point_mul(&message_point, &scalar(3)));
    let public_key = key.into_public_key_in_signature_group();
    assert_eq!(public_key.0, TinyBLS381::point_mul(&TinyBLS381::generator(), &scalar(3)));
}

#[test]
fn proof_agrees_with_arkworks() {
    let x = Fr::from(0x1234_5678_9abc_def0u64);
    let message = b"proof of possession";
    let signature: G1Projective = ark_message_point(message) * x;
    let (c, s) = arkworks_proof(x, message, signature, [0, 1, 2, 3, 4]);

    let mut key = SecretKeyVT::<TinyBLS381>(scalar(0x1234_5678_9abc_def0));
    let bundle = ChaumPedersenSigner::<TinyBLS381, Sha256>::generate_cp_signature(
        &mut key,
        &Message(message.to_vec()),
    );
    assert_eq!(TinyBLS381::signature_point_to_byte(&bundle.0 .0), ark_point_bytes(signature));
    assert_eq!(TinyBLS381::scalar_to_bytes(&bundle.1 .0), ark_scalar_bytes(c));
    assert_eq!(TinyBLS381::scalar_to_bytes(&bundle.1 .1), ark_scalar_bytes(s));
    assert_eq!(key.0, scalar(0x1234_5678_9abc_def0));
}

#[test]
fn curve_signature_with_proof_is_accepted() {
    for (secret, text) in [(1u64, &b""[..]), (3, b"abc"), (u64::MAX, b"another message")] {
        let mut key = SecretKeyVT::<TinyBLS381>(scalar(secret));
        let message = Message(text.to_vec());
        let bundle =
            ChaumPedersenSigner::<TinyBLS381, Sha256>::generate_cp_signature(&mut key, &message);
        let public_key = key.into_public_key_in_signature_group();
        assert!(ChaumPedersenVerifier::<TinyBLS381, Sha256>::verify_cp_signature(
            &public_key,
            &message,
            bundle
        ));
    }
}

#[test]
fn curve_proof_is_the_same_each_time() {
    let mut key = SecretKeyVT::<TinyBLS381>(scalar(77));
    let message = Message(b"twice".to_vec());
    let signature = key.sign(&message);
    let first = ChaumPedersenSigner::<TinyBLS381, Sha256>::generate_dleq_proof(
        &mut key,
        &message,
        signature.0.clone(),
    );
    let second = ChaumPedersenSigner::<TinyBLS381, Sha256>::generate_dleq_proof(
        &mut key,
        &message,
        signature.0.clone(),
    );
    assert_eq!(first, second);
    let witness = ChaumPedersenSigner::<TinyBLS381, Sha256>::generate_witness_scaler(&key, &message);
    let again = ChaumPedersenSigner::<TinyBLS381, Sha256>::generate_witness_scaler(&key, &message);
    assert_eq!(witness, again);
    assert_ne!(witness, scalar(0));
}

#[test]
fn curve_proof_with_a_changed_part_is_rejected() {
    let mut key = SecretKeyVT::<TinyBLS381>(scalar(3));
    let message = Message(b"abc".to_vec());
    let (signature, (c, s)) =
        ChaumPedersenSigner::<TinyBLS381, Sha256>::generate_cp_signature(&mut key, &message);
    let public_key = key.into_public_key_in_signature_group();
    let verify = |key: &PublicKeyInSignatureGroup<TinyBLS381>, message: &Message, point: &G1Point, c: &FrElement, s: &FrElement| {
        ChaumPedersenVerifier::<TinyBLS381, Sha256>::verify_cp_signature(
            key,
            message,
            (Signature(point.clone()), (c.clone(), s.clone())),
        )
    };
    assert!(verify(&public_key, &message, &signature.0, &c, &s));

    let one = scalar(1);
    assert!(!verify(&public_key, &message, &signature.0, &TinyBLS381::scalar_sub(&c, &one), &s));
    assert!(!verify(&public_key, &message, &signature.0, &c, &TinyBLS381::scalar_sub(&s, &one)));
    for bit in [0usize, 7, 64, 200] {
        let mut c_bytes = TinyBLS381::scalar_to_bytes(&c);
        c_bytes[bit / 8] ^= 1 << (bit % 8);
        c_bytes.reverse();
        let flipped = TinyBLS381::scalar_from_be_bytes_mod_order(&c_bytes);
        assert!(!verify(&public_key, &message, &signature.0, &flipped, &s));
        let mut s_bytes = TinyBLS381::scalar_to_bytes(&s);
        s_bytes[bit / 8] ^= 1 << (bit % 8);
        s_bytes.reverse();
        let flipped = TinyBLS381::scalar_from_be_bytes_mod_order(&s_bytes);
        assert!(!verify(&public_key, &message, &signature.0, &c, &flipped));
    }

    let other_key = SecretKeyVT::<TinyBLS381>(scalar(4)).into_public_key_in_signature_group();
    assert!(!verify(&other_key, &message, &signature.0, &c, &s));
    let other_signature = SecretKeyVT::<TinyBLS381>(scalar(4)).sign(&message);
    assert!(!verify(&public_key, &message, &other_signature.0, &c, &s));
    assert!(!verify(&public_key, &Message(b"abd".to_vec()), &signature.0, &c, &s));
}

#[test]
fn curve_prover_that_hashes_in_another_order_is_rejected() {
    let x = Fr::from(3u64);
    let message = b"abc";
    let signature: G1Projective = ark_message_point(message) * x;
    let to_scalar = |f: Fr| {
        let mut bytes = ark_scalar_bytes(f);
        bytes.reverse();
        TinyBLS381::scalar_from_be_bytes_mod_order(&bytes)
    };
    let public_key = SecretKeyVT::<TinyBLS381>(scalar(3)).into_public_key_in_signature_group();
    let message_point = TinyBLS381::hash_to_signature_curve(message);
    let signature_point = TinyBLS381::point_mul(&message_point, &scalar(3));

    let (c, s) = arkworks_proof(x, message, signature, [0, 1, 2, 3, 4]);
    assert!(verify_dleq::<TinyBLS381, Sha256>(
        &public_key.0,
        &message_point,
        &signature_point,
        &(to_scalar(c), to_scalar(s))
    ));
    // the signature hashed before the public key
    let (c, s) = arkworks_proof(x, message, signature, [0, 2, 1, 3, 4]);
    assert!(!verify_dleq::<TinyBLS381, Sha256>(
        &public_key.0,
        &message_point,
        &signature_point,
        &(to_scalar(c), to_scalar(s))
    ));
}

#[test]
fn curve_witness_is_zero_after_the_proof() {
    let mut witness = scalar(7);
    let secret = scalar(3);
    let message_point = TinyBLS381::hash_to_signature_curve(b"abc");
    let signature = TinyBLS381::point_mul(&message_point, &secret);
    let proof =
        prove_with_witness::<TinyBLS381, Sha256>(&mut witness, &secret, &message_point, &signature);
    assert_eq!(witness, scalar(0));
    let public_key = TinyBLS381::point_mul(&TinyBLS381::generator(), &secret);
    assert!(verify_dleq::<TinyBLS381, Sha256>(&public_key, &message_point, &signature, &proof));
}

#[test]
fn modulus_limbs_agree_with_arkworks() {
    assert_eq!(FR_MODULUS_LIMBS, Fr::MODULUS.0);
    assert_eq!(FQ_MODULUS_LIMBS, ark_bls12_381::Fq::MODULUS.0);
}

#[test]
fn scalar_from_limbs_asks_for_a_reduced_integer() {
    assert_eq!(FrElement::from_limbs([5, 0, 0, 0]), Some(scalar(5)));
    assert_eq!(FrElement::from_limbs([0, 0, 0, 0]), Some(scalar(0)));
    assert_eq!(FrElement::from_limbs(FR_MODULUS_LIMBS), None);
    assert_eq!(FrElement::from_limbs([u64::MAX; 4]), None);
    let mut below = FR_MODULUS_LIMBS;
    below[0] -= 1;
    let minus_one = TinyBLS381::scalar_sub(&scalar(0), &scalar(1));
    assert_eq!(FrElement::from_limbs(below), Some(minus_one));
    let mut above = FR_MODULUS_LIMBS;
    above[0] += 1;
    assert_eq!(FrElement::from_limbs(above), None);
    // a lower limb above the modulus's, under a higher limb below it
    assert!(FrElement::from_limbs([u64::MAX, u64::MAX, u64::MAX, 0x73eda753299d7d47]).is_some());
    assert!(FrElement::from_limbs([0, 0, 0, 0x73eda753299d7d49]).is_none());
}

#[test]
fn scalar_limbs_are_least_significant_first() {
    assert_eq!(scalar(7).to_limbs(), [7, 0, 0, 0]);
    let wide = TinyBLS381::scalar_from_be_bytes_mod_order(&[1, 0, 0, 0, 0, 0, 0, 0, 0]);
    assert_eq!(wide.to_limbs(), [0, 1, 0, 0]);
    assert_eq!(FrElement::from_limbs(wide.to_limbs()), Some(wide));
}

#[test]
fn point_from_limbs_asks_for_reduced_coordinates() {
    let g = G1Affine::generator();
    let (x, y) = (g.x.into_bigint().0, g.y.into_bigint().0);
    assert_eq!(G1Point::from_limbs(x, y, false), Some(TinyBLS381::generator()));
    assert_eq!(TinyBLS381::generator().to_limbs(), (x, y, false));
    assert_eq!(G1Point::from_limbs(FQ_MODULUS_LIMBS, y, false), None);
    assert_eq!(G1Point::from_limbs(x, FQ_MODULUS_LIMBS, false), None);
    assert_eq!(G1Point::from_limbs(x, [u64::MAX; 6], true), None);
    let zero = TinyBLS381::point_mul(&TinyBLS381::generator(), &scalar(0));
    assert_eq!(G1Point::from_limbs([0; 6], [0; 6], true), Some(zero));
}

#[test]
fn generator_coordinates() {
    // the coordinates of the generator, most significant limb last
    let (x, y, infinity) = TinyBLS381::generator().to_limbs();
    assert!(!infinity);
    assert_eq!(
        x,
        [
            0xfb3af00adb22c6bb,
            0x6c55e83ff97a1aef,
            0xa14e3a3f171bac58,
            0xc3688c4f9774b905,
            0x2695638c4fa9ac0f,
            0x17f1d3a73197d794
        ]
    );
    assert_eq!(
        y,
        [
            0x0caa232946c5e7e1,
            0xd03cc744a2888ae4,
            0x00db18cb2c04b3ed,
            0xfcf5e095d5d00af6,
            0xa09e30ed741d8ae4,
            0x08b3f481e3aaa0f1
        ]
    );
}

#[test]
fn curve_proof_with_the_wider_digest() {
    let mut key = SecretKeyVT::<TinyBLS381>(scalar(3));
    let message = Message(b"abc".to_vec());
    let narrow = ChaumPedersenSigner::<TinyBLS381, Sha256>::generate_cp_signature(&mut key, &message);
    let wide = ChaumPedersenSigner::<TinyBLS381, Sha512>::generate_cp_signature(&mut key, &message);
    assert_eq!(narrow.0 .0, wide.0 .0);
    assert_ne!(narrow.1, wide.1);
    let public_key = key.into_public_key_in_signature_group();
    let for_narrow = (Signature(wide.0 .0.clone()), wide.1.clone());
    assert!(ChaumPedersenVerifier::<TinyBLS381, Sha512>::verify_cp_signature(&public_key, &message, wide));
    assert!(!ChaumPedersenVerifier::<TinyBLS381, Sha256>::verify_cp_signature(
        &public_key,
        &message,
        for_narrow
    ));
}
