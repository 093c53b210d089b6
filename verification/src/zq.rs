//! The integers modulo a prime, written additively: a group small enough to
//! follow a proof by hand.
//!
//! The point `n·G` is held as the residue `n`, so the generator is 1, adding
//! points adds residues and multiplying a point by a scalar multiplies
//! residues. Discrete logarithms are plain to read here: the engine is for
//! checking the protocol, not for keeping secrets.
use vstd::prelude::*;
use vstd::arithmetic::div_mod::{
    lemma_add_mod_noop, lemma_mod_add_multiples_vanish, lemma_mod_bound, lemma_mul_mod_noop_left,
    lemma_mul_mod_noop_right,
};
use vstd::arithmetic::mul::{
    lemma_mul_is_associative, lemma_mul_is_commutative, lemma_mul_is_distributive_sub,
};
use crate::bytes::{
    be_bytes, be_nat, lemma_be_bytes_injective, lemma_be_bytes_len, pow256, reduce_be_bytes,
    u64_to_be_bytes,
};
use crate::engine::{EngineBLS, LawfulEngine};

verus! {

/// The order of the group and of its scalar field: the prime 2^31 − 1.
pub const ORDER: u64 = 2147483647;

/// A scalar: a residue below [`ORDER`].
#[derive(Clone, Copy, Debug, PartialEq, Eq)]
pub struct ZqScalar(pub u64);

/// A point: the residue `n` stands for `n·G`.
#[derive(Clone, Copy, Debug, PartialEq, Eq)]
pub struct ZqPoint(pub u64);

/// The engine of the integers modulo [`ORDER`].
pub struct Zq;

/// The residue of `n`.
pub open spec fn residue(n: int) -> u64 {
    (n % (ORDER as int)) as u64
}

/// Calls `zeroize::Zeroize::zeroize` on a `u64`, which overwrites it with 0.
#[verifier::external_body]
fn zeroize_u64(word: &mut u64)
    ensures
        *final(word) == 0,
{
    zeroize::Zeroize::zeroize(word);
}

impl ZqScalar {
    /// The scalar that `value` reduces to.
    pub fn new(value: u64) -> (s: ZqScalar)
        ensures
            s.0 == residue(value as int),
            Zq::scalar_wf(&s),
    {
        ZqScalar(value % ORDER)
    }
}

impl ZqPoint {
    /// The point `value·G`.
    pub fn new(value: u64) -> (p: ZqPoint)
        ensures
            p.0 == residue(value as int),
            Zq::point_wf(&p),
    {
        ZqPoint(value % ORDER)
    }
}

impl EngineBLS for Zq {
    type Scalar = ZqScalar;

    type SignatureGroup = ZqPoint;

    open spec fn scalar_wf(s: &ZqScalar) -> bool {
        s.0 < ORDER
    }

    open spec fn point_wf(p: &ZqPoint) -> bool {
        p.0 < ORDER
    }

    open spec fn spec_scalar_zero() -> ZqScalar {
        ZqScalar(0)
    }

    open spec fn spec_scalar_from_be_bytes_mod_order(bytes: Seq<u8>) -> ZqScalar {
        ZqScalar(residue(be_nat(bytes) as int))
    }

    open spec fn spec_scalar_sub(a: ZqScalar, b: ZqScalar) -> ZqScalar {
        ZqScalar(residue(a.0 - b.0))
    }

    open spec fn spec_scalar_mul(a: ZqScalar, b: ZqScalar) -> ZqScalar {
        ZqScalar(residue(a.0 * b.0))
    }

    open spec fn spec_scalar_to_bytes(s: ZqScalar) -> Seq<u8> {
        be_bytes(s.0 as nat, 8)
    }

    open spec fn spec_generator() -> ZqPoint {
        ZqPoint(1)
    }

    open spec fn spec_point_mul(p: ZqPoint, k: ZqScalar) -> ZqPoint {
        ZqPoint(residue(p.0 * k.0))
    }

    open spec fn spec_point_add(a: ZqPoint, b: ZqPoint) -> ZqPoint {
        ZqPoint(residue(a.0 + b.0))
    }

    open spec fn spec_signature_point_to_byte(p: ZqPoint) -> Seq<u8> {
        be_bytes(p.0 as nat, 8)
    }

    open spec fn spec_hash_to_signature_curve(message: Seq<u8>) -> ZqPoint {
        ZqPoint(residue(be_nat(message) as int))
    }

    fn scalar_from_be_bytes_mod_order(bytes: &[u8]) -> (r: ZqScalar) {
        ZqScalar(reduce_be_bytes(bytes, ORDER))
    }

    fn scalar_sub(a: &ZqScalar, b: &ZqScalar) -> (r: ZqScalar) {
        proof {
            lemma_mod_add_multiples_vanish(a.0 - b.0, ORDER as int);
        }
        ZqScalar((a.0 + (ORDER - b.0)) % ORDER)
    }

    fn scalar_mul(a: &ZqScalar, b: &ZqScalar) -> (r: ZqScalar) {
        proof {
            assert(a.0 * b.0 <= 2147483646 * 2147483646) by (nonlinear_arith)
                requires
                    a.0 <= 2147483646,
                    b.0 <= 2147483646,
            ;
        }
        ZqScalar((a.0 * b.0) % ORDER)
    }

    fn scalar_eq(a: &ZqScalar, b: &ZqScalar) -> (r: bool) {
        a.0 == b.0
    }

    fn scalar_to_bytes(s: &ZqScalar) -> (out: Vec<u8>) {
        u64_to_be_bytes(s.0)
    }

    fn scalar_zeroize(s: &mut ZqScalar) {
        zeroize_u64(&mut s.0);
    }

    fn generator() -> (g: ZqPoint) {
        ZqPoint(1)
    }

    fn point_mul(p: &ZqPoint, k: &ZqScalar) -> (r: ZqPoint) {
        proof {
            assert(p.0 * k.0 <= 2147483646 * 2147483646) by (nonlinear_arith)
                requires
                    p.0 <= 2147483646,
                    k.0 <= 2147483646,
            ;
        }
        ZqPoint((p.0 * k.0) % ORDER)
    }

    fn point_add(a: &ZqPoint, b: &ZqPoint) -> (r: ZqPoint) {
        ZqPoint((a.0 + b.0) % ORDER)
    }

    fn signature_point_to_byte(p: &ZqPoint) -> (out: Vec<u8>) {
        u64_to_be_bytes(p.0)
    }

    fn hash_to_signature_curve(message: &[u8]) -> (r: ZqPoint) {
        ZqPoint(reduce_be_bytes(message, ORDER))
    }
}

impl LawfulEngine for Zq {
    proof fn lemma_scalars_closed(a: ZqScalar, b: ZqScalar) {
        lemma_mod_bound(a.0 - b.0, ORDER as int);
        lemma_mod_bound(a.0 * b.0, ORDER as int);
    }

    proof fn lemma_reduced_is_scalar(bytes: Seq<u8>) {
        lemma_mod_bound(be_nat(bytes) as int, ORDER as int);
    }

    proof fn lemma_points(message: Seq<u8>) {
        lemma_mod_bound(be_nat(message) as int, ORDER as int);
    }

    proof fn lemma_point_encoding(p: ZqPoint, q: ZqPoint) {
        lemma_be_bytes_len(p.0 as nat, 8);
        lemma_be_bytes_len(q.0 as nat, 8);
        assert(pow256(8) == 0x1_0000_0000_0000_0000) by {
            reveal_with_fuel(pow256, 9);
        }
        if be_bytes(p.0 as nat, 8) == be_bytes(q.0 as nat, 8) {
            lemma_be_bytes_injective(p.0 as nat, q.0 as nat, 8);
        }
    }

    proof fn lemma_mul_mul(p: ZqPoint, x: ZqScalar, c: ZqScalar) {
        let q = ORDER as int;
        let (p, x, c) = (p.0 as int, x.0 as int, c.0 as int);
        lemma_mod_bound(p * x, q);
        lemma_mod_bound(c * x, q);
        // ((p·x mod q)·c) mod q = (p·x·c) mod q = (p·(c·x mod q)) mod q
        lemma_mul_mod_noop_left(p * x, c, q);
        lemma_mul_mod_noop_right(p, c * x, q);
        lemma_mul_is_associative(p, x, c);
        lemma_mul_is_commutative(x, c);
    }

    proof fn lemma_sub_add(p: ZqPoint, a: ZqScalar, b: ZqScalar) {
        let q = ORDER as int;
        let (p, a, b) = (p.0 as int, a.0 as int, b.0 as int);
        lemma_mod_bound(a - b, q);
        lemma_mod_bound(p * ((a - b) % q), q);
        lemma_mod_bound(p * b, q);
        // (p·((a − b) mod q)) mod q = (p·(a − b)) mod q
        lemma_mul_mod_noop_right(p, a - b, q);
        // the sum of the two residues is the residue of the sum
        lemma_add_mod_noop(p * ((a - b) % q), p * b, q);
        lemma_add_mod_noop(p * (a - b), p * b, q);
        lemma_mul_is_distributive_sub(p, a, b);
    }
}

} // verus!
