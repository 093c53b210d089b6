//! The curve BLS12-381 with signatures in its first group.
//!
//! Scalars and points are held as the limbs of their canonical integers, and
//! every operation on them is computed by the arkworks crates. What those
//! return is taken on trust: the arithmetic of the scalar field is stated in
//! full, the results of the curve operations are named.
use vstd::prelude::*;
use vstd::arithmetic::div_mod::lemma_mod_bound;
use vstd::array::spec_array_update;
use ark_bls12_381::{Fq, Fr, G1Affine, G1Projective};
use ark_ec::hashing::curve_maps::wb::WBMap;
use ark_ec::hashing::map_to_curve_hasher::MapToCurveBasedHasher;
use ark_ec::hashing::HashToCurve;
use ark_ec::{AffineRepr, CurveGroup, Group};
use ark_ff::field_hashers::DefaultFieldHasher;
use ark_ff::{BigInt, PrimeField};
use ark_serialize::CanonicalSerialize;
use crate::bytes::{be_nat, le_bytes};
use crate::engine::EngineBLS;
use crate::limbs::{
    lemma_limbs_of, lemma_limbs_value_injective, limbs_below, limbs_bound, limbs_of, limbs_value,
};

verus! {

/// The order of the scalar field.
pub open spec fn fr_modulus() -> nat {
    52435875175126190479447740508185965837690552500527637822603658699938581184513nat
}

/// The order of the field that holds the coordinates of points.
pub open spec fn fq_modulus() -> nat {
    4002409555221667393417789825735904156556882819939007885332058136124031650490837864442687629129015664037894272559787nat
}

/// The first coordinate of the generator of the first group.
pub open spec fn g1_generator_x() -> nat {
    3685416753713387016781088315183077757961620795782546409894578378688607592378376318836054947676345821548104185464507nat
}

/// The second coordinate of the generator of the first group.
pub open spec fn g1_generator_y() -> nat {
    1339506544944476473020471379941921221584933875938349620426543736416511423956333506472724655353366534992391756441569nat
}

/// The limbs of the order of the scalar field.
pub const FR_MODULUS_LIMBS: [u64; 4] = [
    0xffffffff00000001,
    0x53bda402fffe5bfe,
    0x3339d80809a1d805,
    0x73eda753299d7d48,
];

/// The limbs of the order of the field of coordinates.
pub const FQ_MODULUS_LIMBS: [u64; 6] = [
    0xb9feffffffffaaab,
    0x1eabfffeb153ffff,
    0x6730d2a0f6b0f624,
    0x64774b84f38512bf,
    0x4b1ba7b6434bacd7,
    0x1a0111ea397fe69a,
];

/// The limb constants spell the two orders.
pub proof fn lemma_modulus_limbs()
    ensures
        limbs_value(FR_MODULUS_LIMBS@) == fr_modulus(),
        limbs_value(FQ_MODULUS_LIMBS@) == fq_modulus(),
{
    let r = FR_MODULUS_LIMBS@;
    assert(r.skip(1).skip(1).skip(1).skip(1) =~= Seq::<u64>::empty());
    assert(limbs_value(r.skip(1).skip(1).skip(1).skip(1)) == 0);
    assert(limbs_value(r.skip(1).skip(1).skip(1)) == 0x73eda753299d7d48);
    assert(limbs_value(r.skip(1).skip(1)) == 0x73eda753299d7d483339d80809a1d805);
    assert(limbs_value(r.skip(1)) == 0x73eda753299d7d483339d80809a1d80553bda402fffe5bfenat);
    let q = FQ_MODULUS_LIMBS@;
    assert(q.skip(1).skip(1).skip(1).skip(1).skip(1).skip(1) =~= Seq::<u64>::empty());
    assert(limbs_value(q.skip(1).skip(1).skip(1).skip(1).skip(1).skip(1)) == 0);
    assert(limbs_value(q.skip(1).skip(1).skip(1).skip(1).skip(1)) == 0x1a0111ea397fe69a);
    assert(limbs_value(q.skip(1).skip(1).skip(1).skip(1)) == 0x1a0111ea397fe69a4b1ba7b6434bacd7);
    assert(limbs_value(q.skip(1).skip(1).skip(1))
        == 0x1a0111ea397fe69a4b1ba7b6434bacd764774b84f38512bfnat);
    assert(limbs_value(q.skip(1).skip(1))
        == 0x1a0111ea397fe69a4b1ba7b6434bacd764774b84f38512bf6730d2a0f6b0f624nat);
    assert(limbs_value(q.skip(1))
        == 0x1a0111ea397fe69a4b1ba7b6434bacd764774b84f38512bf6730d2a0f6b0f6241eabfffeb153ffffnat);
}

/// An element of the scalar field, as the four limbs of its canonical integer.
#[derive(Clone, Copy, Debug, PartialEq, Eq)]
pub struct FrElement {
    limbs: [u64; 4],
}

/// A point of the first group in affine coordinates, each as the six limbs
/// of its canonical integer, or the point at infinity.
#[derive(Clone, Copy, Debug, PartialEq, Eq)]
pub struct G1Point {
    x: [u64; 6],
    y: [u64; 6],
    infinity: bool,
}

/// What a point is: two coordinates, or the point at infinity, whose
/// coordinates say nothing.
pub struct G1Coordinates {
    pub x: nat,
    pub y: nat,
    pub infinity: bool,
}

impl View for FrElement {
    type V = nat;

    /// The integer that the element holds.
    closed spec fn view(&self) -> nat {
        limbs_value(self.limbs@)
    }
}

impl View for G1Point {
    type V = G1Coordinates;

    closed spec fn view(&self) -> G1Coordinates {
        G1Coordinates {
            x: limbs_value(self.x@),
            y: limbs_value(self.y@),
            infinity: self.infinity,
        }
    }
}

impl FrElement {
    /// The integer is below the order of the field.
    pub open spec fn wf(&self) -> bool {
        self@ < fr_modulus()
    }

    /// The element with the given limbs, where their integer is below the
    /// order of the field.
    pub fn from_limbs(limbs: [u64; 4]) -> (r: Option<FrElement>)
        ensures
            r.is_some() == (limbs_value(limbs@) < fr_modulus()),
            r matches Some(e) ==> e.wf() && e@ == limbs_value(limbs@),
    {
        proof {
            lemma_modulus_limbs();
        }
        if limbs_below(limbs.as_slice(), FR_MODULUS_LIMBS.as_slice()) {
            Some(FrElement { limbs })
        } else {
            None
        }
    }

    /// The limbs of the integer that the element holds.
    pub fn to_limbs(&self) -> (limbs: [u64; 4])
        ensures
            limbs_value(limbs@) == self@,
    {
        self.limbs
    }

    /// An element is determined by its integer.
    pub proof fn lemma_view_injective(a: FrElement, b: FrElement)
        requires
            a@ == b@,
        ensures
            a == b,
    {
        lemma_limbs_value_injective(a.limbs@, b.limbs@);
        assert(a.limbs =~= b.limbs);
    }
}

impl G1Point {
    /// Both coordinates are below the order of their field.
    pub open spec fn wf(&self) -> bool {
        self@.x < fq_modulus() && self@.y < fq_modulus()
    }

    /// The point with the given limbs of its coordinates, where the integer
    /// of each is below the order of their field. Nothing more is asked of
    /// the coordinates: they need not lie on the curve.
    pub fn from_limbs(x: [u64; 6], y: [u64; 6], infinity: bool) -> (r: Option<G1Point>)
        ensures
            r.is_some() == (limbs_value(x@) < fq_modulus() && limbs_value(y@) < fq_modulus()),
            r matches Some(p) ==> p.wf() && p@ == (G1Coordinates {
                x: limbs_value(x@),
                y: limbs_value(y@),
                infinity,
            }),
    {
        proof {
            lemma_modulus_limbs();
        }
        let x_reduced = limbs_below(x.as_slice(), FQ_MODULUS_LIMBS.as_slice());
        let y_reduced = limbs_below(y.as_slice(), FQ_MODULUS_LIMBS.as_slice());
        if x_reduced && y_reduced {
            Some(G1Point { x, y, infinity })
        } else {
            None
        }
    }

    /// The limbs of the two coordinates, and whether this is the point at
    /// infinity.
    pub fn to_limbs(&self) -> (limbs: ([u64; 6], [u64; 6], bool))
        ensures
            self@ == (G1Coordinates {
                x: limbs_value(limbs.0@),
                y: limbs_value(limbs.1@),
                infinity: limbs.2,
            }),
    {
        (self.x, self.y, self.infinity)
    }

    /// A point is determined by its coordinates and whether it is at
    /// infinity.
    pub proof fn lemma_view_injective(a: G1Point, b: G1Point)
        requires
            a@ == b@,
        ensures
            a == b,
    {
        lemma_limbs_value_injective(a.x@, b.x@);
        lemma_limbs_value_injective(a.y@, b.y@);
        assert(a.x =~= b.x);
        assert(a.y =~= b.y);
    }
}

/// The element of the scalar field that holds `n`, for `n` below the order.
pub closed spec fn fr_element(n: nat) -> FrElement {
    choose|e: FrElement| e@ == n
}

/// The point with the coordinates `c`, each below the order of their field.
pub closed spec fn g1_point(c: G1Coordinates) -> G1Point {
    choose|p: G1Point| p@ == c
}

/// Every integer below the order of the scalar field is held by an element.
pub proof fn lemma_fr_element_view(n: nat)
    requires
        n < fr_modulus(),
    ensures
        fr_element(n)@ == n,
        fr_element(n).wf(),
{
    assert(limbs_bound(4) == 0x1_0000_0000_0000_0000_0000_0000_0000_0000_0000_0000_0000_0000_0000_0000_0000_0000nat)
        by {
        reveal_with_fuel(limbs_bound, 5);
    }
    lemma_limbs_of(n, 4);
    let digits = limbs_of(n, 4);
    let limbs: [u64; 4] = spec_array_update(
        spec_array_update(
            spec_array_update(spec_array_update(arbitrary(), 0, digits[0]), 1, digits[1]),
            2,
            digits[2],
        ),
        3,
        digits[3],
    );
    assert(limbs@ =~= digits);
    let e = FrElement { limbs };
    assert(e@ == n);
}

/// All coordinates below the order of their field are those of a point.
pub proof fn lemma_g1_point_view(c: G1Coordinates)
    requires
        c.x < fq_modulus(),
        c.y < fq_modulus(),
    ensures
        g1_point(c)@ == c,
        g1_point(c).wf(),
{
    assert(limbs_bound(6) > fq_modulus()) by {
        reveal_with_fuel(limbs_bound, 7);
    }
    lemma_limbs_of(c.x, 6);
    lemma_limbs_of(c.y, 6);
    let x = six_limbs(limbs_of(c.x, 6));
    let y = six_limbs(limbs_of(c.y, 6));
    assert(x@ =~= limbs_of(c.x, 6));
    assert(y@ =~= limbs_of(c.y, 6));
    let p = G1Point { x, y, infinity: c.infinity };
    assert(p@ == c);
}

/// An array of the six limbs in `digits`.
spec fn six_limbs(digits: Seq<u64>) -> [u64; 6] {
    spec_array_update(
        spec_array_update(
            spec_array_update(
                spec_array_update(
                    spec_array_update(spec_array_update(arbitrary(), 0, digits[0]), 1, digits[1]),
                    2,
                    digits[2],
                ),
                3,
                digits[3],
            ),
            4,
            digits[4],
        ),
        5,
        digits[5],
    )
}

/// An element is the element of its integer.
pub proof fn lemma_fr_element(e: FrElement)
    ensures
        e == fr_element(e@),
{
    FrElement::lemma_view_injective(e, fr_element(e@));
}

/// A point is the point of its coordinates.
pub proof fn lemma_g1_point(p: G1Point)
    ensures
        p == g1_point(p@),
{
    G1Point::lemma_view_injective(p, g1_point(p@));
}

/// The generator of the first group.
pub open spec fn g1_generator_coordinates() -> G1Coordinates {
    G1Coordinates { x: g1_generator_x(), y: g1_generator_y(), infinity: false }
}

/// What multiplying `point` by `scalar` gives in `ark_ec`.
pub uninterp spec fn g1_mul(point: G1Coordinates, scalar: nat) -> G1Coordinates;

/// What adding `a` and `b` gives in `ark_ec`.
pub uninterp spec fn g1_add(a: G1Coordinates, b: G1Coordinates) -> G1Coordinates;

/// The compressed encoding that `ark_serialize` writes for `point`.
pub uninterp spec fn g1_compressed(point: G1Coordinates) -> Seq<u8>;

/// The point that `ark_ec` maps `message` to under the tag `domain`.
pub uninterp spec fn g1_hash_to_curve(domain: Seq<u8>, message: Seq<u8>) -> G1Coordinates;

/// Calls `PrimeField::from_be_bytes_mod_order` of `ark_ff` for the scalar
/// field: the integer that the bytes spell, most significant first, reduced
/// modulo the order.
#[verifier::external_body]
fn fr_from_be_bytes_mod_order(bytes: &[u8]) -> (r: FrElement)
    ensures
        r@ == be_nat(bytes@) % fr_modulus(),
{
    FrElement { limbs: Fr::from_be_bytes_mod_order(bytes).into_bigint().0 }
}

/// Calls `-` of `ark_ff` on two elements of the scalar field: the difference
/// modulo the order.
#[verifier::external_body]
fn fr_sub(a: &FrElement, b: &FrElement) -> (r: FrElement)
    requires
        a.wf(),
        b.wf(),
    ensures
        r@ == ((a@ - b@) % (fr_modulus() as int)) as nat,
{
    let d = Fr::from(BigInt::new(a.limbs)) - Fr::from(BigInt::new(b.limbs));
    FrElement { limbs: d.into_bigint().0 }
}

/// Calls `*` of `ark_ff` on two elements of the scalar field: the product
/// modulo the order.
#[verifier::external_body]
fn fr_mul(a: &FrElement, b: &FrElement) -> (r: FrElement)
    requires
        a.wf(),
        b.wf(),
    ensures
        r@ == (a@ * b@) % fr_modulus(),
{
    let p = Fr::from(BigInt::new(a.limbs)) * Fr::from(BigInt::new(b.limbs));
    FrElement { limbs: p.into_bigint().0 }
}

/// Calls `CanonicalSerialize::serialize_compressed` of `ark_serialize` on an
/// element of the scalar field: its integer in 32 bytes, least significant
/// first. Writing into a vector cannot fail.
#[verifier::external_body]
fn fr_to_bytes(s: &FrElement) -> (out: Vec<u8>)
    requires
        s.wf(),
    ensures
        out@ == le_bytes(s@, 32),
{
    let mut out = Vec::new();
    Fr::from(BigInt::new(s.limbs)).serialize_compressed(&mut out).unwrap();
    out
}

/// Calls `zeroize::Zeroize::zeroize` on the limbs, which overwrites each
/// with 0.
#[verifier::external_body]
fn fr_zeroize(s: &mut FrElement)
    ensures
        final(s)@ == 0,
{
    zeroize::Zeroize::zeroize(&mut s.limbs);
}

/// Calls `Group::generator` of `ark_ec` for the first group: the finite point
/// whose coordinates the curve's parameters give.
#[verifier::external_body]
fn g1_generator() -> (g: G1Point)
    ensures
        g@ == g1_generator_coordinates(),
{
    let g = G1Projective::generator().into_affine();
    G1Point { x: g.x.into_bigint().0, y: g.y.into_bigint().0, infinity: g.infinity }
}

/// Calls `*` of `ark_ec` on a point and a scalar. The contract names the
/// product and says that its coordinates are reduced.
#[verifier::external_body]
fn g1_scalar_mul(p: &G1Point, k: &FrElement) -> (r: G1Point)
    requires
        p.wf(),
        k.wf(),
    ensures
        r@ == g1_mul(p@, k@),
        r.wf(),
{
    let p = G1Affine { x: Fq::from(BigInt::new(p.x)), y: Fq::from(BigInt::new(p.y)), infinity: p.infinity };
    let r = (p.into_group() * Fr::from(BigInt::new(k.limbs))).into_affine();
    G1Point { x: r.x.into_bigint().0, y: r.y.into_bigint().0, infinity: r.infinity }
}

/// Calls `+` of `ark_ec` on two points. The contract names the sum and says
/// that its coordinates are reduced.
#[verifier::external_body]
fn g1_point_add(a: &G1Point, b: &G1Point) -> (r: G1Point)
    requires
        a.wf(),
        b.wf(),
    ensures
        r@ == g1_add(a@, b@),
        r.wf(),
{
    let a = G1Affine { x: Fq::from(BigInt::new(a.x)), y: Fq::from(BigInt::new(a.y)), infinity: a.infinity };
    let b = G1Affine { x: Fq::from(BigInt::new(b.x)), y: Fq::from(BigInt::new(b.y)), infinity: b.infinity };
    let r = (a.into_group() + b.into_group()).into_affine();
    G1Point { x: r.x.into_bigint().0, y: r.y.into_bigint().0, infinity: r.infinity }
}

/// Calls `CanonicalSerialize::serialize_compressed` of `ark_serialize` on a
/// point. The contract names the bytes. Writing into a vector cannot fail.
#[verifier::external_body]
fn g1_to_bytes(p: &G1Point) -> (out: Vec<u8>)
    requires
        p.wf(),
    ensures
        out@ == g1_compressed(p@),
{
    let p = G1Affine { x: Fq::from(BigInt::new(p.x)), y: Fq::from(BigInt::new(p.y)), infinity: p.infinity };
    let mut out = Vec::new();
    p.serialize_compressed(&mut out).unwrap();
    out
}

/// Calls `HashToCurve::new` and `HashToCurve::hash` of `ark_ec`, with the
/// Wahby-Boneh map and SHA-256 as the expander. The contract names the point
/// and says that its coordinates are reduced. Both calls return `Ok` for
/// this curve: `new` looks at the curve's constants only, and `hash` has no
/// path to an error.
#[verifier::external_body]
fn g1_hash(domain: &[u8], message: &[u8]) -> (r: G1Point)
    ensures
        r@ == g1_hash_to_curve(domain@, message@),
        r.wf(),
{
    let hasher = MapToCurveBasedHasher::<
        G1Projective,
        DefaultFieldHasher<sha2::Sha256, 128>,
        WBMap<ark_bls12_381::g1::Config>,
    >::new(domain).unwrap();
    let r = hasher.hash(message).unwrap();
    G1Point { x: r.x.into_bigint().0, y: r.y.into_bigint().0, infinity: r.infinity }
}

/// The tag that separates this use of the map from messages to points:
/// `BLS12381G1_XMD:SHA-256_SSWU_RO_`.
pub const HASH_TO_CURVE_DOMAIN: [u8; 31] = [
    66, 76, 83, 49, 50, 51, 56, 49, 71, 49, 95, 88, 77, 68, 58, 83, 72, 65, 45, 50, 53, 54, 95, 83,
    83, 87, 85, 95, 82, 79, 95,
];

/// BLS12-381 with signatures in the first group, which makes them short.
pub struct TinyBLS381;

impl EngineBLS for TinyBLS381 {
    type Scalar = FrElement;

    type SignatureGroup = G1Point;

    open spec fn scalar_wf(s: &FrElement) -> bool {
        s.wf()
    }

    open spec fn point_wf(p: &G1Point) -> bool {
        p.wf()
    }

    open spec fn spec_scalar_zero() -> FrElement {
        fr_element(0)
    }

    open spec fn spec_scalar_from_be_bytes_mod_order(bytes: Seq<u8>) -> FrElement {
        fr_element(be_nat(bytes) % fr_modulus())
    }

    open spec fn spec_scalar_sub(a: FrElement, b: FrElement) -> FrElement {
        fr_element(((a@ - b@) % (fr_modulus() as int)) as nat)
    }

    open spec fn spec_scalar_mul(a: FrElement, b: FrElement) -> FrElement {
        fr_element((a@ * b@) % fr_modulus())
    }

    open spec fn spec_scalar_to_bytes(s: FrElement) -> Seq<u8> {
        le_bytes(s@, 32)
    }

    open spec fn spec_generator() -> G1Point {
        g1_point(g1_generator_coordinates())
    }

    open spec fn spec_point_mul(p: G1Point, k: FrElement) -> G1Point {
        g1_point(g1_mul(p@, k@))
    }

    open spec fn spec_point_add(a: G1Point, b: G1Point) -> G1Point {
        g1_point(g1_add(a@, b@))
    }

    open spec fn spec_signature_point_to_byte(p: G1Point) -> Seq<u8> {
        g1_compressed(p@)
    }

    open spec fn spec_hash_to_signature_curve(message: Seq<u8>) -> G1Point {
        g1_point(g1_hash_to_curve(HASH_TO_CURVE_DOMAIN@, message))
    }

    fn scalar_from_be_bytes_mod_order(bytes: &[u8]) -> (r: FrElement) {
        let r = fr_from_be_bytes_mod_order(bytes);
        proof {
            lemma_fr_element(r);
            lemma_mod_bound(be_nat(bytes@) as int, fr_modulus() as int);
        }
        r
    }

    fn scalar_sub(a: &FrElement, b: &FrElement) -> (r: FrElement) {
        let r = fr_sub(a, b);
        proof {
            lemma_fr_element(r);
            lemma_mod_bound(a@ - b@, fr_modulus() as int);
        }
        r
    }

    fn scalar_mul(a: &FrElement, b: &FrElement) -> (r: FrElement) {
        let r = fr_mul(a, b);
        proof {
            lemma_fr_element(r);
            lemma_mod_bound((a@ * b@) as int, fr_modulus() as int);
        }
        r
    }

    fn scalar_eq(a: &FrElement, b: &FrElement) -> (r: bool) {
        let same = a.limbs[0] == b.limbs[0] && a.limbs[1] == b.limbs[1] && a.limbs[2]
            == b.limbs[2] && a.limbs[3] == b.limbs[3];
        proof {
            if same {
                assert(a.limbs =~= b.limbs);
            }
        }
        same
    }

    fn scalar_to_bytes(s: &FrElement) -> (out: Vec<u8>) {
        fr_to_bytes(s)
    }

    fn scalar_zeroize(s: &mut FrElement) {
        fr_zeroize(s);
        proof {
            lemma_fr_element(*s);
        }
    }

    fn generator() -> (g: G1Point) {
        let g = g1_generator();
        proof {
            lemma_g1_point(g);
        }
        g
    }

    fn point_mul(p: &G1Point, k: &FrElement) -> (r: G1Point) {
        let r = g1_scalar_mul(p, k);
        proof {
            lemma_g1_point(r);
        }
        r
    }

    fn point_add(a: &G1Point, b: &G1Point) -> (r: G1Point) {
        let r = g1_point_add(a, b);
        proof {
            lemma_g1_point(r);
        }
        r
    }

    fn signature_point_to_byte(p: &G1Point) -> (out: Vec<u8>) {
        g1_to_bytes(p)
    }

    fn hash_to_signature_curve(message: &[u8]) -> (r: G1Point) {
        let r = g1_hash(HASH_TO_CURVE_DOMAIN.as_slice(), message);
        proof {
            lemma_g1_point(r);
        }
        r
    }
}

} // verus!
