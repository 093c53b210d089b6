//! The interface between the protocol and the group it runs in.
use vstd::prelude::*;

verus! {

/// A group of prime order with its scalar field, as the protocol uses them.
///
/// Each operation has a model, a `spec_` function on the same values, and the
/// executable operation returns what the model says. Values that meet
/// `scalar_wf` and `point_wf` stay within them.
pub trait EngineBLS: Sized {
    /// An element of the scalar field.
    type Scalar;

    /// A point of the group that holds signatures.
    type SignatureGroup;

    /// Whether a value is an element of the field, in its canonical form.
    spec fn scalar_wf(s: &Self::Scalar) -> bool;

    /// Whether a value is a point that the operations accept.
    spec fn point_wf(p: &Self::SignatureGroup) -> bool;

    /// The scalar 0.
    spec fn spec_scalar_zero() -> Self::Scalar;

    /// The integer that `bytes` spell, most significant byte first, reduced
    /// modulo the order of the field.
    spec fn spec_scalar_from_be_bytes_mod_order(bytes: Seq<u8>) -> Self::Scalar;

    /// `a − b` in the field.
    spec fn spec_scalar_sub(a: Self::Scalar, b: Self::Scalar) -> Self::Scalar;

    /// `a · b` in the field.
    spec fn spec_scalar_mul(a: Self::Scalar, b: Self::Scalar) -> Self::Scalar;

    /// The canonical fixed-width encoding of a scalar.
    spec fn spec_scalar_to_bytes(s: Self::Scalar) -> Seq<u8>;

    /// The generator `G` of the group.
    spec fn spec_generator() -> Self::SignatureGroup;

    /// `k · p`.
    spec fn spec_point_mul(p: Self::SignatureGroup, k: Self::Scalar) -> Self::SignatureGroup;

    /// `a + b`.
    spec fn spec_point_add(a: Self::SignatureGroup, b: Self::SignatureGroup) -> Self::SignatureGroup;

    /// The canonical encoding of a point.
    spec fn spec_signature_point_to_byte(p: Self::SignatureGroup) -> Seq<u8>;

    /// The point that a message is mapped to.
    spec fn spec_hash_to_signature_curve(message: Seq<u8>) -> Self::SignatureGroup;

    fn scalar_from_be_bytes_mod_order(bytes: &[u8]) -> (r: Self::Scalar)
        ensures
            r == Self::spec_scalar_from_be_bytes_mod_order(bytes@),
            Self::scalar_wf(&r),
    ;

    fn scalar_sub(a: &Self::Scalar, b: &Self::Scalar) -> (r: Self::Scalar)
        requires
            Self::scalar_wf(a),
            Self::scalar_wf(b),
        ensures
            r == Self::spec_scalar_sub(*a, *b),
            Self::scalar_wf(&r),
    ;

    fn scalar_mul(a: &Self::Scalar, b: &Self::Scalar) -> (r: Self::Scalar)
        requires
            Self::scalar_wf(a),
            Self::scalar_wf(b),
        ensures
            r == Self::spec_scalar_mul(*a, *b),
            Self::scalar_wf(&r),
    ;

    fn scalar_eq(a: &Self::Scalar, b: &Self::Scalar) -> (r: bool)
        ensures
            r == (*a == *b),
    ;

    fn scalar_to_bytes(s: &Self::Scalar) -> (out: Vec<u8>)
        requires
            Self::scalar_wf(s),
        ensures
            out@ == Self::spec_scalar_to_bytes(*s),
    ;

    /// Overwrites the scalar with 0.
    fn scalar_zeroize(s: &mut Self::Scalar)
        ensures
            *final(s) == Self::spec_scalar_zero(),
            Self::scalar_wf(final(s)),
    ;

    fn generator() -> (g: Self::SignatureGroup)
        ensures
            g == Self::spec_generator(),
            Self::point_wf(&g),
    ;

    fn point_mul(p: &Self::SignatureGroup, k: &Self::Scalar) -> (r: Self::SignatureGroup)
        requires
            Self::point_wf(p),
            Self::scalar_wf(k),
        ensures
            r == Self::spec_point_mul(*p, *k),
            Self::point_wf(&r),
    ;

    fn point_add(a: &Self::SignatureGroup, b: &Self::SignatureGroup) -> (r: Self::SignatureGroup)
        requires
            Self::point_wf(a),
            Self::point_wf(b),
        ensures
            r == Self::spec_point_add(*a, *b),
            Self::point_wf(&r),
    ;

    fn signature_point_to_byte(p: &Self::SignatureGroup) -> (out: Vec<u8>)
        requires
            Self::point_wf(p),
        ensures
            out@ == Self::spec_signature_point_to_byte(*p),
    ;

    fn hash_to_signature_curve(message: &[u8]) -> (r: Self::SignatureGroup)
        ensures
            r == Self::spec_hash_to_signature_curve(message@),
            Self::point_wf(&r),
    ;
}

/// An engine whose model is closed under its operations, in which
/// multiplying a point by scalars is linear, and whose points have encodings
/// of one length that tell them apart: what a proof of equal discrete
/// logarithms rests on.
pub trait LawfulEngine: EngineBLS {
    /// Differences and products of scalars are scalars.
    proof fn lemma_scalars_closed(a: Self::Scalar, b: Self::Scalar)
        requires
            Self::scalar_wf(&a),
            Self::scalar_wf(&b),
        ensures
            Self::scalar_wf(&Self::spec_scalar_sub(a, b)),
            Self::scalar_wf(&Self::spec_scalar_mul(a, b)),
    ;

    /// Reducing bytes gives a scalar.
    proof fn lemma_reduced_is_scalar(bytes: Seq<u8>)
        ensures
            Self::scalar_wf(&Self::spec_scalar_from_be_bytes_mod_order(bytes)),
    ;

    /// The generator and the points of messages are points.
    proof fn lemma_points(message: Seq<u8>)
        ensures
            Self::point_wf(&Self::spec_generator()),
            Self::point_wf(&Self::spec_hash_to_signature_curve(message)),
    ;

    /// All points are encoded in the same number of bytes, and two points
    /// with one encoding are one point.
    proof fn lemma_point_encoding(p: Self::SignatureGroup, q: Self::SignatureGroup)
        requires
            Self::point_wf(&p),
            Self::point_wf(&q),
        ensures
            Self::spec_signature_point_to_byte(p).len() == Self::spec_signature_point_to_byte(
                q,
            ).len(),
            Self::spec_signature_point_to_byte(p) == Self::spec_signature_point_to_byte(q) ==> p
                == q,
    ;

    /// `c·(x·p) = (c·x)·p`.
    proof fn lemma_mul_mul(p: Self::SignatureGroup, x: Self::Scalar, c: Self::Scalar)
        requires
            Self::point_wf(&p),
            Self::scalar_wf(&x),
            Self::scalar_wf(&c),
        ensures
            Self::spec_point_mul(Self::spec_point_mul(p, x), c) == Self::spec_point_mul(
                p,
                Self::spec_scalar_mul(c, x),
            ),
    ;

    /// `(a − b)·p + b·p = a·p`.
    proof fn lemma_sub_add(p: Self::SignatureGroup, a: Self::Scalar, b: Self::Scalar)
        requires
            Self::point_wf(&p),
            Self::scalar_wf(&a),
            Self::scalar_wf(&b),
        ensures
            Self::spec_point_add(
                Self::spec_point_mul(p, Self::spec_scalar_sub(a, b)),
                Self::spec_point_mul(p, b),
            ) == Self::spec_point_mul(p, a),
    ;
}

} // verus!
