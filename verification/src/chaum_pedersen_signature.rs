//! The proof of equal discrete logarithms and its check.
use vstd::prelude::*;
use crate::engine::{EngineBLS, LawfulEngine};
use crate::hash::HashFunction;
use crate::keys::{
    spec_public_key, spec_sign, Message, PublicKeyInSignatureGroup, SecretKeyVT, Signature,
};

verus! {

/// A proof: the challenge `c`, then the response `s`.
pub type SchnorrProof<E> = (<E as EngineBLS>::Scalar, <E as EngineBLS>::Scalar);

/// A signature with the proof that its signer holds the key.
pub type ChaumPedersenSignature<E> = (Signature<E>, SchnorrProof<E>);

/// The witness of a proof: the digest of the secret's encoding followed by
/// the message, reduced into the scalar field.
pub open spec fn spec_witness_scalar<E: EngineBLS, H: HashFunction>(
    secret: E::Scalar,
    message: Seq<u8>,
) -> E::Scalar {
    E::spec_scalar_from_be_bytes_mod_order(
        H::spec_digest(E::spec_scalar_to_bytes(secret) + message),
    )
}

/// The two commitments for `scalar`: `scalar·G` and `scalar·M`, to each of
/// which `terms`, if given as `(c, P, S)`, adds `c·P` and `c·S`.
pub open spec fn spec_commitments<E: EngineBLS>(
    scalar: E::Scalar,
    message_point: E::SignatureGroup,
    terms: Option<(E::Scalar, E::SignatureGroup, E::SignatureGroup)>,
) -> (E::SignatureGroup, E::SignatureGroup) {
    let a = E::spec_point_mul(E::spec_generator(), scalar);
    let b = E::spec_point_mul(message_point, scalar);
    match terms {
        None => (a, b),
        Some((challenge, public_key, signature)) => (
            E::spec_point_add(a, E::spec_point_mul(public_key, challenge)),
            E::spec_point_add(b, E::spec_point_mul(signature, challenge)),
        ),
    }
}

/// What the challenge is the digest of: the encodings of the message point,
/// the public key, the signature and the two commitments, in this order.
pub open spec fn spec_transcript<E: EngineBLS>(
    message_point: E::SignatureGroup,
    public_key: E::SignatureGroup,
    signature: E::SignatureGroup,
    a: E::SignatureGroup,
    b: E::SignatureGroup,
) -> Seq<u8> {
    E::spec_signature_point_to_byte(message_point) + E::spec_signature_point_to_byte(public_key)
        + E::spec_signature_point_to_byte(signature) + E::spec_signature_point_to_byte(a)
        + E::spec_signature_point_to_byte(b)
}

/// The challenge: the digest of the transcript, reduced into the scalar field.
pub open spec fn spec_challenge<E: EngineBLS, H: HashFunction>(
    message_point: E::SignatureGroup,
    public_key: E::SignatureGroup,
    signature: E::SignatureGroup,
    a: E::SignatureGroup,
    b: E::SignatureGroup,
) -> E::Scalar {
    E::spec_scalar_from_be_bytes_mod_order(
        H::spec_digest(spec_transcript::<E>(message_point, public_key, signature, a, b)),
    )
}

/// The proof that the holder of `secret` makes with the witness `witness`:
/// the challenge `c` over the commitments of the witness, and `witness − c·secret`.
pub open spec fn spec_prove_with_witness<E: EngineBLS, H: HashFunction>(
    witness: E::Scalar,
    secret: E::Scalar,
    message_point: E::SignatureGroup,
    signature: E::SignatureGroup,
) -> SchnorrProof<E> {
    let (a, b) = spec_commitments::<E>(witness, message_point, None);
    let c = spec_challenge::<E, H>(message_point, spec_public_key::<E>(secret), signature, a, b);
    (c, E::spec_scalar_sub(witness, E::spec_scalar_mul(c, secret)))
}

/// The proof for a message: made with the witness derived from the secret and
/// the message, for the point that the message is mapped to.
pub open spec fn spec_dleq_proof<E: EngineBLS, H: HashFunction>(
    secret: E::Scalar,
    message: Seq<u8>,
    signature: E::SignatureGroup,
) -> SchnorrProof<E> {
    spec_prove_with_witness::<E, H>(
        spec_witness_scalar::<E, H>(secret, message),
        secret,
        E::spec_hash_to_signature_curve(message),
        signature,
    )
}

/// Whether `proof` is accepted: the challenge over the commitments rebuilt
/// from the response and the challenge is the challenge of the proof.
pub open spec fn spec_verify_dleq<E: EngineBLS, H: HashFunction>(
    public_key: E::SignatureGroup,
    message_point: E::SignatureGroup,
    signature: E::SignatureGroup,
    proof: SchnorrProof<E>,
) -> bool {
    let (a, b) = spec_commitments::<E>(
        proof.1,
        message_point,
        Some((proof.0, public_key, signature)),
    );
    spec_challenge::<E, H>(message_point, public_key, signature, a, b) == proof.0
}

/// Whether a signature with its proof is accepted for a message.
pub open spec fn spec_verify_cp_signature<E: EngineBLS, H: HashFunction>(
    public_key: E::SignatureGroup,
    message: Seq<u8>,
    signature: E::SignatureGroup,
    proof: SchnorrProof<E>,
) -> bool {
    spec_verify_dleq::<E, H>(
        public_key,
        E::spec_hash_to_signature_curve(message),
        signature,
        proof,
    )
}

/// Appends `part` to `buffer`.
fn append(buffer: &mut Vec<u8>, part: &[u8])
    ensures
        final(buffer)@ == old(buffer)@ + part@,
{
    buffer.extend_from_slice(part);
    assert(buffer@ =~= old(buffer)@ + part@);
}

/// Derives the witness scalar from the secret and the message.
pub fn witness_scalar<E: EngineBLS, H: HashFunction>(secret: &E::Scalar, message: &[u8]) -> (k:
    E::Scalar)
    requires
        E::scalar_wf(secret),
    ensures
        k == spec_witness_scalar::<E, H>(*secret, message@),
        E::scalar_wf(&k),
{
    let mut input = E::scalar_to_bytes(secret);
    append(&mut input, message);
    let digest = H::digest(input.as_slice());
    E::scalar_from_be_bytes_mod_order(digest.as_slice())
}

/// Builds the two commitments, for the prover (`terms` is `None`, `scalar` the
/// witness) and for the verifier (`scalar` the response, `terms` the
/// challenge, the public key and the signature).
pub fn commitments<E: EngineBLS>(
    scalar: &E::Scalar,
    message_point: &E::SignatureGroup,
    terms: Option<(&E::Scalar, &E::SignatureGroup, &E::SignatureGroup)>,
) -> (pair: (E::SignatureGroup, E::SignatureGroup))
    requires
        E::scalar_wf(scalar),
        E::point_wf(message_point),
        terms matches Some(t) ==> E::scalar_wf(t.0) && E::point_wf(t.1) && E::point_wf(t.2),
    ensures
        pair == spec_commitments::<E>(
            *scalar,
            *message_point,
            match terms {
                Some(t) => Some((*t.0, *t.1, *t.2)),
                None => None,
            },
        ),
        E::point_wf(&pair.0),
        E::point_wf(&pair.1),
{
    let generator = E::generator();
    let a = E::point_mul(&generator, scalar);
    let b = E::point_mul(message_point, scalar);
    match terms {
        None => (a, b),
        Some((challenge, public_key, signature)) => {
            let shift_a = E::point_mul(public_key, challenge);
            let shift_b = E::point_mul(signature, challenge);
            (E::point_add(&a, &shift_a), E::point_add(&b, &shift_b))
        },
    }
}

/// Computes the challenge that binds the five points.
pub fn challenge<E: EngineBLS, H: HashFunction>(
    message_point: &E::SignatureGroup,
    public_key: &E::SignatureGroup,
    signature: &E::SignatureGroup,
    a: &E::SignatureGroup,
    b: &E::SignatureGroup,
) -> (c: E::Scalar)
    requires
        E::point_wf(message_point),
        E::point_wf(public_key),
        E::point_wf(signature),
        E::point_wf(a),
        E::point_wf(b),
    ensures
        c == spec_challenge::<E, H>(*message_point, *public_key, *signature, *a, *b),
        E::scalar_wf(&c),
{
    let mut transcript = E::signature_point_to_byte(message_point);
    let public_key_bytes = E::signature_point_to_byte(public_key);
    append(&mut transcript, public_key_bytes.as_slice());
    let signature_bytes = E::signature_point_to_byte(signature);
    append(&mut transcript, signature_bytes.as_slice());
    let a_bytes = E::signature_point_to_byte(a);
    append(&mut transcript, a_bytes.as_slice());
    let b_bytes = E::signature_point_to_byte(b);
    append(&mut transcript, b_bytes.as_slice());
    let digest = H::digest(transcript.as_slice());
    E::scalar_from_be_bytes_mod_order(digest.as_slice())
}

/// Makes the proof with a given witness, and overwrites the witness with 0
/// once the response is computed.
pub fn prove_with_witness<E: EngineBLS, H: HashFunction>(
    witness: &mut E::Scalar,
    secret: &E::Scalar,
    message_point: &E::SignatureGroup,
    signature: &E::SignatureGroup,
) -> (proof: SchnorrProof<E>)
    requires
        E::scalar_wf(old(witness)),
        E::scalar_wf(secret),
        E::point_wf(message_point),
        E::point_wf(signature),
    ensures
        proof == spec_prove_with_witness::<E, H>(
            *old(witness),
            *secret,
            *message_point,
            *signature,
        ),
        *final(witness) == E::spec_scalar_zero(),
        E::scalar_wf(&proof.0),
        E::scalar_wf(&proof.1),
{
    let (a, b) = commitments::<E>(&*witness, message_point, None);
    let generator = E::generator();
    let public_key = E::point_mul(&generator, secret);
    let c = challenge::<E, H>(message_point, &public_key, signature, &a, &b);
    let product = E::scalar_mul(&c, secret);
    let s = E::scalar_sub(&*witness, &product);
    E::scalar_zeroize(witness);
    (c, s)
}

/// Checks a proof against the public key, the message point and the signature.
pub fn verify_dleq<E: EngineBLS, H: HashFunction>(
    public_key: &E::SignatureGroup,
    message_point: &E::SignatureGroup,
    signature: &E::SignatureGroup,
    proof: &SchnorrProof<E>,
) -> (accepted: bool)
    requires
        E::point_wf(public_key),
        E::point_wf(message_point),
        E::point_wf(signature),
        E::scalar_wf(&proof.0),
        E::scalar_wf(&proof.1),
    ensures
        accepted == spec_verify_dleq::<E, H>(*public_key, *message_point, *signature, *proof),
{
    let (a, b) = commitments::<E>(
        &proof.1,
        message_point,
        Some((&proof.0, public_key, signature)),
    );
    let c = challenge::<E, H>(message_point, public_key, signature, &a, &b);
    E::scalar_eq(&c, &proof.0)
}

/// What a holder of a secret key does: sign, and prove that the signature
/// and the public key come from one secret.
pub trait ChaumPedersenSigner<E: EngineBLS, H: HashFunction>: Sized {
    /// The secret scalar.
    spec fn secret_scalar(&self) -> E::Scalar;

    /// Signs the message and proves possession of the key that signed it.
    fn generate_cp_signature(&mut self, message: &Message) -> (bundle: ChaumPedersenSignature<E>)
        requires
            E::scalar_wf(&old(self).secret_scalar()),
        ensures
            *final(self) == *old(self),
            bundle.0.0 == spec_sign::<E>(old(self).secret_scalar(), message@),
            bundle.1 == spec_dleq_proof::<E, H>(old(self).secret_scalar(), message@, bundle.0.0),
            E::point_wf(&bundle.0.0),
            E::scalar_wf(&bundle.1.0),
            E::scalar_wf(&bundle.1.1),
    ;

    /// Derives the witness of the proof for this message.
    fn generate_witness_scaler(&self, message: &Message) -> (k: E::Scalar)
        requires
            E::scalar_wf(&self.secret_scalar()),
        ensures
            k == spec_witness_scalar::<E, H>(self.secret_scalar(), message@),
            E::scalar_wf(&k),
    ;

    /// Proves that `bls_signature` and the public key share this secret. The
    /// proof is a function of the secret, the message and the signature.
    fn generate_dleq_proof(&mut self, message: &Message, bls_signature: E::SignatureGroup) -> (proof:
        SchnorrProof<E>)
        requires
            E::scalar_wf(&old(self).secret_scalar()),
            E::point_wf(&bls_signature),
        ensures
            *final(self) == *old(self),
            proof == spec_dleq_proof::<E, H>(old(self).secret_scalar(), message@, bls_signature),
            E::scalar_wf(&proof.0),
            E::scalar_wf(&proof.1),
    ;
}

/// What a holder of a public key does: check a signature with its proof.
pub trait ChaumPedersenVerifier<E: EngineBLS, H: HashFunction>: Sized {
    /// The public key, in the signature group.
    spec fn key_point(&self) -> E::SignatureGroup;

    /// Whether the proof shows that the signature on this message was made
    /// with the secret of this key.
    fn verify_cp_signature(
        &self,
        message: &Message,
        signature_proof: ChaumPedersenSignature<E>,
    ) -> (accepted: bool)
        requires
            E::point_wf(&self.key_point()),
            E::point_wf(&signature_proof.0.0),
            E::scalar_wf(&signature_proof.1.0),
            E::scalar_wf(&signature_proof.1.1),
        ensures
            accepted == spec_verify_cp_signature::<E, H>(
                self.key_point(),
                message@,
                signature_proof.0.0,
                signature_proof.1,
            ),
    ;
}

impl<E: EngineBLS, H: HashFunction> ChaumPedersenSigner<E, H> for SecretKeyVT<E> {
    open spec fn secret_scalar(&self) -> E::Scalar {
        self.0
    }

    fn generate_cp_signature(&mut self, message: &Message) -> (bundle: ChaumPedersenSignature<E>) {
        let bls_signature = self.sign(message);
        let mut k = witness_scalar::<E, H>(&self.0, message.0.as_slice());
        let message_point = E::hash_to_signature_curve(message.0.as_slice());
        let proof = prove_with_witness::<E, H>(&mut k, &self.0, &message_point, &bls_signature.0);
        (bls_signature, proof)
    }

    fn generate_witness_scaler(&self, message: &Message) -> (k: E::Scalar) {
        witness_scalar::<E, H>(&self.0, message.0.as_slice())
    }

    fn generate_dleq_proof(&mut self, message: &Message, bls_signature: E::SignatureGroup) -> (proof:
        SchnorrProof<E>) {
        let mut k = witness_scalar::<E, H>(&self.0, message.0.as_slice());
        let message_point = E::hash_to_signature_curve(message.0.as_slice());
        prove_with_witness::<E, H>(&mut k, &self.0, &message_point, &bls_signature)
    }
}

impl<E: EngineBLS, H: HashFunction> ChaumPedersenVerifier<E, H> for PublicKeyInSignatureGroup<E> {
    open spec fn key_point(&self) -> E::SignatureGroup {
        self.0
    }

    fn verify_cp_signature(
        &self,
        message: &Message,
        signature_proof: ChaumPedersenSignature<E>,
    ) -> (accepted: bool) {
        let message_point = E::hash_to_signature_curve(message.0.as_slice());
        verify_dleq::<E, H>(&self.0, &message_point, &signature_proof.0.0, &signature_proof.1)
    }
}

/// Determinism: two proofs made for one secret, one message and one signature
/// are the same proof.
pub proof fn lemma_proof_determined<E: EngineBLS, H: HashFunction>(
    secret: E::Scalar,
    message: Seq<u8>,
    signature: E::SignatureGroup,
    first: SchnorrProof<E>,
    second: SchnorrProof<E>,
)
    requires
        first == spec_dleq_proof::<E, H>(secret, message, signature),
        second == spec_dleq_proof::<E, H>(secret, message, signature),
    ensures
        first == second,
{
}

/// What is hashed binds each of the five points in its place: two
/// transcripts are equal only if they are made of the same points in the
/// same order. So hashing the signature before the public key gives another
/// transcript, unless the two are one point.
pub proof fn lemma_transcript_binds<E: LawfulEngine>(
    first: [E::SignatureGroup; 5],
    second: [E::SignatureGroup; 5],
)
    requires
        forall|i: int| 0 <= i < 5 ==> E::point_wf(&#[trigger] first[i]),
        forall|i: int| 0 <= i < 5 ==> E::point_wf(&#[trigger] second[i]),
        spec_transcript::<E>(first[0], first[1], first[2], first[3], first[4])
            == spec_transcript::<E>(second[0], second[1], second[2], second[3], second[4]),
    ensures
        first == second,
{
    let t = spec_transcript::<E>(first[0], first[1], first[2], first[3], first[4]);
    let n = E::spec_signature_point_to_byte(first[0]).len() as int;
    assert forall|i: int| 0 <= i < 5 implies #[trigger] first[i] == second[i] by {
        assert forall|j: int| 0 <= j < 5 implies E::spec_signature_point_to_byte(
            #[trigger] first[j],
        ).len() == n && E::spec_signature_point_to_byte(#[trigger] second[j]).len() == n by {
            E::lemma_point_encoding(first[j], first[0]);
            E::lemma_point_encoding(second[j], first[0]);
        }
        assert(E::spec_signature_point_to_byte(first[i]) =~= t.subrange(i * n, i * n + n));
        assert(E::spec_signature_point_to_byte(second[i]) =~= t.subrange(i * n, i * n + n));
        E::lemma_point_encoding(first[i], second[i]);
    }
    assert(first =~= second);
}

/// Whether the verifier's commitment over the base `p` is the prover's: with
/// the response `k − c·x`, whether `(k − c·x)·p + c·(x·p) = k·p`.
pub open spec fn spec_rebuilt<E: EngineBLS>(
    p: E::SignatureGroup,
    k: E::Scalar,
    c: E::Scalar,
    x: E::Scalar,
) -> bool {
    E::spec_point_add(
        E::spec_point_mul(p, E::spec_scalar_sub(k, E::spec_scalar_mul(c, x))),
        E::spec_point_mul(E::spec_point_mul(p, x), c),
    ) == E::spec_point_mul(p, k)
}

/// In any engine, the proof made with the secret `x` for the signature `x·M`
/// is accepted under the key `x·G` wherever the verifier's two commitments,
/// over `G` and over `M`, are the prover's.
pub proof fn lemma_accepted_where_rebuilt<E: EngineBLS, H: HashFunction>(
    witness: E::Scalar,
    secret: E::Scalar,
    message_point: E::SignatureGroup,
)
    requires
        ({
            let c = spec_prove_with_witness::<E, H>(
                witness,
                secret,
                message_point,
                E::spec_point_mul(message_point, secret),
            ).0;
            spec_rebuilt::<E>(E::spec_generator(), witness, c, secret) && spec_rebuilt::<E>(
                message_point,
                witness,
                c,
                secret,
            )
        }),
    ensures
        spec_verify_dleq::<E, H>(
            spec_public_key::<E>(secret),
            message_point,
            E::spec_point_mul(message_point, secret),
            spec_prove_with_witness::<E, H>(
                witness,
                secret,
                message_point,
                E::spec_point_mul(message_point, secret),
            ),
        ),
{
}

/// In a lawful engine the verifier's commitment over any base is the
/// prover's: with `s = k − c·x`, `s·p + c·(x·p) = k·p`.
pub proof fn lemma_commitment_rebuilt<E: LawfulEngine>(
    p: E::SignatureGroup,
    k: E::Scalar,
    c: E::Scalar,
    x: E::Scalar,
)
    requires
        E::point_wf(&p),
        E::scalar_wf(&k),
        E::scalar_wf(&c),
        E::scalar_wf(&x),
    ensures
        spec_rebuilt::<E>(p, k, c, x),
{
    E::lemma_scalars_closed(c, x);
    E::lemma_mul_mul(p, x, c);
    E::lemma_sub_add(p, k, E::spec_scalar_mul(c, x));
}

/// Completeness, for any witness: where the signature is `x·M` and the public
/// key is `x·G`, the proof made with the secret `x` is accepted.
pub proof fn lemma_honest_proof_accepted<E: LawfulEngine, H: HashFunction>(
    witness: E::Scalar,
    secret: E::Scalar,
    message_point: E::SignatureGroup,
)
    requires
        E::scalar_wf(&witness),
        E::scalar_wf(&secret),
        E::point_wf(&message_point),
    ensures
        spec_verify_dleq::<E, H>(
            spec_public_key::<E>(secret),
            message_point,
            E::spec_point_mul(message_point, secret),
            spec_prove_with_witness::<E, H>(
                witness,
                secret,
                message_point,
                E::spec_point_mul(message_point, secret),
            ),
        ),
{
    let signature = E::spec_point_mul(message_point, secret);
    let proof = spec_prove_with_witness::<E, H>(witness, secret, message_point, signature);
    E::lemma_points(Seq::empty());
    E::lemma_reduced_is_scalar(
        H::spec_digest(
            spec_transcript::<E>(
                message_point,
                spec_public_key::<E>(secret),
                signature,
                E::spec_point_mul(E::spec_generator(), witness),
                E::spec_point_mul(message_point, witness),
            ),
        ),
    );
    lemma_commitment_rebuilt::<E>(E::spec_generator(), witness, proof.0, secret);
    lemma_commitment_rebuilt::<E>(message_point, witness, proof.0, secret);
    lemma_accepted_where_rebuilt::<E, H>(witness, secret, message_point);
}

/// Completeness: a signature made with a secret, together with the proof made
/// with the same secret, is accepted under the public key of that secret.
pub proof fn lemma_completeness<E: LawfulEngine, H: HashFunction>(
    secret: E::Scalar,
    message: Seq<u8>,
)
    requires
        E::scalar_wf(&secret),
    ensures
        spec_verify_cp_signature::<E, H>(
            spec_public_key::<E>(secret),
            message,
            spec_sign::<E>(secret, message),
            spec_dleq_proof::<E, H>(secret, message, spec_sign::<E>(secret, message)),
        ),
{
    E::lemma_points(message);
    E::lemma_reduced_is_scalar(H::spec_digest(E::spec_scalar_to_bytes(secret) + message));
    lemma_honest_proof_accepted::<E, H>(
        spec_witness_scalar::<E, H>(secret, message),
        secret,
        E::spec_hash_to_signature_curve(message),
    );
}

} // verus!
