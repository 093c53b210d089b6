//! Messages, keys and signatures of the underlying signature scheme.
use vstd::prelude::*;
use crate::engine::EngineBLS;

verus! {

/// The bytes that are signed.
#[derive(Debug, PartialEq, Eq)]
pub struct Message(pub Vec<u8>);

impl View for Message {
    type V = Seq<u8>;

    open spec fn view(&self) -> Seq<u8> {
        self.0@
    }
}

/// A signature: the message point multiplied by the signer's secret.
pub struct Signature<E: EngineBLS>(pub E::SignatureGroup);

/// A signer's public key, written in the group that holds signatures.
pub struct PublicKeyInSignatureGroup<E: EngineBLS>(pub E::SignatureGroup);

/// A signer's secret scalar.
pub struct SecretKeyVT<E: EngineBLS>(pub E::Scalar);

/// The signature of `secret` on `message`.
pub open spec fn spec_sign<E: EngineBLS>(secret: E::Scalar, message: Seq<u8>) -> E::SignatureGroup {
    E::spec_point_mul(E::spec_hash_to_signature_curve(message), secret)
}

/// The public key of `secret` in the signature group.
pub open spec fn spec_public_key<E: EngineBLS>(secret: E::Scalar) -> E::SignatureGroup {
    E::spec_point_mul(E::spec_generator(), secret)
}

impl<E: EngineBLS> SecretKeyVT<E> {
    /// Signs the message: the point it is mapped to, multiplied by the secret.
    pub fn sign(&self, message: &Message) -> (signature: Signature<E>)
        requires
            E::scalar_wf(&self.0),
        ensures
            signature.0 == spec_sign::<E>(self.0, message@),
            E::point_wf(&signature.0),
    {
        let message_point = E::hash_to_signature_curve(message.0.as_slice());
        Signature(E::point_mul(&message_point, &self.0))
    }

    /// The public key in the signature group: the generator multiplied by the
    /// secret.
    pub fn into_public_key_in_signature_group(&self) -> (key: PublicKeyInSignatureGroup<E>)
        requires
            E::scalar_wf(&self.0),
        ensures
            key.0 == spec_public_key::<E>(self.0),
            E::point_wf(&key.0),
    {
        let generator = E::generator();
        PublicKeyInSignatureGroup(E::point_mul(&generator, &self.0))
    }
}

} // verus!
