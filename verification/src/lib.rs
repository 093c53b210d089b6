//! Chaum-Pedersen proofs that a BLS signature and a public key share one
//! secret scalar.
//!
//! A signer who holds `x` publishes the signature `S = x·M` on the message
//! point `M` and the key `P = x·G`, both in the signature group. The proof is
//! a pair `(c, s)` of scalars: `c` is the Fiat-Shamir challenge over the
//! encodings of `M, P, S, A, B`, in that order, with `A = k·G` and `B = k·M`
//! for a witness `k` derived from the secret and the message, and `s = k − c·x`.
//! A verifier recomputes `A = s·G + c·P` and `B = s·M + c·S` and accepts when
//! the challenge over them is `c` again.
//!
//! The protocol is written once, over the [`engine::EngineBLS`] interface to a
//! group and its scalar field and the [`hash::HashFunction`] interface to a
//! digest. [`bls12_381`] supplies the pairing curve, [`zq`] a small additive
//! group in which every step can be followed by hand.
pub mod bytes;
pub mod limbs;
pub mod engine;
pub mod hash;
pub mod keys;
pub mod chaum_pedersen_signature;
pub mod zq;
pub mod bls12_381;
