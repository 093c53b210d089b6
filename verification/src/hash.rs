//! The digest that derives witnesses and challenges.
use vstd::prelude::*;

verus! {

/// What `Sha256::digest` of the `sha2` crate returns for `data`.
pub uninterp spec fn sha256(data: Seq<u8>) -> Seq<u8>;

/// What `Sha512::digest` of the `sha2` crate returns for `data`.
pub uninterp spec fn sha512(data: Seq<u8>) -> Seq<u8>;

/// A hash function with a fixed-size output, called on a whole input at once.
pub trait HashFunction {
    /// The digest of `data`.
    spec fn spec_digest(data: Seq<u8>) -> Seq<u8>;

    fn digest(data: &[u8]) -> (out: Vec<u8>)
        ensures
            out@ == Self::spec_digest(data@),
    ;
}

/// SHA-256.
pub struct Sha256;

/// Calls `digest::Digest::digest` for `sha2::Sha256`. The contract gives the
/// 32 bytes it returns the name [`sha256`]; nothing else is claimed of them.
#[verifier::external_body]
fn sha256_digest(data: &[u8]) -> (out: Vec<u8>)
    ensures
        out@ == sha256(data@),
{
    <sha2::Sha256 as digest::Digest>::digest(data).to_vec()
}

/// SHA-512.
pub struct Sha512;

/// Calls `digest::Digest::digest` for `sha2::Sha512`. The contract gives the
/// 64 bytes it returns the name [`sha512`]; nothing else is claimed of them.
#[verifier::external_body]
fn sha512_digest(data: &[u8]) -> (out: Vec<u8>)
    ensures
        out@ == sha512(data@),
{
    <sha2::Sha512 as digest::Digest>::digest(data).to_vec()
}

impl HashFunction for Sha256 {
    open spec fn spec_digest(data: Seq<u8>) -> Seq<u8> {
        sha256(data)
    }

    fn digest(data: &[u8]) -> (out: Vec<u8>) {
        sha256_digest(data)
    }
}

impl HashFunction for Sha512 {
    open spec fn spec_digest(data: Seq<u8>) -> Seq<u8> {
        sha512(data)
    }

    fn digest(data: &[u8]) -> (out: Vec<u8>) {
        sha512_digest(data)
    }
}

} // verus!
