//! Incremental SHA-256 hashing, through the `sha2` crate.
//!
//! The hasher state is modelled by the sequence of bytes it has absorbed so
//! far (`absorbed`); the digest that finalizing yields is a function of
//! that sequence alone (`sha256_of`).

use vstd::prelude::*;

verus! {

#[verifier::external_type_specification]
#[verifier::external_body]
pub struct ExSha256(sha2::Sha256);

/// The bytes a hasher has absorbed so far, in order.
pub uninterp spec fn absorbed(h: sha2::Sha256) -> Seq<u8>;

/// The SHA-256 digest of a byte sequence: 32 bytes, a function of the
/// input bytes alone.
pub uninterp spec fn sha256_of(bytes: Seq<u8>) -> Seq<u8>;

/// Relies on `sha2::Sha256::new` (`digest::Digest::new`): a fresh hasher
/// has absorbed nothing.
#[verifier::external_body]
pub(crate) fn sha256_new() -> (h: sha2::Sha256)
    ensures
        absorbed(h) == Seq::<u8>::empty(),
{
    <sha2::Sha256 as sha2::Digest>::new()
}

/// Relies on `sha2::Sha256::update` (`digest::Digest::update`): the given
/// bytes are absorbed after those already absorbed, in order.
#[verifier::external_body]
pub(crate) fn sha256_update(h: &mut sha2::Sha256, data: &[u8])
    ensures
        absorbed(*final(h)) == absorbed(*old(h)) + data@,
{
    sha2::Digest::update(h, data);
}

/// Relies on `sha2::Sha256::finalize` (`digest::Digest::finalize`): the
/// result is the 32-byte SHA-256 digest of exactly the absorbed bytes.
#[verifier::external_body]
pub(crate) fn sha256_finalize(h: sha2::Sha256) -> (r: Vec<u8>)
    ensures
        r@ == sha256_of(absorbed(h)),
        r@.len() == 32,
{
    sha2::Digest::finalize(h).as_slice().to_vec()
}

} // verus!
