//! Trusted boundary to the cryptographic primitives and the clock.
//!
//! The pipeline commits to its input with a SHA-256 digest and signs the
//! canonical attestation message with an Ed25519 keypair. Both computations
//! are done by outside crates; each call sits behind one wrapper whose
//! contract states what the crate's documentation promises, over the two
//! uninterpreted names `sha256_of` and `verifies`.

use ed25519_dalek::{Keypair, PublicKey, Signature, Signer, Verifier};
use sha2::Digest;
use std::time::{SystemTime, UNIX_EPOCH};
use vstd::prelude::*;

verus! {

#[verifier::external_type_specification]
#[verifier::external_body]
/// An Ed25519 keypair is opaque to the verified code: it is only ever
/// handed to the signing wrapper.
pub struct ExKeypair(Keypair);

/// The SHA-256 digest of a byte string. The digest is a function of the
/// bytes alone; its value is not stated here, only that the commitment
/// wrapper returns it.
pub uninterp spec fn sha256_of(bytes: Seq<u8>) -> Seq<u8>;

/// Whether an Ed25519 signature verifies under a public key for a message.
/// Verification is a function of the three byte strings alone; its value is
/// pinned only by the signing and verifying wrappers.
pub uninterp spec fn verifies(public_key: Seq<u8>, message: Seq<u8>, signature: Seq<u8>) -> bool;

/// Computes the tamper-evident commitment to the raw serialized input: its
/// SHA-256 digest, byte for byte as received.
///
/// Relies on `sha2::Sha256::digest`: the digest of the input bytes, 32
/// bytes long.
#[verifier::external_body]
pub(crate) fn calculate_documents_hash(documents_raw: &Vec<u8>) -> (r: Vec<u8>)
    ensures
        r@ == sha256_of(documents_raw@),
        r@.len() == 32,
{
    sha2::Sha256::digest(documents_raw.as_slice()).to_vec()
}

/// Signs a message with the keypair and returns the keypair's public key
/// and the signature, as bytes. Nothing is promised of the bytes beyond
/// their widths: the attestation builder checks the signature against the
/// reported public key itself, through `ed25519_verify`, before packaging
/// it.
///
/// Relies on `ed25519_dalek::Keypair::sign` and
/// `ed25519_dalek::PublicKey::to_bytes`: the public key is 32 bytes, the
/// signature 64.
#[verifier::external_body]
pub(crate) fn sign_with_keypair(keypair: &Keypair, message: &Vec<u8>) -> (r: (Vec<u8>, Vec<u8>))
    ensures
        r.0@.len() == 32,
        r.1@.len() == 64,
{
    let signature = keypair.sign(message.as_slice());
    (keypair.public.to_bytes().to_vec(), signature.to_bytes().to_vec())
}

/// Checks a signature against a public key and a message, all given as
/// bytes. Bytes that do not parse as a key or a signature verify nothing.
///
/// Relies on `ed25519_dalek::PublicKey::verify` (with
/// `PublicKey::from_bytes` and `Signature::from_bytes`): deterministic in
/// the three byte strings.
#[verifier::external_body]
pub(crate) fn ed25519_verify(public_key: &Vec<u8>, message: &Vec<u8>, signature: &Vec<u8>) -> (r: bool)
    ensures
        r == verifies(public_key@, message@, signature@),
{
    let pk = match PublicKey::from_bytes(public_key.as_slice()) {
        Ok(pk) => pk,
        Err(_) => return false,
    };
    let sig = match Signature::from_bytes(signature.as_slice()) {
        Ok(sig) => sig,
        Err(_) => return false,
    };
    pk.verify(message.as_slice(), &sig).is_ok()
}

/// Reads the wall clock as milliseconds since the Unix epoch. Nothing is
/// promised of the value: callers state what holds whatever time comes
/// back.
///
/// Relies on `std::time::SystemTime`; panics only if the clock reads
/// earlier than the epoch.
#[verifier::external_body]
pub fn get_timestamp_ms() -> u64 {
    SystemTime::now().duration_since(UNIX_EPOCH).expect("Time went backwards").as_millis() as u64
}

} // verus!
