//! A signer that holds a BLS12-381 key pair.

use crate::consensus::AuthoritySigner;
use crate::types::AuthoritySignature;
use fastcrypto::bls12381::min_sig::BLS12381KeyPair;
use vstd::prelude::*;

verus! {

/// The key pair of `fastcrypto`, with signatures of 48 bytes. Nothing is
/// known here of what it holds.
#[verifier::external_type_specification]
#[verifier::external_body]
pub struct ExBLS12381KeyPair(BLS12381KeyPair);

/// The 48 bytes of the signature that `key_pair` gives for `message`. The
/// scheme draws on nothing else: one key pair signs one message in one way.
pub uninterp spec fn key_pair_signature(key_pair: BLS12381KeyPair, message: Seq<u8>) -> Seq<u8>;

/// Signs with the validator's key pair.
pub struct KeyPairSigner {
    pub key_pair: BLS12381KeyPair,
}

impl AuthoritySigner for KeyPairSigner {
    /// This signer gives one signature for a message: that of its key pair.
    open spec fn signs(&self, message: Seq<u8>, signature: AuthoritySignature) -> bool {
        signature.bytes@ == key_pair_signature(self.key_pair, message)
    }

    /// Signs `message` with the key pair: the signature is the one that the
    /// key pair gives for these bytes, and no other.
    fn sign(&self, message: &[u8]) -> (signature: AuthoritySignature)
        ensures
            signature.bytes@ == key_pair_signature(self.key_pair, message@),
    {
        sign_with(&self.key_pair, message)
    }
}

/// Calls `fastcrypto::traits::Signer::sign` on the key pair and copies the
/// 48 bytes of the signature. Trusted, not proved: that the bytes are
/// [`key_pair_signature`] of the key pair and the message, that is, that
/// they depend on nothing but these two.
#[verifier::external_body]
fn sign_with(key_pair: &BLS12381KeyPair, message: &[u8]) -> (signature: AuthoritySignature)
    ensures
        signature.bytes@ == key_pair_signature(*key_pair, message@),
{
    let signed = fastcrypto::traits::Signer::sign(key_pair, message);
    let mut bytes = [0u8; 48];
    bytes.copy_from_slice(signed.as_ref());
    AuthoritySignature { bytes }
}

} // verus!
