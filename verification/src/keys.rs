//! Ed25519 keys and signatures. The curve arithmetic is `ed25519-dalek`'s; this module
//! gives its results names and keeps the byte-level rules around them.

use vstd::prelude::*;
use ed25519_dalek::{Signer, Verifier};
use crate::bytes::{array_32, array_64};

verus! {

/// The public key that Ed25519 derives from a 32-byte secret key.
pub uninterp spec fn ed25519_public(secret: Seq<u8>) -> Seq<u8>;

/// The signature that Ed25519 computes over a message with a 32-byte secret key.
/// Signing is deterministic: the nonce is a hash of the key and the message.
pub uninterp spec fn ed25519_signature(secret: Seq<u8>, message: Seq<u8>) -> Seq<u8>;

/// Whether 32 bytes decompress to a point of the curve, and so are a public key.
pub uninterp spec fn ed25519_key_valid(public: Seq<u8>) -> bool;

/// Whether Ed25519 verification accepts a signature over a message under a public key.
pub uninterp spec fn ed25519_accepts(public: Seq<u8>, message: Seq<u8>, signature: Seq<u8>) -> bool;

/// True when 64 bytes can be a signature at all: the scalar in the second half has its
/// three highest bits clear, which for the last byte means a value below 32.
pub open spec fn is_signature(bytes: Seq<u8>) -> bool {
    bytes.len() == 64 && bytes[63] < 32
}

/// `PublicKey::from(&SecretKey)`: the public half of a secret key. Not proved here:
/// that the bytes returned are the named derivation of the secret, and that they
/// decompress again (they were compressed from a point).
#[verifier::external_body]
fn derive_public(secret: &[u8; 32]) -> (public: [u8; 32])
    ensures
        public@ == ed25519_public(secret@),
        ed25519_key_valid(public@),
{
    let secret = ed25519_dalek::SecretKey::from_bytes(secret).unwrap();
    ed25519_dalek::PublicKey::from(&secret).to_bytes()
}

/// `Keypair::sign`: signs with the secret key and the public key derived from it.
/// Not proved here: that the bytes are the named signature, that they pass the
/// scalar check of `Signature::from_bytes` (the crate builds its result through it),
/// and that verification under the derived public key accepts them.
#[verifier::external_body]
fn sign_with(secret: &[u8; 32], message: &[u8]) -> (signature: [u8; 64])
    ensures
        signature@ == ed25519_signature(secret@, message@),
        is_signature(signature@),
        ed25519_accepts(ed25519_public(secret@), message@, signature@),
{
    let secret = ed25519_dalek::SecretKey::from_bytes(secret).unwrap();
    let public = ed25519_dalek::PublicKey::from(&secret);
    ed25519_dalek::Keypair { secret, public }.sign(message).to_bytes()
}

/// `PublicKey::from_bytes`: accepts exactly 32 bytes that decompress to a point.
#[verifier::external_body]
fn key_is_valid(bytes: &[u8]) -> (valid: bool)
    ensures
        valid == (bytes@.len() == 32 && ed25519_key_valid(bytes@)),
{
    ed25519_dalek::PublicKey::from_bytes(bytes).is_ok()
}

/// `PublicKey::verify`: strict-length Ed25519 verification of a well-formed signature
/// under a valid key. Any rejection, whatever its cause, is `false`.
#[verifier::external_body]
fn verify_with(public: &[u8; 32], message: &[u8], signature: &[u8; 64]) -> (accepted: bool)
    requires
        ed25519_key_valid(public@),
        is_signature(signature@),
    ensures
        accepted == ed25519_accepts(public@, message@, signature@),
{
    let key = ed25519_dalek::PublicKey::from_bytes(public).unwrap();
    let signature = ed25519_dalek::Signature::from_bytes(signature).unwrap();
    key.verify(message, &signature).is_ok()
}

/// A signature: 64 bytes that pass the scalar check.
#[derive(Clone, Copy, Debug, PartialEq, Eq)]
pub struct Signature {
    bytes: [u8; 64],
}

impl View for Signature {
    type V = Seq<u8>;

    closed spec fn view(&self) -> Seq<u8> {
        self.bytes@
    }
}

impl Signature {
    #[verifier::type_invariant]
    spec fn well_formed(self) -> bool {
        is_signature(self.bytes@)
    }

    /// Takes bytes as a signature, where they can be one.
    pub fn from_bytes(bytes: &[u8]) -> (signature: Option<Signature>)
        ensures
            signature is Some <==> is_signature(bytes@),
            signature matches Some(s) ==> s@ == bytes@,
    {
        if bytes.len() == 64 && bytes[63] < 32 {
            Some(Signature { bytes: array_64(bytes) })
        } else {
            None
        }
    }

    /// The 64 bytes of the signature.
    pub fn to_bytes(&self) -> (bytes: [u8; 64])
        ensures
            bytes@ == self@,
            is_signature(bytes@),
    {
        proof {
            use_type_invariant(self);
        }
        self.bytes
    }
}

/// A public key: 32 bytes that are a point of the curve.
#[derive(Clone, Copy, Debug, PartialEq, Eq)]
pub struct PublicKey {
    bytes: [u8; 32],
}

impl View for PublicKey {
    type V = Seq<u8>;

    closed spec fn view(&self) -> Seq<u8> {
        self.bytes@
    }
}

impl PublicKey {
    #[verifier::type_invariant]
    spec fn valid(self) -> bool {
        ed25519_key_valid(self.bytes@)
    }

    /// Takes bytes as a public key, where they are one.
    pub fn from_bytes(bytes: &[u8]) -> (key: Option<PublicKey>)
        ensures
            key is Some <==> bytes@.len() == 32 && ed25519_key_valid(bytes@),
            key matches Some(k) ==> k@ == bytes@,
    {
        if key_is_valid(bytes) {
            Some(PublicKey { bytes: array_32(bytes) })
        } else {
            None
        }
    }

    /// The 32 bytes of the key.
    pub fn to_bytes(&self) -> (bytes: [u8; 32])
        ensures
            bytes@ == self@,
            ed25519_key_valid(bytes@),
    {
        proof {
            use_type_invariant(self);
        }
        self.bytes
    }

    /// Whether the signature over the message is one made with this key's secret half.
    /// A signature that does not match is `false`, never a failure.
    pub fn verify(&self, message: &[u8], signature: &Signature) -> (accepted: bool)
        ensures
            accepted == ed25519_accepts(self@, message@, signature@),
    {
        proof {
            use_type_invariant(self);
            use_type_invariant(signature);
        }
        verify_with(&self.bytes, message, &signature.bytes)
    }
}

/// A secret key with the public key derived from it.
pub struct Keypair {
    secret: [u8; 32],
    public: [u8; 32],
}

impl Keypair {
    #[verifier::type_invariant]
    spec fn consistent(self) -> bool {
        &&& self.public@ == ed25519_public(self.secret@)
        &&& ed25519_key_valid(self.public@)
    }

    /// The secret key, as contracts see it.
    pub closed spec fn secret(&self) -> Seq<u8> {
        self.secret@
    }

    /// The key pair of a secret key.
    pub fn from_secret(secret: [u8; 32]) -> (pair: Keypair)
        ensures
            pair.secret() == secret@,
    {
        let public = derive_public(&secret);
        Keypair { secret, public }
    }

    /// The public half, which is always the one derived from the secret half.
    pub fn public_key(&self) -> (key: PublicKey)
        ensures
            key@ == ed25519_public(self.secret()),
    {
        proof {
            use_type_invariant(self);
        }
        PublicKey { bytes: self.public }
    }

    /// Signs a message. The result is the one signature Ed25519 defines for this key and
    /// message, and this pair's public key accepts it.
    pub fn sign(&self, message: &[u8]) -> (signature: Signature)
        ensures
            signature@ == ed25519_signature(self.secret(), message@),
            is_signature(signature@),
            ed25519_accepts(ed25519_public(self.secret()), message@, signature@),
    {
        Signature { bytes: sign_with(&self.secret, message) }
    }
}

} // verus!
