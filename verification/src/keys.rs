//! Ed25519 keys and signatures as plain byte values.
//!
//! The cryptography itself is done by the Solana SDK. What it computes is
//! named here by uninterpreted functions, and the contracts of the wrappers
//! in this module are believed, not proved.

use crate::base58::{base58_bytes, base58_text, lemma_base58_bytes_of_text, lemma_base58_round_trip};
use solana_sdk::signer::Signer;
use std::str::FromStr;
use vstd::prelude::*;

verus! {

/// Number of bytes in a public key.
pub const PUBLIC_KEY_LENGTH: usize = 32;

/// Number of bytes in the secret seed of a key pair.
pub const SEED_LENGTH: usize = 32;

/// Number of bytes in a key pair: the seed, then the public key.
pub const KEYPAIR_LENGTH: usize = 64;

/// Number of bytes in a signature.
pub const SIGNATURE_LENGTH: usize = 64;

/// A 32-byte public key, which also serves as an account address.
#[derive(Debug, Clone, Copy, PartialEq, Eq)]
pub struct PublicKey {
    pub bytes: [u8; 32],
}

impl View for PublicKey {
    type V = Seq<u8>;

    open spec fn view(&self) -> Seq<u8> {
        self.bytes@
    }
}

/// A 64-byte Ed25519 signature.
#[derive(Debug, Clone, Copy, PartialEq, Eq)]
pub struct Signature {
    pub bytes: [u8; 64],
}

impl View for Signature {
    type V = Seq<u8>;

    open spec fn view(&self) -> Seq<u8> {
        self.bytes@
    }
}

/// What parsing makes of an address text: the 32 bytes whose base58 text
/// it is, if there are any.
pub open spec fn address_bytes(text: Seq<char>) -> Option<Seq<u8>> {
    match base58_bytes(text) {
        Some(bytes) if bytes.len() == PUBLIC_KEY_LENGTH => Some(bytes),
        _ => None,
    }
}

/// Parses an address with the SDK's `Pubkey::from_str`.
///
/// Believed of the SDK: the key it gives is one whose base58 text is the
/// input, and it fails only on a text that is the base58 text of no 32
/// bytes.
#[verifier::external_body]
fn parse_address(text: &str) -> (key: Option<PublicKey>)
    ensures
        key matches Some(k) ==> base58_text(k@) == text@,
        key is None ==> address_bytes(text@) is None,
{
    solana_sdk::pubkey::Pubkey::from_str(text).ok().map(|k| PublicKey { bytes: k.to_bytes() })
}

/// Writes an address as text with the SDK's `Display` for `Pubkey`.
///
/// Believed of the SDK: the result is the base58 text of the 32 bytes.
#[verifier::external_body]
fn address_text(key: &PublicKey) -> (text: String)
    ensures
        text@ == base58_text(key@),
{
    solana_sdk::pubkey::Pubkey::from(key.bytes).to_string()
}

/// The public key that Ed25519 derives from a 32-byte seed.
pub uninterp spec fn ed25519_public_key(seed: Seq<u8>) -> Seq<u8>;

/// The signature that Ed25519 gives a message under a key pair.
pub uninterp spec fn ed25519_signature(keypair: Seq<u8>, message: Seq<u8>) -> Seq<u8>;

/// Whether strict Ed25519 verification accepts a signature for a message
/// under a public key.
pub uninterp spec fn ed25519_verifies(signature: Seq<u8>, key: Seq<u8>, message: Seq<u8>) -> bool;

/// The encoding of the neutral element of the curve.
pub const NEUTRAL_POINT: [u8; 32] = [
    1, 0, 0, 0, 0, 0, 0, 0, 0, 0, 0, 0, 0, 0, 0, 0,
    0, 0, 0, 0, 0, 0, 0, 0, 0, 0, 0, 0, 0, 0, 0, 0,
];

/// Whether the nonce point of a signature, its first half, is the neutral
/// element. Strict verification refuses such a signature. Signing gives one
/// only for a key pair and a message whose nonce hash is a multiple of the
/// group order; no such pair is known.
pub open spec fn has_neutral_nonce(signature: Seq<u8>) -> bool {
    signature.subrange(0, 32) == NEUTRAL_POINT@
}

/// Whether `bytes` is a key pair: 64 bytes whose second half is the public
/// key derived from the first half.
pub open spec fn is_keypair(bytes: Seq<u8>) -> bool {
    &&& bytes.len() == KEYPAIR_LENGTH
    &&& bytes.subrange(SEED_LENGTH as int, KEYPAIR_LENGTH as int) == ed25519_public_key(
        bytes.subrange(0, SEED_LENGTH as int),
    )
}

/// An Ed25519 key pair. Every value of this type is a key pair in the sense
/// of [`is_keypair`].
#[derive(Debug)]
pub struct Keypair {
    bytes: [u8; 64],
}

impl View for Keypair {
    type V = Seq<u8>;

    closed spec fn view(&self) -> Seq<u8> {
        self.bytes@
    }
}

/// The text of the SDK's opaque signature error.
pub open spec fn keypair_error_text() -> Seq<char> {
    "signature error"@
}

/// Reads a key pair from bytes with the SDK's `Keypair::try_from`.
///
/// Believed of the SDK: bytes are accepted exactly when there are 64 of
/// them and the second half is the public key derived from the first, and
/// the error it gives otherwise displays as a fixed text.
#[verifier::external_body]
fn keypair_from_bytes(bytes: &[u8]) -> (keypair: Result<Keypair, String>)
    ensures
        keypair is Ok <==> (bytes@.len() == KEYPAIR_LENGTH && bytes@.subrange(
            SEED_LENGTH as int,
            KEYPAIR_LENGTH as int,
        ) == ed25519_public_key(bytes@.subrange(0, SEED_LENGTH as int))),
        keypair matches Ok(k) ==> k@ == bytes@,
        keypair matches Err(text) ==> text@ == keypair_error_text(),
{
    match solana_sdk::signer::keypair::Keypair::try_from(bytes) {
        Ok(k) => Ok(Keypair { bytes: k.to_bytes() }),
        Err(e) => Err(e.to_string()),
    }
}

/// Draws a fresh key pair with the SDK's `Keypair::new`, which reads the
/// operating system's random source and panics if that source fails.
///
/// Believed of the SDK: whatever seed is drawn, the second half of the
/// result is the public key derived from it.
#[verifier::external_body]
fn random_keypair() -> (keypair: Keypair)
    ensures
        keypair@.len() == KEYPAIR_LENGTH,
        keypair@.subrange(SEED_LENGTH as int, KEYPAIR_LENGTH as int) == ed25519_public_key(
            keypair@.subrange(0, SEED_LENGTH as int),
        ),
{
    Keypair { bytes: solana_sdk::signer::keypair::Keypair::new().to_bytes() }
}

/// Signs with the SDK's `Keypair::sign_message`, after turning the bytes
/// back into the SDK's key pair, which cannot fail for a key pair.
///
/// Believed of the SDK: signing is deterministic, and strict verification
/// accepts the signature for the same message under the public half of the
/// key pair, unless its nonce point is the neutral element.
#[verifier::external_body]
fn ed25519_sign(keypair: &[u8; 64], message: &[u8]) -> (signature: Signature)
    requires
        is_keypair(keypair@),
    ensures
        signature@ == ed25519_signature(keypair@, message@),
        !has_neutral_nonce(signature@) ==> ed25519_verifies(
            signature@,
            keypair@.subrange(SEED_LENGTH as int, KEYPAIR_LENGTH as int),
            message@,
        ),
{
    let keypair = solana_sdk::signer::keypair::Keypair::try_from(&keypair[..]).unwrap();
    Signature { bytes: keypair.sign_message(message).into() }
}

/// Verifies with the SDK's `Signature::verify`, which answers `false` both
/// for a wrong signature and for bytes that are no public key.
///
/// Believed of the SDK: the answer depends on the three byte strings alone.
#[verifier::external_body]
fn ed25519_verify(signature: &Signature, key: &PublicKey, message: &[u8]) -> (valid: bool)
    ensures
        valid == ed25519_verifies(signature@, key@, message@),
{
    solana_sdk::signature::Signature::from(signature.bytes).verify(&key.bytes, message)
}

/// Reads a signature from bytes with the SDK's `Signature::try_from`, which
/// accepts exactly 64 bytes and keeps them as they are.
#[verifier::external_body]
fn signature_from_bytes(bytes: &[u8]) -> (signature: Option<Signature>)
    ensures
        signature is Some <==> bytes@.len() == SIGNATURE_LENGTH,
        signature matches Some(s) ==> s@ == bytes@,
{
    solana_sdk::signature::Signature::try_from(bytes).ok().map(|s| Signature { bytes: s.into() })
}

impl PublicKey {
    /// Parses a base58 address; `None` unless it is the text of 32 bytes.
    pub fn parse(text: &str) -> (key: Option<PublicKey>)
        ensures
            key is Some <==> address_bytes(text@) is Some,
            key matches Some(k) ==> address_bytes(text@) == Some(k@),
    {
        let key = parse_address(text);
        proof {
            if let Some(k) = key {
                lemma_base58_bytes_of_text(k@, text@);
            }
        }
        key
    }

    /// The base58 text of the key, which parses back to it.
    pub fn text(&self) -> (text: String)
        ensures
            text@ == base58_text(self@),
            address_bytes(text@) == Some(self@),
    {
        proof {
            lemma_base58_round_trip(self@);
        }
        address_text(self)
    }
}

impl Signature {
    /// Reads a signature from bytes; `None` unless there are exactly 64.
    pub fn from_bytes(bytes: &[u8]) -> (signature: Option<Signature>)
        ensures
            signature is Some <==> bytes@.len() == SIGNATURE_LENGTH,
            signature matches Some(s) ==> s@ == bytes@,
    {
        signature_from_bytes(bytes)
    }

    /// Whether the signature is valid for `message` under `key`.
    pub fn verify(&self, key: &PublicKey, message: &[u8]) -> (valid: bool)
        ensures
            valid == ed25519_verifies(self@, key@, message@),
    {
        ed25519_verify(self, key, message)
    }
}

impl Keypair {
    #[verifier::type_invariant]
    spec fn valid(&self) -> bool {
        is_keypair(self.bytes@)
    }

    /// Draws a fresh key pair from the operating system's random source.
    pub fn generate() -> (keypair: Keypair)
        ensures
            is_keypair(keypair@),
    {
        random_keypair()
    }

    /// Reads a key pair from bytes, or gives the text of the error when
    /// they are not 64 or the public half does not belong to the seed.
    pub fn from_bytes(bytes: &[u8]) -> (keypair: Result<Keypair, String>)
        ensures
            keypair is Ok <==> is_keypair(bytes@),
            keypair matches Ok(k) ==> k@ == bytes@,
            keypair matches Err(text) ==> text@ == keypair_error_text(),
    {
        keypair_from_bytes(bytes)
    }

    /// The 64 bytes of the key pair: the seed, then the public key.
    pub fn to_bytes(&self) -> (bytes: [u8; 64])
        ensures
            bytes@ == self@,
            is_keypair(self@),
    {
        proof {
            use_type_invariant(self);
        }
        self.bytes
    }

    /// The public half of the key pair.
    pub fn pubkey(&self) -> (key: PublicKey)
        ensures
            key@ == self@.subrange(SEED_LENGTH as int, KEYPAIR_LENGTH as int),
            key@ == ed25519_public_key(self@.subrange(0, SEED_LENGTH as int)),
    {
        proof {
            use_type_invariant(self);
        }
        let mut bytes = [0u8; 32];
        for i in 0..32usize
            invariant
                forall|j: int| 0 <= j < i ==> bytes@[j] == self.bytes@[SEED_LENGTH + j],
        {
            bytes[i] = self.bytes[SEED_LENGTH + i];
        }
        assert(bytes@ =~= self.bytes@.subrange(SEED_LENGTH as int, KEYPAIR_LENGTH as int));
        PublicKey { bytes }
    }

    /// Signs `message`. The signature is the deterministic Ed25519
    /// signature, and it verifies under [`Keypair::pubkey`] unless its
    /// nonce point is the neutral element.
    pub fn sign_message(&self, message: &[u8]) -> (signature: Signature)
        ensures
            signature@ == ed25519_signature(self@, message@),
            !has_neutral_nonce(signature@) ==> ed25519_verifies(
                signature@,
                self@.subrange(SEED_LENGTH as int, KEYPAIR_LENGTH as int),
                message@,
            ),
    {
        proof {
            use_type_invariant(self);
        }
        ed25519_sign(&self.bytes, message)
    }
}

} // verus!
