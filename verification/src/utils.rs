//! Validation of the keys that requests carry as text.

use crate::base58::{
    base58_bytes, base58_decode, base58_text, is_base58_text, lemma_base58_outside_alphabet,
    lemma_base58_round_trip,
};
use crate::decimal::{decimal_digits, decimal_text};
use crate::errors::{result_view, AppError, AppErrorView};
use crate::keys::{
    address_bytes, is_keypair, keypair_error_text, Keypair, PublicKey, KEYPAIR_LENGTH,
    PUBLIC_KEY_LENGTH,
};
use vstd::prelude::*;
use vstd::string::*;

verus! {

/// What validation makes of a public key text: its 32 bytes, or an error
/// that names the text.
pub open spec fn pubkey_outcome(text: Seq<char>) -> Result<Seq<u8>, AppErrorView> {
    match address_bytes(text) {
        Some(bytes) => Ok(bytes),
        None => Err(AppErrorView::InvalidInput("Invalid public key: "@ + text)),
    }
}

/// What validation makes of a secret key text: the 64 bytes of a key pair,
/// or an error that says which check failed.
pub open spec fn secret_key_outcome(text: Seq<char>) -> Result<Seq<u8>, AppErrorView> {
    match base58_bytes(text) {
        None => Err(AppErrorView::InvalidInput("Invalid base58 secret key"@)),
        Some(bytes) => if bytes.len() != KEYPAIR_LENGTH {
            Err(
                AppErrorView::InvalidInput(
                    "Secret key must be 64 bytes, got "@ + decimal_digits(bytes.len()),
                ),
            )
        } else if !is_keypair(bytes) {
            Err(AppErrorView::InvalidInput("Invalid secret key format: "@ + keypair_error_text()))
        } else {
            Ok(bytes)
        },
    }
}

/// Parses a base58 public key, which must stand for exactly 32 bytes.
pub fn validate_pubkey(pubkey_str: &str) -> (key: Result<PublicKey, AppError>)
    ensures
        result_view(key) == pubkey_outcome(pubkey_str@),
{
    match PublicKey::parse(pubkey_str) {
        Some(key) => Ok(key),
        None => Err(
            AppError::InvalidInput(String::from_str("Invalid public key: ").concat(pubkey_str)),
        ),
    }
}

/// Parses a base58 secret key, which must stand for the 64 bytes of a key
/// pair: a seed followed by the public key derived from it.
pub fn validate_secret_key(secret_str: &str) -> (keypair: Result<Keypair, AppError>)
    ensures
        result_view(keypair) == secret_key_outcome(secret_str@),
{
    let secret_bytes = match base58_decode(secret_str) {
        Some(bytes) => bytes,
        None => {
            return Err(AppError::InvalidInput(String::from_str("Invalid base58 secret key")));
        },
    };
    if secret_bytes.len() != KEYPAIR_LENGTH {
        let count = decimal_text(secret_bytes.len());
        return Err(
            AppError::InvalidInput(
                String::from_str("Secret key must be 64 bytes, got ").concat(count.as_str()),
            ),
        );
    }
    match Keypair::from_bytes(secret_bytes.as_slice()) {
        Ok(keypair) => Ok(keypair),
        Err(text) => Err(
            AppError::InvalidInput(
                String::from_str("Invalid secret key format: ").concat(text.as_str()),
            ),
        ),
    }
}

/// A public key text with a character outside the base58 alphabet is
/// rejected as invalid input, which is answered with status 400.
pub proof fn lemma_pubkey_outside_alphabet_rejected(text: Seq<char>)
    requires
        !is_base58_text(text),
    ensures
        pubkey_outcome(text) matches Err(error) && error is InvalidInput && error.status_code()
            == 400,
{
    lemma_base58_outside_alphabet(text);
}

/// A secret key text with a character outside the base58 alphabet is
/// rejected as invalid input, which is answered with status 400.
pub proof fn lemma_secret_key_outside_alphabet_rejected(text: Seq<char>)
    requires
        !is_base58_text(text),
    ensures
        secret_key_outcome(text) matches Err(error) && error is InvalidInput
            && error.status_code() == 400,
{
    lemma_base58_outside_alphabet(text);
}

/// A secret key text that decodes to fewer or more than 64 bytes is
/// rejected as invalid input.
pub proof fn lemma_secret_key_wrong_length_rejected(text: Seq<char>)
    requires
        base58_bytes(text) matches Some(bytes) && bytes.len() != KEYPAIR_LENGTH,
    ensures
        secret_key_outcome(text) matches Err(AppErrorView::InvalidInput(_)),
{
}

/// The base58 text of 32 bytes is accepted as a public key and gives the
/// same bytes back.
pub proof fn lemma_pubkey_round_trip(key: Seq<u8>)
    requires
        key.len() == PUBLIC_KEY_LENGTH,
    ensures
        pubkey_outcome(base58_text(key)) == Ok::<Seq<u8>, AppErrorView>(key),
{
    lemma_base58_round_trip(key);
}

/// The base58 text of a key pair is accepted as a secret key and gives the
/// same key pair back.
pub proof fn lemma_secret_key_round_trip(keypair: Seq<u8>)
    requires
        is_keypair(keypair),
    ensures
        secret_key_outcome(base58_text(keypair)) == Ok::<Seq<u8>, AppErrorView>(keypair),
{
    lemma_base58_round_trip(keypair);
}

} // verus!
