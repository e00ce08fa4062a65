//! The operations of the service, one per endpoint. Each validates the
//! fields of its request in order, stops at the first that is invalid, and
//! otherwise answers with the response in text form.

use crate::base58::{base58_bytes, base58_text, lemma_base58_round_trip};
use crate::base64::{
    base64_bytes, base64_decode, base64_encode, base64_text, lemma_base64_round_trip,
};
use crate::errors::{result_view, AppError, AppErrorView};
use crate::instruction::{
    associated_token_address, build_initialize_mint, build_mint_to, build_system_transfer,
    build_token_transfer, built_or_rejected, derive_associated_token_address,
    initialize_mint_instruction, mint_to_instruction, system_transfer_instruction,
    token_transfer_instruction,
};
use crate::keys::{
    ed25519_signature, ed25519_verifies, has_neutral_nonce, is_keypair, Keypair, Signature,
    KEYPAIR_LENGTH, PUBLIC_KEY_LENGTH, SEED_LENGTH, SIGNATURE_LENGTH,
};
use crate::models::{
    instruction_response, keypair_response, send_sol_response, send_token_response,
    CreateTokenRequest, InstructionResponse, InstructionResponseView, KeypairResponse,
    MintTokenRequest, SendSolRequest, SendSolResponse, SendSolResponseView, SendTokenRequest,
    SendTokenResponse, SendTokenResponseView, SignMessageRequest, SignMessageResponse,
    SignMessageResponseView, VerifyMessageRequest, VerifyMessageResponse,
    VerifyMessageResponseView,
};
use crate::utils::{pubkey_outcome, secret_key_outcome, validate_pubkey, validate_secret_key};
use vstd::bytes::lemma_auto_spec_u64_to_from_le_bytes;
use vstd::prelude::*;
use vstd::string::*;
use vstd::utf8::encode_utf8;

verus! {

/// Generates a fresh Ed25519 key pair and gives it as text.
///
/// Whatever key pair is drawn, the response is its text form, and the
/// secret decodes from base58 to exactly 64 bytes whose last 32 are the
/// public key derived from the first 32.
pub fn generate_keypair() -> (response: KeypairResponse)
    ensures
        base58_bytes(response.secret@) matches Some(keypair) && is_keypair(keypair)
            && response@ == keypair_response(keypair),
{
    let keypair = Keypair::generate();
    KeypairResponse::from_keypair(&keypair)
}

/// What `create_token` answers.
pub open spec fn create_token_outcome(
    mint_authority: Seq<char>,
    mint: Seq<char>,
    decimals: u8,
) -> Result<InstructionResponseView, AppErrorView> {
    match pubkey_outcome(mint_authority) {
        Err(e) => Err(e),
        Ok(authority) => match pubkey_outcome(mint) {
            Err(e) => Err(e),
            Ok(mint) => Ok(
                instruction_response(initialize_mint_instruction(mint, authority, decimals)),
            ),
        },
    }
}

/// Builds the instruction that initialises a token mint, without a freeze
/// authority.
pub fn create_token(payload: CreateTokenRequest) -> (response: Result<
    InstructionResponse,
    AppError,
>)
    ensures
        result_view(response) == create_token_outcome(
            payload.mint_authority@,
            payload.mint@,
            payload.decimals,
        ),
{
    let mint_authority = match validate_pubkey(payload.mint_authority.as_str()) {
        Ok(key) => key,
        Err(e) => {
            return Err(e);
        },
    };
    let mint = match validate_pubkey(payload.mint.as_str()) {
        Ok(key) => key,
        Err(e) => {
            return Err(e);
        },
    };
    let built = build_initialize_mint(&mint, &mint_authority, payload.decimals);
    match built_or_rejected(built, "Failed to create mint instruction") {
        Ok(instruction) => Ok(InstructionResponse::from_instruction(&instruction)),
        Err(e) => Err(e),
    }
}

/// What `mint_token` answers.
pub open spec fn mint_token_outcome(
    mint: Seq<char>,
    destination: Seq<char>,
    authority: Seq<char>,
    amount: u64,
) -> Result<InstructionResponseView, AppErrorView> {
    match pubkey_outcome(mint) {
        Err(e) => Err(e),
        Ok(mint) => match pubkey_outcome(destination) {
            Err(e) => Err(e),
            Ok(destination) => match pubkey_outcome(authority) {
                Err(e) => Err(e),
                Ok(authority) => Ok(
                    instruction_response(
                        mint_to_instruction(mint, destination, authority, amount),
                    ),
                ),
            },
        },
    }
}

/// Builds the instruction that mints tokens into an account, signed by the
/// mint authority alone.
pub fn mint_token(payload: MintTokenRequest) -> (response: Result<InstructionResponse, AppError>)
    ensures
        result_view(response) == mint_token_outcome(
            payload.mint@,
            payload.destination@,
            payload.authority@,
            payload.amount,
        ),
{
    let mint = match validate_pubkey(payload.mint.as_str()) {
        Ok(key) => key,
        Err(e) => {
            return Err(e);
        },
    };
    let destination = match validate_pubkey(payload.destination.as_str()) {
        Ok(key) => key,
        Err(e) => {
            return Err(e);
        },
    };
    let authority = match validate_pubkey(payload.authority.as_str()) {
        Ok(key) => key,
        Err(e) => {
            return Err(e);
        },
    };
    let built = build_mint_to(&mint, &destination, &authority, payload.amount);
    match built_or_rejected(built, "Failed to create mint instruction") {
        Ok(instruction) => Ok(InstructionResponse::from_instruction(&instruction)),
        Err(e) => Err(e),
    }
}

/// What `sign_message` answers: the signature of the message's UTF-8 bytes
/// in base64, the signer's address, and the message itself.
pub open spec fn sign_message_outcome(secret: Seq<char>, message: Seq<char>) -> Result<
    SignMessageResponseView,
    AppErrorView,
> {
    match secret_key_outcome(secret) {
        Err(e) => Err(e),
        Ok(keypair) => Ok(
            SignMessageResponseView {
                signature: base64_text(ed25519_signature(keypair, encode_utf8(message))),
                public_key: base58_text(
                    keypair.subrange(SEED_LENGTH as int, KEYPAIR_LENGTH as int),
                ),
                message,
            },
        ),
    }
}

/// What `verify_message` answers: whether the signature is valid for the
/// message's UTF-8 bytes, with the message and the key as they were given.
pub open spec fn verify_message_outcome(
    pubkey: Seq<char>,
    signature: Seq<char>,
    message: Seq<char>,
) -> Result<VerifyMessageResponseView, AppErrorView> {
    match pubkey_outcome(pubkey) {
        Err(e) => Err(e),
        Ok(key) => match base64_bytes(signature) {
            None => Err(AppErrorView::InvalidInput("Invalid base64 signature"@)),
            Some(bytes) => if bytes.len() != SIGNATURE_LENGTH {
                Err(AppErrorView::InvalidInput("Invalid signature format"@))
            } else {
                Ok(
                    VerifyMessageResponseView {
                        valid: ed25519_verifies(bytes, key, encode_utf8(message)),
                        message,
                        pubkey,
                    },
                )
            },
        },
    }
}

/// The response that says a signature is valid.
pub open spec fn accepted(pubkey: Seq<char>, message: Seq<char>) -> Result<
    VerifyMessageResponseView,
    AppErrorView,
> {
    Ok(VerifyMessageResponseView { valid: true, message, pubkey })
}

/// Verifying the text forms of a key and a signature answers what Ed25519
/// answers for their bytes: the encodings lose nothing.
pub proof fn lemma_verify_message_of_texts(key: Seq<u8>, signature: Seq<u8>, message: Seq<char>)
    requires
        key.len() == PUBLIC_KEY_LENGTH,
        signature.len() == SIGNATURE_LENGTH,
    ensures
        verify_message_outcome(base58_text(key), base64_text(signature), message) == Ok::<
            VerifyMessageResponseView,
            AppErrorView,
        >(
            VerifyMessageResponseView {
                valid: ed25519_verifies(signature, key, encode_utf8(message)),
                message,
                pubkey: base58_text(key),
            },
        ),
{
    lemma_base58_round_trip(key);
    lemma_base64_round_trip(signature);
}

/// Whether the signature in base64 text has the neutral element as its
/// nonce point.
pub open spec fn text_has_neutral_nonce(signature: Seq<char>) -> bool {
    base64_bytes(signature) matches Some(bytes) && has_neutral_nonce(bytes)
}

/// Signs a message with a secret key given as base58 text.
///
/// Signing is deterministic, and what it gives verifies: `verify_message`
/// on the signature, the public key and the message of the response
/// answers that the signature is valid. The one exception is a signature
/// whose nonce point is the neutral element, which strict verification
/// refuses.
pub fn sign_message(payload: SignMessageRequest) -> (response: Result<
    SignMessageResponse,
    AppError,
>)
    ensures
        result_view(response) == sign_message_outcome(payload.secret@, payload.message@),
        response matches Ok(signed) ==> text_has_neutral_nonce(signed.signature@)
            || verify_message_outcome(signed.public_key@, signed.signature@, signed.message@)
            == accepted(signed.public_key@, signed.message@),
{
    let keypair = match validate_secret_key(payload.secret.as_str()) {
        Ok(keypair) => keypair,
        Err(e) => {
            return Err(e);
        },
    };
    let signature = keypair.sign_message(payload.message.as_str().as_bytes());
    let public_key = keypair.pubkey();
    Ok(
        SignMessageResponse {
            signature: base64_encode(signature.bytes.as_slice()),
            public_key: public_key.text(),
            message: payload.message,
        },
    )
}

/// Verifies a base64 signature of a message under a base58 public key.
///
/// A signature that is well formed but wrong is answered with
/// `valid: false`; only malformed input is an error.
pub fn verify_message(payload: VerifyMessageRequest) -> (response: Result<
    VerifyMessageResponse,
    AppError,
>)
    ensures
        result_view(response) == verify_message_outcome(
            payload.pubkey@,
            payload.signature@,
            payload.message@,
        ),
{
    let pubkey = match validate_pubkey(payload.pubkey.as_str()) {
        Ok(key) => key,
        Err(e) => {
            return Err(e);
        },
    };
    let signature_bytes = match base64_decode(payload.signature.as_str()) {
        Some(bytes) => bytes,
        None => {
            return Err(AppError::InvalidInput(String::from_str("Invalid base64 signature")));
        },
    };
    let signature = match Signature::from_bytes(signature_bytes.as_slice()) {
        Some(signature) => signature,
        None => {
            return Err(AppError::InvalidInput(String::from_str("Invalid signature format")));
        },
    };
    let valid = signature.verify(&pubkey, payload.message.as_str().as_bytes());
    Ok(VerifyMessageResponse { valid, message: payload.message, pubkey: payload.pubkey })
}

/// A signature text that is not valid base64, or that decodes to a length
/// other than 64 bytes, is rejected as invalid input whatever the key and
/// the message are.
pub proof fn lemma_malformed_signature_rejected(
    pubkey: Seq<char>,
    signature: Seq<char>,
    message: Seq<char>,
)
    requires
        base64_bytes(signature) matches Some(bytes) ==> bytes.len() != SIGNATURE_LENGTH,
    ensures
        verify_message_outcome(pubkey, signature, message) matches Err(
            AppErrorView::InvalidInput(_),
        ),
{
}

/// What `send_sol` answers.
pub open spec fn send_sol_outcome(from: Seq<char>, to: Seq<char>, lamports: u64) -> Result<
    SendSolResponseView,
    AppErrorView,
> {
    match pubkey_outcome(from) {
        Err(e) => Err(e),
        Ok(from) => match pubkey_outcome(to) {
            Err(e) => Err(e),
            Ok(to) => if lamports == 0 {
                Err(AppErrorView::InvalidInput("Amount must be greater than 0"@))
            } else {
                Ok(send_sol_response(system_transfer_instruction(from, to, lamports)))
            },
        },
    }
}

/// Builds the instruction that transfers lamports between two accounts.
///
/// A response names two accounts, the sender and then the recipient, and
/// its payload is the 16 characters that stand for 12 bytes.
pub fn send_sol(payload: SendSolRequest) -> (response: Result<SendSolResponse, AppError>)
    ensures
        result_view(response) == send_sol_outcome(payload.from@, payload.to@, payload.lamports),
        response matches Ok(sent) ==> sent.accounts@.len() == 2 && sent.instruction_data@.len()
            == 16,
{
    let from = match validate_pubkey(payload.from.as_str()) {
        Ok(key) => key,
        Err(e) => {
            return Err(e);
        },
    };
    let to = match validate_pubkey(payload.to.as_str()) {
        Ok(key) => key,
        Err(e) => {
            return Err(e);
        },
    };
    if payload.lamports == 0 {
        return Err(AppError::InvalidInput(String::from_str("Amount must be greater than 0")));
    }
    let instruction = build_system_transfer(&from, &to, payload.lamports);
    let sent = SendSolResponse::from_instruction(&instruction);
    proof {
        lemma_auto_spec_u64_to_from_le_bytes();
        assert(instruction@.accounts.len() == 2);
        assert(instruction.data@.len() == 12);
        assert(sent@.accounts.len() == 2);
    }
    Ok(sent)
}

/// A transfer of zero lamports is rejected as invalid input whatever the
/// addresses are.
pub proof fn lemma_zero_lamports_rejected(from: Seq<char>, to: Seq<char>)
    ensures
        send_sol_outcome(from, to, 0) matches Err(AppErrorView::InvalidInput(_)),
{
}

/// What `send_token` answers: a transfer from the owner's associated token
/// account to the destination's, both for the given mint.
pub open spec fn send_token_outcome(
    destination: Seq<char>,
    mint: Seq<char>,
    owner: Seq<char>,
    amount: u64,
) -> Result<SendTokenResponseView, AppErrorView> {
    match pubkey_outcome(destination) {
        Err(e) => Err(e),
        Ok(destination) => match pubkey_outcome(mint) {
            Err(e) => Err(e),
            Ok(mint) => match pubkey_outcome(owner) {
                Err(e) => Err(e),
                Ok(owner) => if amount == 0 {
                    Err(AppErrorView::InvalidInput("Amount must be greater than 0"@))
                } else {
                    Ok(
                        send_token_response(
                            token_transfer_instruction(
                                associated_token_address(owner, mint),
                                associated_token_address(destination, mint),
                                owner,
                                amount,
                            ),
                        ),
                    )
                },
            },
        },
    }
}

/// Builds the instruction that transfers tokens of a mint from the owner's
/// associated token account to the destination's, signed by the owner.
pub fn send_token(payload: SendTokenRequest) -> (response: Result<SendTokenResponse, AppError>)
    ensures
        result_view(response) == send_token_outcome(
            payload.destination@,
            payload.mint@,
            payload.owner@,
            payload.amount,
        ),
{
    let destination = match validate_pubkey(payload.destination.as_str()) {
        Ok(key) => key,
        Err(e) => {
            return Err(e);
        },
    };
    let mint = match validate_pubkey(payload.mint.as_str()) {
        Ok(key) => key,
        Err(e) => {
            return Err(e);
        },
    };
    let owner = match validate_pubkey(payload.owner.as_str()) {
        Ok(key) => key,
        Err(e) => {
            return Err(e);
        },
    };
    if payload.amount == 0 {
        return Err(AppError::InvalidInput(String::from_str("Amount must be greater than 0")));
    }
    let source_ata = derive_associated_token_address(&owner, &mint);
    let destination_ata = derive_associated_token_address(&destination, &mint);
    let built = build_token_transfer(&source_ata, &destination_ata, &owner, payload.amount);
    match built_or_rejected(built, "Failed to create transfer instruction") {
        Ok(instruction) => Ok(SendTokenResponse::from_instruction(&instruction)),
        Err(e) => Err(e),
    }
}

} // verus!
