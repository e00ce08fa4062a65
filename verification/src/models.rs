//! The requests that the service takes and the responses that it gives.

use crate::base58::{base58_bytes, base58_encode, base58_text};
use crate::base64::{base64_encode, base64_text};
use crate::instruction::{Instruction, InstructionAccountView, InstructionView};
use crate::keys::{address_bytes, is_keypair, Keypair, KEYPAIR_LENGTH, SEED_LENGTH};
use vstd::prelude::*;

verus! {

/// A freshly generated key pair, both halves as base58 text.
#[derive(Debug, Clone, PartialEq, Eq)]
pub struct KeypairResponse {
    pub pubkey: String,
    pub secret: String,
}

/// The mathematical value of a [`KeypairResponse`].
pub ghost struct KeypairResponseView {
    pub pubkey: Seq<char>,
    pub secret: Seq<char>,
}

impl View for KeypairResponse {
    type V = KeypairResponseView;

    open spec fn view(&self) -> KeypairResponseView {
        KeypairResponseView { pubkey: self.pubkey@, secret: self.secret@ }
    }
}

/// A request to initialise a token mint.
#[derive(Debug, Clone, PartialEq, Eq)]
pub struct CreateTokenRequest {
    pub mint_authority: String,
    pub mint: String,
    pub decimals: u8,
}

/// A request to mint tokens into an account.
#[derive(Debug, Clone, PartialEq, Eq)]
pub struct MintTokenRequest {
    pub mint: String,
    pub destination: String,
    pub authority: String,
    pub amount: u64,
}

/// An account of an instruction, its address as base58 text.
#[derive(Debug, Clone, PartialEq, Eq)]
pub struct AccountMeta {
    pub pubkey: String,
    pub is_signer: bool,
    pub is_writable: bool,
}

/// The mathematical value of an [`AccountMeta`].
pub ghost struct AccountMetaView {
    pub pubkey: Seq<char>,
    pub is_signer: bool,
    pub is_writable: bool,
}

impl View for AccountMeta {
    type V = AccountMetaView;

    open spec fn view(&self) -> AccountMetaView {
        AccountMetaView {
            pubkey: self.pubkey@,
            is_signer: self.is_signer,
            is_writable: self.is_writable,
        }
    }
}

/// An instruction in text form: addresses in base58, the payload in base64.
#[derive(Debug, Clone, PartialEq, Eq)]
pub struct InstructionResponse {
    pub program_id: String,
    pub accounts: Vec<AccountMeta>,
    pub instruction_data: String,
}

/// The mathematical value of an [`InstructionResponse`].
pub ghost struct InstructionResponseView {
    pub program_id: Seq<char>,
    pub accounts: Seq<AccountMetaView>,
    pub instruction_data: Seq<char>,
}

impl View for InstructionResponse {
    type V = InstructionResponseView;

    open spec fn view(&self) -> InstructionResponseView {
        InstructionResponseView {
            program_id: self.program_id@,
            accounts: Seq::new(self.accounts@.len(), |i: int| self.accounts@[i]@),
            instruction_data: self.instruction_data@,
        }
    }
}

/// A request to sign a message with a secret key given as base58 text.
#[derive(Debug, Clone, PartialEq, Eq)]
pub struct SignMessageRequest {
    pub message: String,
    pub secret: String,
}

/// A signature in base64, the signer's public key in base58, and the
/// message that was signed.
#[derive(Debug, Clone, PartialEq, Eq)]
pub struct SignMessageResponse {
    pub signature: String,
    pub public_key: String,
    pub message: String,
}

/// The mathematical value of a [`SignMessageResponse`].
pub ghost struct SignMessageResponseView {
    pub signature: Seq<char>,
    pub public_key: Seq<char>,
    pub message: Seq<char>,
}

impl View for SignMessageResponse {
    type V = SignMessageResponseView;

    open spec fn view(&self) -> SignMessageResponseView {
        SignMessageResponseView {
            signature: self.signature@,
            public_key: self.public_key@,
            message: self.message@,
        }
    }
}

/// A request to verify a base64 signature of a message under a base58
/// public key.
#[derive(Debug, Clone, PartialEq, Eq)]
pub struct VerifyMessageRequest {
    pub message: String,
    pub signature: String,
    pub pubkey: String,
}

/// Whether the signature was valid, with the message and key that were
/// asked about.
#[derive(Debug, Clone, PartialEq, Eq)]
pub struct VerifyMessageResponse {
    pub valid: bool,
    pub message: String,
    pub pubkey: String,
}

/// The mathematical value of a [`VerifyMessageResponse`].
pub ghost struct VerifyMessageResponseView {
    pub valid: bool,
    pub message: Seq<char>,
    pub pubkey: Seq<char>,
}

impl View for VerifyMessageResponse {
    type V = VerifyMessageResponseView;

    open spec fn view(&self) -> VerifyMessageResponseView {
        VerifyMessageResponseView {
            valid: self.valid,
            message: self.message@,
            pubkey: self.pubkey@,
        }
    }
}

/// A request to transfer lamports between two accounts.
#[derive(Debug, Clone, PartialEq, Eq)]
pub struct SendSolRequest {
    pub from: String,
    pub to: String,
    pub lamports: u64,
}

/// A system transfer in text form, its accounts as plain addresses.
#[derive(Debug, Clone, PartialEq, Eq)]
pub struct SendSolResponse {
    pub program_id: String,
    pub accounts: Vec<String>,
    pub instruction_data: String,
}

/// The mathematical value of a [`SendSolResponse`].
pub ghost struct SendSolResponseView {
    pub program_id: Seq<char>,
    pub accounts: Seq<Seq<char>>,
    pub instruction_data: Seq<char>,
}

impl View for SendSolResponse {
    type V = SendSolResponseView;

    open spec fn view(&self) -> SendSolResponseView {
        SendSolResponseView {
            program_id: self.program_id@,
            accounts: Seq::new(self.accounts@.len(), |i: int| self.accounts@[i]@),
            instruction_data: self.instruction_data@,
        }
    }
}

/// A request to transfer tokens of a mint from an owner to a destination
/// wallet.
#[derive(Debug, Clone, PartialEq, Eq)]
pub struct SendTokenRequest {
    pub destination: String,
    pub mint: String,
    pub owner: String,
    pub amount: u64,
}

/// An account of a token transfer, its address as base58 text.
#[derive(Debug, Clone, PartialEq, Eq)]
pub struct SendTokenAccount {
    pub pubkey: String,
    pub is_signer: bool,
}

/// The mathematical value of a [`SendTokenAccount`].
pub ghost struct SendTokenAccountView {
    pub pubkey: Seq<char>,
    pub is_signer: bool,
}

impl View for SendTokenAccount {
    type V = SendTokenAccountView;

    open spec fn view(&self) -> SendTokenAccountView {
        SendTokenAccountView { pubkey: self.pubkey@, is_signer: self.is_signer }
    }
}

/// A token transfer in text form.
#[derive(Debug, Clone, PartialEq, Eq)]
pub struct SendTokenResponse {
    pub program_id: String,
    pub accounts: Vec<SendTokenAccount>,
    pub instruction_data: String,
}

/// The mathematical value of a [`SendTokenResponse`].
pub ghost struct SendTokenResponseView {
    pub program_id: Seq<char>,
    pub accounts: Seq<SendTokenAccountView>,
    pub instruction_data: Seq<char>,
}

impl View for SendTokenResponse {
    type V = SendTokenResponseView;

    open spec fn view(&self) -> SendTokenResponseView {
        SendTokenResponseView {
            program_id: self.program_id@,
            accounts: Seq::new(self.accounts@.len(), |i: int| self.accounts@[i]@),
            instruction_data: self.instruction_data@,
        }
    }
}

/// The text form of a key pair: the public half as an address, all 64
/// bytes in base58.
pub open spec fn keypair_response(keypair: Seq<u8>) -> KeypairResponseView {
    KeypairResponseView {
        pubkey: base58_text(keypair.subrange(SEED_LENGTH as int, KEYPAIR_LENGTH as int)),
        secret: base58_text(keypair),
    }
}

/// The text form of an account with both of its flags.
pub open spec fn account_meta(account: InstructionAccountView) -> AccountMetaView {
    AccountMetaView {
        pubkey: base58_text(account.pubkey),
        is_signer: account.is_signer,
        is_writable: account.is_writable,
    }
}

/// The text form of an account with its signer flag.
pub open spec fn send_token_account(account: InstructionAccountView) -> SendTokenAccountView {
    SendTokenAccountView { pubkey: base58_text(account.pubkey), is_signer: account.is_signer }
}

/// The text form of an instruction, its accounts in order with both flags.
pub open spec fn instruction_response(ix: InstructionView) -> InstructionResponseView {
    InstructionResponseView {
        program_id: base58_text(ix.program_id),
        accounts: Seq::new(ix.accounts.len(), |i: int| account_meta(ix.accounts[i])),
        instruction_data: base64_text(ix.data),
    }
}

/// The text form of an instruction, its accounts in order as addresses.
pub open spec fn send_sol_response(ix: InstructionView) -> SendSolResponseView {
    SendSolResponseView {
        program_id: base58_text(ix.program_id),
        accounts: Seq::new(ix.accounts.len(), |i: int| base58_text(ix.accounts[i].pubkey)),
        instruction_data: base64_text(ix.data),
    }
}

/// The text form of an instruction, its accounts in order with their
/// signer flags.
pub open spec fn send_token_response(ix: InstructionView) -> SendTokenResponseView {
    SendTokenResponseView {
        program_id: base58_text(ix.program_id),
        accounts: Seq::new(ix.accounts.len(), |i: int| send_token_account(ix.accounts[i])),
        instruction_data: base64_text(ix.data),
    }
}

impl KeypairResponse {
    /// Writes a key pair as text. The secret decodes back to the 64 bytes
    /// of the key pair, and the address parses back to its public half.
    pub fn from_keypair(keypair: &Keypair) -> (response: KeypairResponse)
        ensures
            response@ == keypair_response(keypair@),
            is_keypair(keypair@),
            base58_bytes(response.secret@) == Some(keypair@),
            address_bytes(response.pubkey@) == Some(
                keypair@.subrange(SEED_LENGTH as int, KEYPAIR_LENGTH as int),
            ),
    {
        let pubkey = keypair.pubkey().text();
        let bytes = keypair.to_bytes();
        let secret = base58_encode(bytes.as_slice());
        KeypairResponse { pubkey, secret }
    }
}

impl InstructionResponse {
    /// Writes an instruction as text, keeping the order of its accounts.
    pub fn from_instruction(ix: &Instruction) -> (response: InstructionResponse)
        ensures
            response@ == instruction_response(ix@),
            response.instruction_data@.len() == 4 * ((ix.data@.len() + 2) / 3),
    {
        let mut accounts: Vec<AccountMeta> = Vec::new();
        for i in 0..ix.accounts.len()
            invariant
                accounts@.len() == i,
                forall|j: int| 0 <= j < i ==> accounts@[j]@ == account_meta(ix.accounts@[j]@),
        {
            let account = &ix.accounts[i];
            accounts.push(
                AccountMeta {
                    pubkey: account.pubkey.text(),
                    is_signer: account.is_signer,
                    is_writable: account.is_writable,
                },
            );
        }
        let response = InstructionResponse {
            program_id: ix.program_id.text(),
            accounts,
            instruction_data: base64_encode(ix.data.as_slice()),
        };
        assert(response@.accounts =~= instruction_response(ix@).accounts);
        response
    }
}

impl SendSolResponse {
    /// Writes an instruction as text, its accounts as plain addresses in
    /// their order.
    pub fn from_instruction(ix: &Instruction) -> (response: SendSolResponse)
        ensures
            response@ == send_sol_response(ix@),
            response.instruction_data@.len() == 4 * ((ix.data@.len() + 2) / 3),
    {
        let mut accounts: Vec<String> = Vec::new();
        for i in 0..ix.accounts.len()
            invariant
                accounts@.len() == i,
                forall|j: int|
                    0 <= j < i ==> accounts@[j]@ == base58_text(ix.accounts@[j]@.pubkey),
        {
            accounts.push(ix.accounts[i].pubkey.text());
        }
        let response = SendSolResponse {
            program_id: ix.program_id.text(),
            accounts,
            instruction_data: base64_encode(ix.data.as_slice()),
        };
        assert(response@.accounts =~= send_sol_response(ix@).accounts);
        response
    }
}

impl SendTokenResponse {
    /// Writes an instruction as text, its accounts in order with their
    /// signer flags.
    pub fn from_instruction(ix: &Instruction) -> (response: SendTokenResponse)
        ensures
            response@ == send_token_response(ix@),
            response.instruction_data@.len() == 4 * ((ix.data@.len() + 2) / 3),
    {
        let mut accounts: Vec<SendTokenAccount> = Vec::new();
        for i in 0..ix.accounts.len()
            invariant
                accounts@.len() == i,
                forall|j: int|
                    0 <= j < i ==> accounts@[j]@ == send_token_account(ix.accounts@[j]@),
        {
            let account = &ix.accounts[i];
            accounts.push(
                SendTokenAccount { pubkey: account.pubkey.text(), is_signer: account.is_signer },
            );
        }
        let response = SendTokenResponse {
            program_id: ix.program_id.text(),
            accounts,
            instruction_data: base64_encode(ix.data.as_slice()),
        };
        assert(response@.accounts =~= send_token_response(ix@).accounts);
        response
    }
}

} // verus!
