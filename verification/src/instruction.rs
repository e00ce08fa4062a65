//! Instructions for the token and system programs, as plain values.
//!
//! The instructions are built by `spl_token`, `solana_system_interface` and
//! `spl_associated_token_account`. The contracts of the wrappers in this
//! module say what those builders return and are believed, not proved.

use crate::errors::{result_view, AppError, AppErrorView};
use crate::keys::PublicKey;
use vstd::bytes::spec_u64_to_le_bytes;
use vstd::prelude::*;
use vstd::string::*;

verus! {

/// The address of the token program, `TokenkegQfeZyiNwAJbNbGKPFXCWuBvf9Ss623VQ5DA`.
pub const TOKEN_PROGRAM_ID: [u8; 32] = [
    6, 221, 246, 225, 215, 101, 161, 147, 217, 203, 225, 70, 206, 235, 121, 172,
    28, 180, 133, 237, 95, 91, 55, 145, 58, 140, 245, 133, 126, 255, 0, 169,
];

/// The address of the rent sysvar, `SysvarRent111111111111111111111111111111111`.
pub const RENT_SYSVAR_ID: [u8; 32] = [
    6, 167, 213, 23, 25, 44, 92, 81, 33, 140, 201, 76, 61, 74, 241, 127,
    88, 218, 238, 8, 155, 161, 253, 68, 227, 219, 217, 138, 0, 0, 0, 0,
];

/// The address of the system program, `11111111111111111111111111111111`.
pub const SYSTEM_PROGRAM_ID: [u8; 32] = [
    0, 0, 0, 0, 0, 0, 0, 0, 0, 0, 0, 0, 0, 0, 0, 0,
    0, 0, 0, 0, 0, 0, 0, 0, 0, 0, 0, 0, 0, 0, 0, 0,
];

/// An account that an instruction refers to.
#[derive(Debug, Clone, Copy, PartialEq, Eq)]
pub struct InstructionAccount {
    pub pubkey: PublicKey,
    pub is_signer: bool,
    pub is_writable: bool,
}

/// The mathematical value of an [`InstructionAccount`].
pub ghost struct InstructionAccountView {
    pub pubkey: Seq<u8>,
    pub is_signer: bool,
    pub is_writable: bool,
}

impl View for InstructionAccount {
    type V = InstructionAccountView;

    open spec fn view(&self) -> InstructionAccountView {
        InstructionAccountView {
            pubkey: self.pubkey@,
            is_signer: self.is_signer,
            is_writable: self.is_writable,
        }
    }
}

/// An instruction: the program to run, the accounts it refers to in order,
/// and the payload handed to the program.
#[derive(Debug, Clone, PartialEq, Eq)]
pub struct Instruction {
    pub program_id: PublicKey,
    pub accounts: Vec<InstructionAccount>,
    pub data: Vec<u8>,
}

/// The mathematical value of an [`Instruction`].
pub ghost struct InstructionView {
    pub program_id: Seq<u8>,
    pub accounts: Seq<InstructionAccountView>,
    pub data: Seq<u8>,
}

impl View for Instruction {
    type V = InstructionView;

    open spec fn view(&self) -> InstructionView {
        InstructionView {
            program_id: self.program_id@,
            accounts: Seq::new(self.accounts@.len(), |i: int| self.accounts@[i]@),
            data: self.data@,
        }
    }
}

impl InstructionAccount {
    /// An account reference from its parts.
    pub fn new(pubkey: [u8; 32], is_signer: bool, is_writable: bool) -> (account: Self)
        ensures
            account@ == (InstructionAccountView { pubkey: pubkey@, is_signer, is_writable }),
    {
        InstructionAccount { pubkey: PublicKey { bytes: pubkey }, is_signer, is_writable }
    }
}

impl Instruction {
    /// An instruction from its parts.
    pub fn new(program_id: [u8; 32], accounts: Vec<InstructionAccount>, data: Vec<u8>) -> (ix:
        Self)
        ensures
            ix.program_id@ == program_id@,
            ix.accounts == accounts,
            ix.data == data,
    {
        Instruction { program_id: PublicKey { bytes: program_id }, accounts, data }
    }
}

/// An account that the instruction may write to.
pub open spec fn writable(pubkey: Seq<u8>, is_signer: bool) -> InstructionAccountView {
    InstructionAccountView { pubkey, is_signer, is_writable: true }
}

/// An account that the instruction only reads.
pub open spec fn readonly(pubkey: Seq<u8>, is_signer: bool) -> InstructionAccountView {
    InstructionAccountView { pubkey, is_signer, is_writable: false }
}

/// The token program's `InitializeMint` instruction without a freeze
/// authority: tag 0, the decimals, the mint authority, and a 0 for the
/// absent freeze authority.
pub open spec fn initialize_mint_instruction(
    mint: Seq<u8>,
    mint_authority: Seq<u8>,
    decimals: u8,
) -> InstructionView {
    InstructionView {
        program_id: TOKEN_PROGRAM_ID@,
        accounts: seq![writable(mint, false), readonly(RENT_SYSVAR_ID@, false)],
        data: seq![0u8, decimals] + mint_authority + seq![0u8],
    }
}

/// The token program's `MintTo` instruction signed by the authority alone:
/// tag 7, then the amount in little-endian order.
pub open spec fn mint_to_instruction(
    mint: Seq<u8>,
    destination: Seq<u8>,
    authority: Seq<u8>,
    amount: u64,
) -> InstructionView {
    InstructionView {
        program_id: TOKEN_PROGRAM_ID@,
        accounts: seq![
            writable(mint, false),
            writable(destination, false),
            readonly(authority, true),
        ],
        data: seq![7u8] + spec_u64_to_le_bytes(amount),
    }
}

/// The token program's `Transfer` instruction signed by the authority
/// alone: tag 3, then the amount in little-endian order.
pub open spec fn token_transfer_instruction(
    source: Seq<u8>,
    destination: Seq<u8>,
    authority: Seq<u8>,
    amount: u64,
) -> InstructionView {
    InstructionView {
        program_id: TOKEN_PROGRAM_ID@,
        accounts: seq![
            writable(source, false),
            writable(destination, false),
            readonly(authority, true),
        ],
        data: seq![3u8] + spec_u64_to_le_bytes(amount),
    }
}

/// The system program's `Transfer` instruction: the variant's index 2 as
/// four little-endian bytes, then the lamports in little-endian order.
pub open spec fn system_transfer_instruction(
    from: Seq<u8>,
    to: Seq<u8>,
    lamports: u64,
) -> InstructionView {
    InstructionView {
        program_id: SYSTEM_PROGRAM_ID@,
        accounts: seq![writable(from, true), writable(to, false)],
        data: seq![2u8, 0u8, 0u8, 0u8] + spec_u64_to_le_bytes(lamports),
    }
}

/// The address that the associated-token-account program derives for an
/// owner and a mint under the token program.
pub uninterp spec fn associated_token_address(owner: Seq<u8>, mint: Seq<u8>) -> Seq<u8>;

/// The error with which an instruction builder refuses its inputs.
#[verifier::external_type_specification]
#[verifier::external_body]
pub struct ExProgramError(spl_token::solana_program::program_error::ProgramError);

/// Builds with `spl_token::instruction::initialize_mint`, for the token
/// program and without a freeze authority.
///
/// Believed of `spl_token`: for its own program id the builder succeeds,
/// and the instruction is [`initialize_mint_instruction`].
#[verifier::external_body]
pub(crate) fn build_initialize_mint(
    mint: &PublicKey,
    mint_authority: &PublicKey,
    decimals: u8,
) -> (built: Result<Instruction, spl_token::solana_program::program_error::ProgramError>)
    ensures
        built is Ok,
        built matches Ok(ix) ==> ix@ == initialize_mint_instruction(
            mint@,
            mint_authority@,
            decimals,
        ),
{
    let ix = spl_token::instruction::initialize_mint(
        &spl_token::id(),
        &mint.bytes.into(),
        &mint_authority.bytes.into(),
        None,
        decimals,
    )?;
    let accounts = ix.accounts.iter().map(
        |a| InstructionAccount::new(a.pubkey.to_bytes(), a.is_signer, a.is_writable),
    );
    Ok(Instruction::new(ix.program_id.to_bytes(), accounts.collect(), ix.data))
}

/// Builds with `spl_token::instruction::mint_to`, for the token program
/// and with the authority as the only signer.
///
/// Believed of `spl_token`: for its own program id the builder succeeds,
/// and the instruction is [`mint_to_instruction`].
#[verifier::external_body]
pub(crate) fn build_mint_to(
    mint: &PublicKey,
    destination: &PublicKey,
    authority: &PublicKey,
    amount: u64,
) -> (built: Result<Instruction, spl_token::solana_program::program_error::ProgramError>)
    ensures
        built is Ok,
        built matches Ok(ix) ==> ix@ == mint_to_instruction(
            mint@,
            destination@,
            authority@,
            amount,
        ),
{
    let ix = spl_token::instruction::mint_to(
        &spl_token::id(),
        &mint.bytes.into(),
        &destination.bytes.into(),
        &authority.bytes.into(),
        &[],
        amount,
    )?;
    let accounts = ix.accounts.iter().map(
        |a| InstructionAccount::new(a.pubkey.to_bytes(), a.is_signer, a.is_writable),
    );
    Ok(Instruction::new(ix.program_id.to_bytes(), accounts.collect(), ix.data))
}

/// Builds with `spl_token::instruction::transfer`, for the token program
/// and with the authority as the only signer.
///
/// Believed of `spl_token`: for its own program id the builder succeeds,
/// and the instruction is [`token_transfer_instruction`].
#[verifier::external_body]
pub(crate) fn build_token_transfer(
    source: &PublicKey,
    destination: &PublicKey,
    authority: &PublicKey,
    amount: u64,
) -> (built: Result<Instruction, spl_token::solana_program::program_error::ProgramError>)
    ensures
        built is Ok,
        built matches Ok(ix) ==> ix@ == token_transfer_instruction(
            source@,
            destination@,
            authority@,
            amount,
        ),
{
    let ix = spl_token::instruction::transfer(
        &spl_token::id(),
        &source.bytes.into(),
        &destination.bytes.into(),
        &authority.bytes.into(),
        &[],
        amount,
    )?;
    let accounts = ix.accounts.iter().map(
        |a| InstructionAccount::new(a.pubkey.to_bytes(), a.is_signer, a.is_writable),
    );
    Ok(Instruction::new(ix.program_id.to_bytes(), accounts.collect(), ix.data))
}

/// Builds with `solana_system_interface::instruction::transfer`.
///
/// Believed of the builder: the instruction is
/// [`system_transfer_instruction`].
#[verifier::external_body]
pub(crate) fn build_system_transfer(from: &PublicKey, to: &PublicKey, lamports: u64) -> (ix:
    Instruction)
    ensures
        ix@ == system_transfer_instruction(from@, to@, lamports),
{
    let ix = solana_system_interface::instruction::transfer(
        &from.bytes.into(),
        &to.bytes.into(),
        lamports,
    );
    let accounts = ix.accounts.iter().map(
        |a| InstructionAccount::new(a.pubkey.to_bytes(), a.is_signer, a.is_writable),
    );
    Instruction::new(ix.program_id.to_bytes(), accounts.collect(), ix.data)
}

/// Derives with `spl_associated_token_account::get_associated_token_address`.
///
/// Believed of the derivation: the address depends on the owner and the mint
/// alone. It searches up to 255 bump seeds for an address off the curve and
/// panics if none is found; the SDK documents that as statistically
/// improbable, and no such pair of inputs is known.
#[verifier::external_body]
pub(crate) fn derive_associated_token_address(owner: &PublicKey, mint: &PublicKey) -> (address:
    PublicKey)
    ensures
        address@ == associated_token_address(owner@, mint@),
{
    let address = spl_associated_token_account::get_associated_token_address(
        &owner.bytes.into(),
        &mint.bytes.into(),
    );
    PublicKey { bytes: address.to_bytes() }
}

/// What a builder's answer becomes: the instruction as it is, or a
/// construction error with the given reason when the builder refused.
pub open spec fn built_outcome(
    built: Result<Instruction, spl_token::solana_program::program_error::ProgramError>,
    reason: Seq<char>,
) -> Result<InstructionView, AppErrorView> {
    match built {
        Ok(ix) => Ok(ix@),
        Err(_) => Err(AppErrorView::CryptoError(reason)),
    }
}

/// Turns a builder's answer into the library's own result.
pub fn built_or_rejected(
    built: Result<Instruction, spl_token::solana_program::program_error::ProgramError>,
    reason: &str,
) -> (instruction: Result<Instruction, AppError>)
    ensures
        result_view(instruction) == built_outcome(built, reason@),
        built matches Ok(ix) ==> instruction == Ok::<Instruction, AppError>(ix),
{
    match built {
        Ok(ix) => Ok(ix),
        Err(_) => Err(AppError::CryptoError(String::from_str(reason))),
    }
}

} // verus!
