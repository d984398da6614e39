//! The requests the booth makes of its collaborators.
//!
//! The booth decides; the host carries out. An operation that succeeds
//! hands back the requests to make, in full: of the funding service, to
//! create an account at a derived address; of the token service, to bind a
//! custody account to its asset and owner, and to move base units from one
//! custody account to another.

use crate::errors::ProgramError;
use crate::pubkey::{DerivationProof, Pubkey};
use solana_program::instruction::Instruction;
use vstd::prelude::*;

verus! {

/// An instruction in the host's own form, ready to be invoked. The booth
/// builds such instructions and hands them on; it does not look inside.
#[verifier::external_type_specification]
#[verifier::external_body]
pub struct ExInstruction(solana_program::instruction::Instruction);

/// The instruction that the token service's library builds for a transfer,
/// or `None` where it refuses to build one.
pub uninterp spec fn transfer_instruction(
    token_program: Pubkey,
    source: Pubkey,
    destination: Pubkey,
    authority: Pubkey,
    signers: Seq<Pubkey>,
    amount: u64,
) -> Option<Instruction>;

/// The instruction that the token service's library builds to initialize a
/// custody account, or `None` where it refuses to build one.
pub uninterp spec fn initialize_account_instruction(
    token_program: Pubkey,
    account: Pubkey,
    mint: Pubkey,
    owner: Pubkey,
) -> Option<Instruction>;

/// The instruction that the host's library builds to create an account.
pub uninterp spec fn create_account_instruction(
    payer: Pubkey,
    address: Pubkey,
    lamports: u64,
    space: u64,
    owner: Pubkey,
) -> Instruction;

/// Calls `spl_token::instruction::transfer`, which builds the instruction
/// from its arguments alone and refuses only a program that is not the
/// token service.
#[verifier::external_body]
fn spl_transfer(
    token_program: &Pubkey,
    source: &Pubkey,
    destination: &Pubkey,
    authority: &Pubkey,
    signers: &Vec<Pubkey>,
    amount: u64,
) -> (built: Option<Instruction>)
    ensures
        built == transfer_instruction(
            *token_program,
            *source,
            *destination,
            *authority,
            signers@,
            amount,
        ),
{
    let signer_keys: Vec<solana_program::pubkey::Pubkey> = signers.iter().map(
        |signer| solana_program::pubkey::Pubkey::new_from_array(signer.0),
    ).collect();
    let signer_refs: Vec<&solana_program::pubkey::Pubkey> = signer_keys.iter().collect();
    spl_token::instruction::transfer(
        &solana_program::pubkey::Pubkey::new_from_array(token_program.0),
        &solana_program::pubkey::Pubkey::new_from_array(source.0),
        &solana_program::pubkey::Pubkey::new_from_array(destination.0),
        &solana_program::pubkey::Pubkey::new_from_array(authority.0),
        &signer_refs,
        amount,
    ).ok()
}

/// Calls `spl_token::instruction::initialize_account`, which builds the
/// instruction from its arguments alone and refuses only a program that is
/// not the token service.
#[verifier::external_body]
fn spl_initialize_account(
    token_program: &Pubkey,
    account: &Pubkey,
    mint: &Pubkey,
    owner: &Pubkey,
) -> (built: Option<Instruction>)
    ensures
        built == initialize_account_instruction(*token_program, *account, *mint, *owner),
{
    spl_token::instruction::initialize_account(
        &solana_program::pubkey::Pubkey::new_from_array(token_program.0),
        &solana_program::pubkey::Pubkey::new_from_array(account.0),
        &solana_program::pubkey::Pubkey::new_from_array(mint.0),
        &solana_program::pubkey::Pubkey::new_from_array(owner.0),
    ).ok()
}

/// Calls `system_instruction::create_account` of `solana_program`, which
/// builds the instruction from its arguments alone.
#[verifier::external_body]
fn system_create_account(
    payer: &Pubkey,
    address: &Pubkey,
    lamports: u64,
    space: u64,
    owner: &Pubkey,
) -> (built: Instruction)
    ensures
        built == create_account_instruction(*payer, *address, lamports, space, *owner),
{
    solana_program::system_instruction::create_account(
        &solana_program::pubkey::Pubkey::new_from_array(payer.0),
        &solana_program::pubkey::Pubkey::new_from_array(address.0),
        lamports,
        space,
        &solana_program::pubkey::Pubkey::new_from_array(owner.0),
    )
}

/// An instruction that was built; `IncorrectProgramId` where the token
/// service's library refused to build one.
pub open spec fn built_spec(outcome: Option<Instruction>) -> Result<Instruction, ProgramError> {
    match outcome {
        Some(instruction) => Ok(instruction),
        None => Err(ProgramError::IncorrectProgramId),
    }
}

/// Sorts the outcome of building an instruction for the token service.
pub fn built(outcome: Option<Instruction>) -> (r: Result<Instruction, ProgramError>)
    ensures
        r == built_spec(outcome),
{
    match outcome {
        Some(instruction) => Ok(instruction),
        None => Err(ProgramError::IncorrectProgramId),
    }
}

/// How a transfer is authorised.
#[derive(Debug, Clone, Copy, PartialEq, Eq)]
pub enum Authorization {
    /// By the signature of the authority on the transaction.
    Signature,
    /// By the seeds and bump from which the authority's address derives; no
    /// signature stands behind it.
    Derivation(DerivationProof),
}

/// A request to the token service to move `amount` base units from
/// `source` to `destination`.
#[derive(Debug, Clone, Copy, PartialEq, Eq)]
pub struct TokenTransfer {
    /// The token service that is asked.
    pub program: Pubkey,
    /// The custody account that pays.
    pub source: Pubkey,
    /// The custody account that receives.
    pub destination: Pubkey,
    /// The authority over `source`.
    pub authority: Pubkey,
    /// How many base units move.
    pub amount: u64,
    /// What stands behind the authority.
    pub authorization: Authorization,
}

/// A request to the funding service to create and fund an account at a
/// derived address.
#[derive(Debug, Clone, Copy, PartialEq, Eq)]
pub struct CreateAccount {
    /// Who pays for the account.
    pub payer: Pubkey,
    /// The address of the new account.
    pub address: Pubkey,
    /// The size of the new account, in bytes.
    pub space: u64,
    /// The program that owns the new account.
    pub owner: Pubkey,
    /// The derivation of `address`, which authorises the creation.
    pub proof: DerivationProof,
}

/// A request to the token service to make `account` a custody account of
/// `mint` under the authority `owner`.
#[derive(Debug, Clone, Copy, PartialEq, Eq)]
pub struct InitializeAccount {
    /// The token service that is asked.
    pub program: Pubkey,
    /// The account to initialize.
    pub account: Pubkey,
    /// The asset it is to hold.
    pub mint: Pubkey,
    /// The authority over it.
    pub owner: Pubkey,
}

impl TokenTransfer {
    /// The addresses named to the token service as signers beside the
    /// authority: the authority itself for a transfer on its signature,
    /// none for a transfer on a derivation.
    pub open spec fn signers_spec(self) -> Seq<Pubkey> {
        match self.authorization {
            Authorization::Signature => seq![self.authority],
            Authorization::Derivation(_) => Seq::empty(),
        }
    }

    /// The instruction that asks the token service for this transfer.
    pub open spec fn instruction_spec(self) -> Result<Instruction, ProgramError> {
        built_spec(
            transfer_instruction(
                self.program,
                self.source,
                self.destination,
                self.authority,
                self.signers_spec(),
                self.amount,
            ),
        )
    }

    /// Builds the instruction that asks the token service for this
    /// transfer. `IncorrectProgramId` where the program named as the token
    /// service is not the token service.
    pub fn instruction(&self) -> (r: Result<Instruction, ProgramError>)
        ensures
            r == self.instruction_spec(),
    {
        let mut signers: Vec<Pubkey> = Vec::new();
        match self.authorization {
            Authorization::Signature => {
                signers.push(self.authority);
            },
            Authorization::Derivation(_) => {},
        }
        proof {
            assert(signers@ =~= self.signers_spec());
        }
        built(
            spl_transfer(
                &self.program,
                &self.source,
                &self.destination,
                &self.authority,
                &signers,
                self.amount,
            ),
        )
    }
}

impl InitializeAccount {
    /// The instruction that asks the token service for this initialization.
    pub open spec fn instruction_spec(self) -> Result<Instruction, ProgramError> {
        built_spec(
            initialize_account_instruction(self.program, self.account, self.mint, self.owner),
        )
    }

    /// Builds the instruction that asks the token service for this
    /// initialization. `IncorrectProgramId` where the program named as the
    /// token service is not the token service.
    pub fn instruction(&self) -> (r: Result<Instruction, ProgramError>)
        ensures
            r == self.instruction_spec(),
    {
        built(spl_initialize_account(&self.program, &self.account, &self.mint, &self.owner))
    }
}

impl CreateAccount {
    /// Builds the instruction that asks the funding service to create the
    /// account and fund it with `lamports`, which the host's rent rules
    /// set for an account of `space` bytes.
    pub fn instruction(&self, lamports: u64) -> (built: Instruction)
        ensures
            built == create_account_instruction(
                self.payer,
                self.address,
                lamports,
                self.space,
                self.owner,
            ),
    {
        system_create_account(&self.payer, &self.address, lamports, self.space, &self.owner)
    }
}

} // verus!
