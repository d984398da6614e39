//! The four operations of the booth, and the dispatch to them.
//!
//! An operation is a function of the program's identity, the ordered
//! account list and the instruction's arguments. It changes nothing itself:
//! it either names the rule that was broken or returns the requests that
//! the host is to carry out, as a whole or not at all.

use crate::account_info::AccountInfo;
use crate::amount::Decimal;
use crate::errors::ProgramError;
use crate::instruction::XBoothIntruction;
use crate::pubkey::Pubkey;
use crate::service::TokenTransfer;
use vstd::prelude::*;

pub mod deposit;
pub mod exchange;
pub mod initialize_exchange_booth;
pub mod utils;
pub mod withdraw;

verus! {

/// The exchange rate, units of asset B per unit of asset A: one half.
pub open spec fn token_a_b_xr_spec() -> Decimal {
    Decimal { mantissa: 5, scale: 1 }
}

/// The exchange rate that the booth applies.
pub fn token_a_b_xr() -> (rate: Decimal)
    ensures
        rate == token_a_b_xr_spec(),
{
    Decimal { mantissa: 5, scale: 1 }
}

/// What an instruction that succeeded asks the host to carry out.
#[derive(Debug, Clone, Copy, PartialEq, Eq)]
pub enum Outcome {
    /// The accounts to create and the record to store.
    Initialized(initialize_exchange_booth::Initialization),
    /// The transfer into the vault.
    Deposited(TokenTransfer),
    /// The transfer out of the vault.
    Withdrawn(TokenTransfer),
    /// The transfers into vault A and out of vault B.
    Exchanged(exchange::Settlement),
}

/// The entry to the booth's operations.
pub struct Processor;

impl Processor {
    /// What an instruction comes to: what its operation comes to, under the
    /// variant of `Outcome` that belongs to it.
    pub open spec fn process_instruction_spec(
        program_id: Pubkey,
        accounts: Seq<AccountInfo>,
        instruction: XBoothIntruction,
    ) -> Result<Outcome, ProgramError> {
        match instruction {
            XBoothIntruction::InitializeExhangeBooth {  } => {
                match initialize_exchange_booth::process_spec(program_id, accounts) {
                    Ok(plan) => Ok(Outcome::Initialized(plan)),
                    Err(error) => Err(error),
                }
            },
            XBoothIntruction::Deposit { amount } => {
                match deposit::process_spec(program_id, accounts, amount) {
                    Ok(transfer) => Ok(Outcome::Deposited(transfer)),
                    Err(error) => Err(error),
                }
            },
            XBoothIntruction::Withdraw { amount } => {
                match withdraw::process_spec(program_id, accounts, amount) {
                    Ok(transfer) => Ok(Outcome::Withdrawn(transfer)),
                    Err(error) => Err(error),
                }
            },
            XBoothIntruction::Exchange { amount } => {
                match exchange::process_spec(program_id, accounts, amount, token_a_b_xr_spec()) {
                    Ok(settlement) => Ok(Outcome::Exchanged(settlement)),
                    Err(error) => Err(error),
                }
            },
        }
    }

    /// Routes a decoded instruction to its operation. An exchange is made at
    /// the booth's fixed rate.
    pub fn process_instruction(
        program_id: &Pubkey,
        accounts: &[AccountInfo],
        instruction: &XBoothIntruction,
    ) -> (r: Result<Outcome, ProgramError>)
        ensures
            r == Self::process_instruction_spec(*program_id, accounts@, *instruction),
    {
        match instruction {
            XBoothIntruction::InitializeExhangeBooth {  } => {
                match initialize_exchange_booth::process(program_id, accounts) {
                    Ok(plan) => Ok(Outcome::Initialized(plan)),
                    Err(error) => Err(error),
                }
            },
            XBoothIntruction::Deposit { amount } => {
                match deposit::process(program_id, accounts, *amount) {
                    Ok(transfer) => Ok(Outcome::Deposited(transfer)),
                    Err(error) => Err(error),
                }
            },
            XBoothIntruction::Withdraw { amount } => {
                match withdraw::process(program_id, accounts, *amount) {
                    Ok(transfer) => Ok(Outcome::Withdrawn(transfer)),
                    Err(error) => Err(error),
                }
            },
            XBoothIntruction::Exchange { amount } => {
                match exchange::process(program_id, accounts, *amount, token_a_b_xr()) {
                    Ok(settlement) => Ok(Outcome::Exchanged(settlement)),
                    Err(error) => Err(error),
                }
            },
        }
    }
}

} // verus!
