//! Exchange: pay asset A into vault A, receive asset B out of vault B.
//!
//! Accounts, in order: the booth, the authority (signer), the token account
//! that receives asset B (writable), the token account that pays asset A
//! (writable), vault A (writable), vault B (writable), asset A, asset B, the
//! token service.
//!
//! The rate is asset B per asset A, a fixed value handed in by the caller.
//! The two transfers stand or fall together only because the host applies a
//! transaction as a whole.
//!
//! The booth's address is derived with the authority in the administrator's
//! place, so an exchange goes through only for the administrator of the
//! booth that is named. The vaults are taken as they are supplied: what
//! ties vault B to the booth is the token service, which lets the booth's
//! address move funds only out of accounts that it owns.

use crate::account_info::AccountInfo;
use crate::amount::Decimal;
use crate::errors::{failure, ProgramError, XBoothError};
use crate::processor::utils::{
    amount_to_lamports,
    amount_to_lamports_at,
    amount_to_lamports_at_spec,
    amount_to_lamports_spec,
    get_exchange_booth_pda,
    get_exchange_booth_pda_spec,
};
use crate::pubkey::{DerivationProof, Pubkey, SeedTuple};
use crate::service::{Authorization, TokenTransfer};
use crate::token::{Mint, TokenAccount};
use vstd::prelude::*;

verus! {

/// The number of accounts the operation takes.
pub const ACCOUNTS: usize = 9;

/// The two transfers of an exchange, in the order in which they are made.
#[derive(Debug, Clone, Copy, PartialEq, Eq)]
pub struct Settlement {
    /// Asset A, from the paying token account into vault A.
    pub pay_in: TokenTransfer,
    /// Asset B, out of vault B to the receiving token account.
    pub pay_out: TokenTransfer,
}

/// What the operation learns from outside the account list's flags: the
/// booth's derivation held against the account supplied, the two token
/// accounts decoded, the two amounts converted.
#[derive(Debug, Clone, Copy, PartialEq, Eq)]
pub struct Readings {
    /// The booth: derived from the authority and both assets.
    pub booth_pda: Result<(Pubkey, u8), ProgramError>,
    /// The receiving token account, decoded as an account in use.
    pub receiving: Result<TokenAccount, XBoothError>,
    /// The paying token account, decoded as an account in use.
    pub paying: Result<TokenAccount, XBoothError>,
    /// The amount in base units of asset A.
    pub lamports_a: Result<u64, ProgramError>,
    /// The amount times the rate, in base units of asset B.
    pub lamports_b: Result<u64, ProgramError>,
}

/// The readings that the accounts of an exchange of `amount` at `rate` give
/// under `program_id`.
pub open spec fn readings_spec(
    program_id: Pubkey,
    accounts: Seq<AccountInfo>,
    amount: Decimal,
    rate: Decimal,
) -> Readings
    recommends
        accounts.len() >= ACCOUNTS,
{
    Readings {
        booth_pda: get_exchange_booth_pda_spec(
            program_id,
            accounts[0],
            accounts[1],
            accounts[6],
            accounts[7],
        ),
        receiving: TokenAccount::unpack_spec(accounts[2].data@),
        paying: TokenAccount::unpack_spec(accounts[3].data@),
        lamports_a: amount_to_lamports_spec(accounts[6].data@, amount),
        lamports_b: amount_to_lamports_at_spec(accounts[7].data@, amount, rate),
    }
}

/// The first rule that the accounts and readings of an exchange break, in
/// the order in which the rules are applied; `None` where they break none.
///
/// The authority must sign. Both token accounts and both vaults must be
/// writable. The booth must be the address derived for it. The receiving
/// and the paying token account must decode as accounts in use. The paying
/// account must hold asset A and the receiving account asset B, and the two
/// must not hold the same asset. The descriptors of asset A and of asset B
/// must decode.
pub open spec fn violation(accounts: Seq<AccountInfo>, readings: Readings) -> Option<ProgramError>
    recommends
        accounts.len() >= ACCOUNTS,
{
    if !accounts[1].is_signer {
        Some(failure(XBoothError::AccountIsNotSigner))
    } else if !accounts[2].is_writable || !accounts[3].is_writable || !accounts[4].is_writable
        || !accounts[5].is_writable {
        Some(failure(XBoothError::AccountIsNotWritable))
    } else if readings.booth_pda is Err {
        Some(readings.booth_pda->Err_0)
    } else if readings.receiving is Err {
        Some(failure(readings.receiving->Err_0))
    } else if readings.paying is Err {
        Some(failure(readings.paying->Err_0))
    } else if readings.paying->Ok_0.mint != accounts[6].key {
        Some(failure(XBoothError::InvalidMint))
    } else if readings.receiving->Ok_0.mint != accounts[7].key {
        Some(failure(XBoothError::InvalidMint))
    } else if readings.receiving->Ok_0.mint == readings.paying->Ok_0.mint {
        Some(failure(XBoothError::UniqueMintAccounts))
    } else if readings.lamports_a is Err {
        Some(readings.lamports_a->Err_0)
    } else if readings.lamports_b is Err {
        Some(readings.lamports_b->Err_0)
    } else {
        None
    }
}

/// The transfers of an exchange that breaks no rule: the amount in asset A
/// from the paying account into vault A on the authority's signature, then
/// the amount times the rate in asset B out of vault B to the receiving
/// account, under the booth's address and on its derivation.
pub open spec fn settlement_spec(accounts: Seq<AccountInfo>, readings: Readings) -> Settlement
    recommends
        accounts.len() >= ACCOUNTS,
        violation(accounts, readings) is None,
{
    Settlement {
        pay_in: TokenTransfer {
            program: accounts[8].key,
            source: accounts[3].key,
            destination: accounts[4].key,
            authority: accounts[1].key,
            amount: readings.lamports_a->Ok_0,
            authorization: Authorization::Signature,
        },
        pay_out: TokenTransfer {
            program: accounts[8].key,
            source: accounts[5].key,
            destination: accounts[2].key,
            authority: accounts[0].key,
            amount: readings.lamports_b->Ok_0,
            authorization: Authorization::Derivation(
                DerivationProof {
                    seeds: SeedTuple::booth_spec(accounts[1].key, accounts[6].key, accounts[7].key),
                    bump: readings.booth_pda->Ok_0.1,
                },
            ),
        },
    }
}

/// What an exchange comes to, given its accounts and readings.
pub open spec fn decide_spec(accounts: Seq<AccountInfo>, readings: Readings) -> Result<
    Settlement,
    ProgramError,
> {
    if accounts.len() < ACCOUNTS {
        Err(ProgramError::NotEnoughAccountKeys)
    } else {
        match violation(accounts, readings) {
            Some(error) => Err(error),
            None => Ok(settlement_spec(accounts, readings)),
        }
    }
}

/// What an exchange of `amount` at `rate` comes to.
pub open spec fn process_spec(
    program_id: Pubkey,
    accounts: Seq<AccountInfo>,
    amount: Decimal,
    rate: Decimal,
) -> Result<Settlement, ProgramError> {
    decide_spec(accounts, readings_spec(program_id, accounts, amount, rate))
}

/// Decides an exchange from its accounts and from what deriving, decoding
/// and converting gave.
///
/// Fails with `NotEnoughAccountKeys` on fewer than nine accounts, else with
/// the first rule broken, in the order of `violation`. Where no rule is
/// broken it returns the two transfers to make.
pub fn decide(accounts: &[AccountInfo], readings: &Readings) -> (r: Result<
    Settlement,
    ProgramError,
>)
    ensures
        r == decide_spec(accounts@, *readings),
{
    if accounts.len() < ACCOUNTS {
        return Err(ProgramError::NotEnoughAccountKeys);
    }
    let exchange_booth_account = &accounts[0];
    let authority_account = &accounts[1];
    let receiving_token_account = &accounts[2];
    let from_token_account = &accounts[3];
    let vault_a = &accounts[4];
    let vault_b = &accounts[5];
    let mint_a = &accounts[6];
    let mint_b = &accounts[7];
    let token_program = &accounts[8];

    if !authority_account.is_signer {
        return Err(ProgramError::from(XBoothError::AccountIsNotSigner));
    }
    if !receiving_token_account.is_writable {
        return Err(ProgramError::from(XBoothError::AccountIsNotWritable));
    }
    if !from_token_account.is_writable {
        return Err(ProgramError::from(XBoothError::AccountIsNotWritable));
    }
    if !vault_a.is_writable {
        return Err(ProgramError::from(XBoothError::AccountIsNotWritable));
    }
    if !vault_b.is_writable {
        return Err(ProgramError::from(XBoothError::AccountIsNotWritable));
    }
    let (_exchange_booth_pda, exchange_booth_bump) = match readings.booth_pda {
        Ok(found) => found,
        Err(error) => {
            return Err(error);
        },
    };
    let receiving_token_account_data = match readings.receiving {
        Ok(decoded) => decoded,
        Err(error) => {
            return Err(ProgramError::from(error));
        },
    };
    let from_token_account_data = match readings.paying {
        Ok(decoded) => decoded,
        Err(error) => {
            return Err(ProgramError::from(error));
        },
    };
    if from_token_account_data.mint != mint_a.key {
        return Err(ProgramError::from(XBoothError::InvalidMint));
    }
    if receiving_token_account_data.mint != mint_b.key {
        return Err(ProgramError::from(XBoothError::InvalidMint));
    }
    if receiving_token_account_data.mint == from_token_account_data.mint {
        return Err(ProgramError::from(XBoothError::UniqueMintAccounts));
    }
    let amount_a = match readings.lamports_a {
        Ok(converted) => converted,
        Err(error) => {
            return Err(error);
        },
    };
    let amount_b = match readings.lamports_b {
        Ok(converted) => converted,
        Err(error) => {
            return Err(error);
        },
    };
    Ok(
        Settlement {
            pay_in: TokenTransfer {
                program: token_program.key,
                source: from_token_account.key,
                destination: vault_a.key,
                authority: authority_account.key,
                amount: amount_a,
                authorization: Authorization::Signature,
            },
            pay_out: TokenTransfer {
                program: token_program.key,
                source: vault_b.key,
                destination: receiving_token_account.key,
                authority: exchange_booth_account.key,
                amount: amount_b,
                authorization: Authorization::Derivation(
                    DerivationProof {
                        seeds: SeedTuple::booth(&authority_account.key, &mint_a.key, &mint_b.key),
                        bump: exchange_booth_bump,
                    },
                ),
            },
        },
    )
}

/// Exchanges `amount`, in decimal units of asset A, for asset B at `rate`
/// units of asset B per unit of asset A.
///
/// Derives the booth's address, decodes both token accounts, converts both
/// amounts, and decides as `decide` does. Nothing moves here: on success
/// the two transfers come back, for the host to have the token service
/// carry out in order.
pub fn process(program_id: &Pubkey, accounts: &[AccountInfo], amount: Decimal, rate: Decimal) -> (r:
    Result<Settlement, ProgramError>)
    ensures
        r == process_spec(*program_id, accounts@, amount, rate),
{
    if accounts.len() < ACCOUNTS {
        return Err(ProgramError::NotEnoughAccountKeys);
    }
    let readings = Readings {
        booth_pda: get_exchange_booth_pda(
            program_id,
            &accounts[0],
            &accounts[1],
            &accounts[6],
            &accounts[7],
        ),
        receiving: TokenAccount::unpack(accounts[2].data.as_slice()),
        paying: TokenAccount::unpack(accounts[3].data.as_slice()),
        lamports_a: amount_to_lamports(&accounts[6], amount),
        lamports_b: amount_to_lamports_at(&accounts[7], amount, rate),
    };
    decide(accounts, &readings)
}

/// Whether the accounts of an exchange pass every rule that comes before
/// the comparison of the two token accounts' assets: nine accounts or more,
/// the authority signed, the four accounts that change are writable, the
/// booth is the address derived for it, and both token accounts decode as
/// accounts in use.
pub open spec fn admitted(program_id: Pubkey, accounts: Seq<AccountInfo>) -> bool {
    &&& accounts.len() >= ACCOUNTS
    &&& accounts[1].is_signer
    &&& accounts[2].is_writable
    &&& accounts[3].is_writable
    &&& accounts[4].is_writable
    &&& accounts[5].is_writable
    &&& get_exchange_booth_pda_spec(
        program_id,
        accounts[0],
        accounts[1],
        accounts[6],
        accounts[7],
    ) is Ok
    &&& TokenAccount::unpack_spec(accounts[2].data@) is Ok
    &&& TokenAccount::unpack_spec(accounts[3].data@) is Ok
}

/// Where the paying token account holds asset A and the receiving one
/// asset B, an exchange that is otherwise in order fails with
/// `UniqueMintAccounts` exactly when the two hold the same asset.
/// Otherwise, with both descriptors decoding, it succeeds and asks for the
/// amount in base units of asset A to move from the paying account into
/// vault A, and for the amount times the rate in base units of asset B to
/// move out of vault B to the receiving account.
pub proof fn lemma_exchange_unique_mints(
    program_id: Pubkey,
    accounts: Seq<AccountInfo>,
    amount: Decimal,
    rate: Decimal,
)
    requires
        admitted(program_id, accounts),
        TokenAccount::unpack_spec(accounts[3].data@)->Ok_0.mint == accounts[6].key,
        TokenAccount::unpack_spec(accounts[2].data@)->Ok_0.mint == accounts[7].key,
    ensures
        ({
            let outcome = process_spec(program_id, accounts, amount, rate);
            let receiving = TokenAccount::unpack_spec(accounts[2].data@)->Ok_0;
            let paying = TokenAccount::unpack_spec(accounts[3].data@)->Ok_0;
            let mint_a = Mint::unpack_from_slice_spec(accounts[6].data@);
            let mint_b = Mint::unpack_from_slice_spec(accounts[7].data@);
            &&& receiving.mint == paying.mint ==> outcome == Err::<Settlement, ProgramError>(
                failure(XBoothError::UniqueMintAccounts),
            )
            &&& receiving.mint != paying.mint && mint_a is Some && mint_b is Some ==> {
                &&& outcome is Ok
                &&& outcome->Ok_0.pay_in.source == accounts[3].key
                &&& outcome->Ok_0.pay_in.destination == accounts[4].key
                &&& outcome->Ok_0.pay_in.amount == amount.base_units_spec(mint_a->0.decimals)
                &&& outcome->Ok_0.pay_out.source == accounts[5].key
                &&& outcome->Ok_0.pay_out.destination == accounts[2].key
                &&& outcome->Ok_0.pay_out.amount == amount.base_units_at_spec(
                    rate,
                    mint_b->0.decimals,
                )
            }
        }),
{
}

/// An exchange that succeeds pays in on the authority's signature and pays
/// out under the booth's address, on the derivation of that very address.
pub proof fn lemma_exchange_is_authorized(
    program_id: Pubkey,
    accounts: Seq<AccountInfo>,
    amount: Decimal,
    rate: Decimal,
)
    requires
        process_spec(program_id, accounts, amount, rate) is Ok,
    ensures
        accounts.len() >= ACCOUNTS,
        accounts[1].is_signer,
        ({
            let settlement = process_spec(program_id, accounts, amount, rate)->Ok_0;
            &&& settlement.pay_in.authority == accounts[1].key
            &&& settlement.pay_in.authorization == Authorization::Signature
            &&& settlement.pay_out.authority == accounts[0].key
            &&& settlement.pay_out.authorization is Derivation
            &&& settlement.pay_out.authorization->Derivation_0.seeds.derived(program_id) == Some(
                (settlement.pay_out.authority, settlement.pay_out.authorization->Derivation_0.bump),
            )
        }),
{
}

} // verus!
