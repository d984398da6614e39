//! Withdraw: the administrator takes out of the vault of asset A.
//!
//! Accounts, in order: the booth (writable), the authority (signer), the
//! token account that receives (signer, writable), the vault (writable),
//! asset A, asset B, the token service.
//!
//! The vault has no key of its own. What authorises the transfer out of it
//! is the derivation of the booth's address, which owns the vault; the
//! signature asked of the receiving account adds nothing to that and is
//! asked for only because the account list declares it.

use crate::account_info::AccountInfo;
use crate::amount::Decimal;
use crate::errors::{failure, ProgramError, XBoothError};
use crate::processor::utils::{
    amount_to_lamports,
    amount_to_lamports_spec,
    check_stored_owner,
    check_stored_owner_spec,
    get_exchange_booth_pda,
    get_exchange_booth_pda_spec,
    get_vault_pda,
    get_vault_pda_spec,
};
use crate::pubkey::{matching_bump, DerivationProof, Pubkey, SeedTuple};
use crate::service::{Authorization, TokenTransfer};
use crate::state::ExchangeBoothAccount;
use crate::token::{Mint, TokenAccount};
use vstd::prelude::*;

verus! {

/// The number of accounts the operation takes.
pub const ACCOUNTS: usize = 7;

/// What the operation learns from outside the account list's flags: the
/// derivations held against the accounts supplied, the vault decoded, the
/// amount converted.
#[derive(Debug, Clone, Copy, PartialEq, Eq)]
pub struct Readings {
    /// The booth: derived from the authority and both assets.
    pub booth_pda: Result<(Pubkey, u8), ProgramError>,
    /// The vault: derived from the authority, asset A and the booth.
    pub vault_pda: Result<(Pubkey, u8), ProgramError>,
    /// The vault, decoded as an account in use.
    pub vault: Result<TokenAccount, XBoothError>,
    /// The amount in base units of asset A.
    pub lamports: Result<u64, ProgramError>,
}

/// The readings that the accounts of a withdrawal of `amount` give under
/// `program_id`.
pub open spec fn readings_spec(
    program_id: Pubkey,
    accounts: Seq<AccountInfo>,
    amount: Decimal,
) -> Readings
    recommends
        accounts.len() >= ACCOUNTS,
{
    Readings {
        booth_pda: get_exchange_booth_pda_spec(
            program_id,
            accounts[0],
            accounts[1],
            accounts[4],
            accounts[5],
        ),
        vault_pda: get_vault_pda_spec(
            program_id,
            accounts[0],
            accounts[1],
            accounts[4],
            accounts[3],
        ),
        vault: TokenAccount::unpack_spec(accounts[3].data@),
        lamports: amount_to_lamports_spec(accounts[4].data@, amount),
    }
}

/// The first rule, short of the one on funds, that the accounts and
/// readings of a withdrawal break, in the order in which the rules are
/// applied; `None` where they break none.
///
/// The authority and the receiving token account must sign. The vault, the
/// token account and the booth must be writable. The booth must be the
/// address derived for it, and the vault the address derived for asset A.
/// The vault must decode as an account in use. The authority must be the
/// administrator that the booth stores. The descriptor of asset A must
/// decode.
pub open spec fn validation(accounts: Seq<AccountInfo>, readings: Readings) -> Option<ProgramError>
    recommends
        accounts.len() >= ACCOUNTS,
{
    if !accounts[1].is_signer || !accounts[2].is_signer {
        Some(failure(XBoothError::AccountIsNotSigner))
    } else if !accounts[3].is_writable || !accounts[2].is_writable || !accounts[0].is_writable {
        Some(failure(XBoothError::AccountIsNotWritable))
    } else if readings.booth_pda is Err {
        Some(readings.booth_pda->Err_0)
    } else if readings.vault_pda is Err {
        Some(readings.vault_pda->Err_0)
    } else if readings.vault is Err {
        Some(failure(readings.vault->Err_0))
    } else if check_stored_owner_spec(accounts[0].data@, accounts[1].key) is Err {
        Some(check_stored_owner_spec(accounts[0].data@, accounts[1].key)->Err_0)
    } else if readings.lamports is Err {
        Some(readings.lamports->Err_0)
    } else {
        None
    }
}

/// The first rule that the accounts and readings of a withdrawal break: the
/// one that `validation` names, or, where it names none, the rule that the
/// vault must hold the amount.
pub open spec fn violation(accounts: Seq<AccountInfo>, readings: Readings) -> Option<ProgramError>
    recommends
        accounts.len() >= ACCOUNTS,
{
    match validation(accounts, readings) {
        Some(error) => Some(error),
        None => if readings.lamports->Ok_0 > readings.vault->Ok_0.amount {
            Some(failure(XBoothError::InsufficientFunds))
        } else {
            None
        },
    }
}

/// The transfer of a withdrawal that breaks no rule: the converted amount,
/// from the vault to the token account, under the booth's address and on
/// the derivation of that address.
pub open spec fn transfer_spec(accounts: Seq<AccountInfo>, readings: Readings) -> TokenTransfer
    recommends
        accounts.len() >= ACCOUNTS,
        violation(accounts, readings) is None,
{
    TokenTransfer {
        program: accounts[6].key,
        source: accounts[3].key,
        destination: accounts[2].key,
        authority: accounts[0].key,
        amount: readings.lamports->Ok_0,
        authorization: Authorization::Derivation(
            DerivationProof {
                seeds: SeedTuple::booth_spec(accounts[1].key, accounts[4].key, accounts[5].key),
                bump: readings.booth_pda->Ok_0.1,
            },
        ),
    }
}

/// What a withdrawal comes to, given its accounts and readings.
pub open spec fn decide_spec(accounts: Seq<AccountInfo>, readings: Readings) -> Result<
    TokenTransfer,
    ProgramError,
> {
    if accounts.len() < ACCOUNTS {
        Err(ProgramError::NotEnoughAccountKeys)
    } else {
        match violation(accounts, readings) {
            Some(error) => Err(error),
            None => Ok(transfer_spec(accounts, readings)),
        }
    }
}

/// What a withdrawal of `amount` comes to.
pub open spec fn process_spec(
    program_id: Pubkey,
    accounts: Seq<AccountInfo>,
    amount: Decimal,
) -> Result<TokenTransfer, ProgramError> {
    decide_spec(accounts, readings_spec(program_id, accounts, amount))
}

/// Decides a withdrawal from its accounts and from what deriving, decoding
/// and converting gave.
///
/// Fails with `NotEnoughAccountKeys` on fewer than seven accounts, else
/// with the first rule broken, in the order of `violation`. Where no rule
/// is broken it returns the one transfer to make.
pub fn decide(accounts: &[AccountInfo], readings: &Readings) -> (r: Result<
    TokenTransfer,
    ProgramError,
>)
    ensures
        r == decide_spec(accounts@, *readings),
{
    if accounts.len() < ACCOUNTS {
        return Err(ProgramError::NotEnoughAccountKeys);
    }
    let exchange_booth_account = &accounts[0];
    let authority_account = &accounts[1];
    let token_account = &accounts[2];
    let vault_account = &accounts[3];
    let mint_a = &accounts[4];
    let mint_b = &accounts[5];
    let token_program = &accounts[6];

    if !authority_account.is_signer {
        return Err(ProgramError::from(XBoothError::AccountIsNotSigner));
    }
    if !token_account.is_signer {
        return Err(ProgramError::from(XBoothError::AccountIsNotSigner));
    }
    if !vault_account.is_writable {
        return Err(ProgramError::from(XBoothError::AccountIsNotWritable));
    }
    if !token_account.is_writable {
        return Err(ProgramError::from(XBoothError::AccountIsNotWritable));
    }
    if !exchange_booth_account.is_writable {
        return Err(ProgramError::from(XBoothError::AccountIsNotWritable));
    }
    let (_xbooth_pda, xbooth_bump) = match readings.booth_pda {
        Ok(found) => found,
        Err(error) => {
            return Err(error);
        },
    };
    if let Err(error) = readings.vault_pda {
        return Err(error);
    }
    let vault_account_data = match readings.vault {
        Ok(decoded) => decoded,
        Err(error) => {
            return Err(ProgramError::from(error));
        },
    };
    if let Err(error) = check_stored_owner(exchange_booth_account, authority_account) {
        return Err(error);
    }
    let amount_lamports = match readings.lamports {
        Ok(converted) => converted,
        Err(error) => {
            return Err(error);
        },
    };
    if amount_lamports > vault_account_data.amount {
        return Err(ProgramError::from(XBoothError::InsufficientFunds));
    }
    Ok(
        TokenTransfer {
            program: token_program.key,
            source: vault_account.key,
            destination: token_account.key,
            authority: exchange_booth_account.key,
            amount: amount_lamports,
            authorization: Authorization::Derivation(
                DerivationProof {
                    seeds: SeedTuple::booth(&authority_account.key, &mint_a.key, &mint_b.key),
                    bump: xbooth_bump,
                },
            ),
        },
    )
}

/// Withdraws `amount`, in decimal units of asset A, from the vault of
/// asset A.
///
/// Derives the booth's address and the vault's, decodes the vault, converts
/// the amount, and decides as `decide` does. Nothing moves here: on success
/// the transfer comes back, for the host to have the token service carry
/// out under the booth's derivation.
pub fn process(program_id: &Pubkey, accounts: &[AccountInfo], amount: Decimal) -> (r: Result<
    TokenTransfer,
    ProgramError,
>)
    ensures
        r == process_spec(*program_id, accounts@, amount),
{
    if accounts.len() < ACCOUNTS {
        return Err(ProgramError::NotEnoughAccountKeys);
    }
    let readings = Readings {
        booth_pda: get_exchange_booth_pda(
            program_id,
            &accounts[0],
            &accounts[1],
            &accounts[4],
            &accounts[5],
        ),
        vault_pda: get_vault_pda(
            program_id,
            &accounts[0],
            &accounts[1],
            &accounts[4],
            &accounts[3],
        ),
        vault: TokenAccount::unpack(accounts[3].data.as_slice()),
        lamports: amount_to_lamports(&accounts[4], amount),
    };
    decide(accounts, &readings)
}

/// Where a withdrawal breaks no rule short of the one on funds, it fails
/// with `InsufficientFunds` exactly when the vault holds less than the
/// converted amount. Otherwise it succeeds and asks for exactly the
/// converted amount to move from the vault to the token account, under the
/// booth's address and on the derivation of that address: no signature of
/// the vault is involved.
pub proof fn lemma_withdraw_funds(program_id: Pubkey, accounts: Seq<AccountInfo>, amount: Decimal)
    requires
        accounts.len() >= ACCOUNTS,
        validation(accounts, readings_spec(program_id, accounts, amount)) is None,
    ensures
        ({
            let outcome = process_spec(program_id, accounts, amount);
            let vault = TokenAccount::unpack_spec(accounts[3].data@);
            let mint = Mint::unpack_from_slice_spec(accounts[4].data@);
            let booth = SeedTuple::booth_spec(accounts[1].key, accounts[4].key, accounts[5].key);
            let converted = amount.base_units_spec(mint->0.decimals);
            &&& vault is Ok
            &&& mint is Some
            &&& booth.derived(program_id) is Some
            &&& booth.derived(program_id)->Some_0.0 == accounts[0].key
            &&& vault->Ok_0.amount < converted ==> outcome == Err::<TokenTransfer, ProgramError>(
                failure(XBoothError::InsufficientFunds),
            )
            &&& vault->Ok_0.amount >= converted ==> outcome == Ok::<TokenTransfer, ProgramError>(
                TokenTransfer {
                    program: accounts[6].key,
                    source: accounts[3].key,
                    destination: accounts[2].key,
                    authority: accounts[0].key,
                    amount: converted as u64,
                    authorization: Authorization::Derivation(
                        DerivationProof { seeds: booth, bump: booth.derived(program_id)->Some_0.1 },
                    ),
                },
            )
        }),
{
}

/// A withdrawal that succeeds was asked for by the administrator that the
/// booth stores, who signed, out of the vault that is derived for the
/// administrator, asset A and the booth; and what authorises the transfer
/// is the derivation of the very address that is named as its authority.
pub proof fn lemma_withdraw_is_authorized(
    program_id: Pubkey,
    accounts: Seq<AccountInfo>,
    amount: Decimal,
)
    requires
        process_spec(program_id, accounts, amount) is Ok,
    ensures
        accounts.len() >= ACCOUNTS,
        accounts[1].is_signer,
        ExchangeBoothAccount::unpack_spec(accounts[0].data@) is Some,
        ExchangeBoothAccount::unpack_spec(accounts[0].data@)->0.admin == accounts[1].key,
        ({
            let transfer = process_spec(program_id, accounts, amount)->Ok_0;
            let vault = SeedTuple::vault_spec(accounts[1].key, accounts[4].key, accounts[0].key);
            &&& matching_bump(vault.derived(program_id), accounts[3].key) is Some
            &&& transfer.authorization is Derivation
            &&& transfer.authorization->Derivation_0.seeds.derived(program_id) == Some(
                (transfer.authority, transfer.authorization->Derivation_0.bump),
            )
        }),
{
}

} // verus!
