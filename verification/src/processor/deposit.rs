//! Deposit: the administrator pays into a vault.
//!
//! Accounts, in order: the booth (writable), the authority (signer), the
//! token account that pays (writable), the vault (writable), asset A, asset
//! B, the token service.

use crate::account_info::AccountInfo;
use crate::amount::Decimal;
use crate::errors::{failure, ProgramError, XBoothError};
use crate::processor::utils::{
    amount_to_lamports,
    amount_to_lamports_spec,
    check_stored_owner,
    check_stored_owner_spec,
    get_exchange_booth_pda,
    get_exchange_booth_pda_spec,
    get_vault_pda,
    get_vault_pda_spec,
};
use crate::pubkey::{matching_bump, Pubkey, SeedTuple};
use crate::service::{Authorization, TokenTransfer};
use crate::state::ExchangeBoothAccount;
use crate::token::{Mint, TokenAccount};
use vstd::prelude::*;

verus! {

/// The number of accounts the operation takes.
pub const ACCOUNTS: usize = 7;

/// What the operation learns from outside the account list's flags: the
/// derivations held against the accounts supplied, the custody accounts
/// decoded, the amount converted.
#[derive(Debug, Clone, Copy, PartialEq, Eq)]
pub struct Readings {
    /// The booth: derived from the authority and both assets.
    pub booth_pda: Result<(Pubkey, u8), ProgramError>,
    /// The vault, taken as the vault of asset A.
    pub vault_a_pda: Result<(Pubkey, u8), ProgramError>,
    /// The vault, taken as the vault of asset B.
    pub vault_b_pda: Result<(Pubkey, u8), ProgramError>,
    /// The token account that pays, decoded; it need not be in use.
    pub token_account: Option<TokenAccount>,
    /// The vault, decoded as an account in use.
    pub vault: Result<TokenAccount, XBoothError>,
    /// The amount in base units of asset A.
    pub lamports_a: Result<u64, ProgramError>,
    /// The amount in base units of asset B.
    pub lamports_b: Result<u64, ProgramError>,
}

/// The readings that the accounts of a deposit of `amount` give under
/// `program_id`.
pub open spec fn readings_spec(
    program_id: Pubkey,
    accounts: Seq<AccountInfo>,
    amount: Decimal,
) -> Readings
    recommends
        accounts.len() >= ACCOUNTS,
{
    Readings {
        booth_pda: get_exchange_booth_pda_spec(
            program_id,
            accounts[0],
            accounts[1],
            accounts[4],
            accounts[5],
        ),
        vault_a_pda: get_vault_pda_spec(
            program_id,
            accounts[0],
            accounts[1],
            accounts[4],
            accounts[3],
        ),
        vault_b_pda: get_vault_pda_spec(
            program_id,
            accounts[0],
            accounts[1],
            accounts[5],
            accounts[3],
        ),
        token_account: TokenAccount::unpack_from_slice_spec(accounts[2].data@),
        vault: TokenAccount::unpack_spec(accounts[3].data@),
        lamports_a: amount_to_lamports_spec(accounts[4].data@, amount),
        lamports_b: amount_to_lamports_spec(accounts[5].data@, amount),
    }
}

/// Whether the deposit is one of asset A: whether the token account that
/// pays holds asset A. Any other deposit is taken as one of asset B.
pub open spec fn pays_asset_a(accounts: Seq<AccountInfo>, readings: Readings) -> bool
    recommends
        accounts.len() >= ACCOUNTS,
        readings.token_account is Some,
{
    readings.token_account->0.mint == accounts[4].key
}

/// The reading of the vault's address for the asset being deposited.
pub open spec fn vault_pda(accounts: Seq<AccountInfo>, readings: Readings) -> Result<
    (Pubkey, u8),
    ProgramError,
> {
    if pays_asset_a(accounts, readings) {
        readings.vault_a_pda
    } else {
        readings.vault_b_pda
    }
}

/// The reading of the amount in base units of the asset being deposited.
pub open spec fn lamports(accounts: Seq<AccountInfo>, readings: Readings) -> Result<
    u64,
    ProgramError,
> {
    if pays_asset_a(accounts, readings) {
        readings.lamports_a
    } else {
        readings.lamports_b
    }
}

/// The first rule, short of the one on funds, that the accounts and
/// readings of a deposit break, in the order in which the rules are
/// applied; `None` where they break none.
///
/// The authority must sign. The booth, the vault and the token account must
/// be writable. The booth must be the address derived for it. The token
/// account must decode. The vault must be the address derived for the asset
/// that the token account holds, must decode as an account in use, and must
/// hold that asset. The authority must be the administrator that the booth
/// stores. The asset's descriptor must decode.
pub open spec fn validation(accounts: Seq<AccountInfo>, readings: Readings) -> Option<ProgramError>
    recommends
        accounts.len() >= ACCOUNTS,
{
    if !accounts[1].is_signer {
        Some(failure(XBoothError::AccountIsNotSigner))
    } else if !accounts[0].is_writable || !accounts[3].is_writable || !accounts[2].is_writable {
        Some(failure(XBoothError::AccountIsNotWritable))
    } else if readings.booth_pda is Err {
        Some(readings.booth_pda->Err_0)
    } else if readings.token_account is None {
        Some(failure(XBoothError::InvalidSPLTokenAccount))
    } else if vault_pda(accounts, readings) is Err {
        Some(vault_pda(accounts, readings)->Err_0)
    } else if readings.vault is Err {
        Some(failure(readings.vault->Err_0))
    } else if readings.vault->Ok_0.mint != readings.token_account->0.mint {
        Some(failure(XBoothError::InvalidMint))
    } else if check_stored_owner_spec(accounts[0].data@, accounts[1].key) is Err {
        Some(check_stored_owner_spec(accounts[0].data@, accounts[1].key)->Err_0)
    } else if lamports(accounts, readings) is Err {
        Some(lamports(accounts, readings)->Err_0)
    } else {
        None
    }
}

/// The first rule that the accounts and readings of a deposit break: the
/// one that `validation` names, or, where it names none, the rule that the
/// token account must hold the amount.
pub open spec fn violation(accounts: Seq<AccountInfo>, readings: Readings) -> Option<ProgramError>
    recommends
        accounts.len() >= ACCOUNTS,
{
    match validation(accounts, readings) {
        Some(error) => Some(error),
        None => if readings.token_account->0.amount < lamports(accounts, readings)->Ok_0 {
            Some(failure(XBoothError::InsufficientFunds))
        } else {
            None
        },
    }
}

/// The transfer of a deposit that breaks no rule: the converted amount,
/// from the token account to the vault, on the authority's signature.
pub open spec fn transfer_spec(accounts: Seq<AccountInfo>, readings: Readings) -> TokenTransfer
    recommends
        accounts.len() >= ACCOUNTS,
        violation(accounts, readings) is None,
{
    TokenTransfer {
        program: accounts[6].key,
        source: accounts[2].key,
        destination: accounts[3].key,
        authority: accounts[1].key,
        amount: lamports(accounts, readings)->Ok_0,
        authorization: Authorization::Signature,
    }
}

/// What a deposit comes to, given its accounts and readings.
pub open spec fn decide_spec(accounts: Seq<AccountInfo>, readings: Readings) -> Result<
    TokenTransfer,
    ProgramError,
> {
    if accounts.len() < ACCOUNTS {
        Err(ProgramError::NotEnoughAccountKeys)
    } else {
        match violation(accounts, readings) {
            Some(error) => Err(error),
            None => Ok(transfer_spec(accounts, readings)),
        }
    }
}

/// What a deposit of `amount` comes to.
pub open spec fn process_spec(
    program_id: Pubkey,
    accounts: Seq<AccountInfo>,
    amount: Decimal,
) -> Result<TokenTransfer, ProgramError> {
    decide_spec(accounts, readings_spec(program_id, accounts, amount))
}

/// Decides a deposit from its accounts and from what deriving, decoding and
/// converting gave.
///
/// Fails with `NotEnoughAccountKeys` on fewer than seven accounts, else
/// with the first rule broken, in the order of `violation`. Where no rule
/// is broken it returns the one transfer to make.
pub fn decide(accounts: &[AccountInfo], readings: &Readings) -> (r: Result<
    TokenTransfer,
    ProgramError,
>)
    ensures
        r == decide_spec(accounts@, *readings),
{
    if accounts.len() < ACCOUNTS {
        return Err(ProgramError::NotEnoughAccountKeys);
    }
    let exchange_booth_account = &accounts[0];
    let authority = &accounts[1];
    let token_account = &accounts[2];
    let vault = &accounts[3];
    let mint_a = &accounts[4];
    let token_program = &accounts[6];

    if !authority.is_signer {
        return Err(ProgramError::from(XBoothError::AccountIsNotSigner));
    }
    if !exchange_booth_account.is_writable {
        return Err(ProgramError::from(XBoothError::AccountIsNotWritable));
    }
    if !vault.is_writable {
        return Err(ProgramError::from(XBoothError::AccountIsNotWritable));
    }
    if !token_account.is_writable {
        return Err(ProgramError::from(XBoothError::AccountIsNotWritable));
    }
    if let Err(error) = readings.booth_pda {
        return Err(error);
    }
    let token_account_data = match readings.token_account {
        Some(decoded) => decoded,
        None => {
            return Err(ProgramError::from(XBoothError::InvalidSPLTokenAccount));
        },
    };
    let is_transfer_a_token = token_account_data.mint == mint_a.key;
    let vault_pda = if is_transfer_a_token {
        readings.vault_a_pda
    } else {
        readings.vault_b_pda
    };
    if let Err(error) = vault_pda {
        return Err(error);
    }
    let vault_account = match readings.vault {
        Ok(decoded) => decoded,
        Err(error) => {
            return Err(ProgramError::from(error));
        },
    };
    if vault_account.mint != token_account_data.mint {
        return Err(ProgramError::from(XBoothError::InvalidMint));
    }
    if let Err(error) = check_stored_owner(exchange_booth_account, authority) {
        return Err(error);
    }
    let lamports = if is_transfer_a_token {
        readings.lamports_a
    } else {
        readings.lamports_b
    };
    let amount_lamports = match lamports {
        Ok(converted) => converted,
        Err(error) => {
            return Err(error);
        },
    };
    if token_account_data.amount < amount_lamports {
        return Err(ProgramError::from(XBoothError::InsufficientFunds));
    }
    Ok(
        TokenTransfer {
            program: token_program.key,
            source: token_account.key,
            destination: vault.key,
            authority: authority.key,
            amount: amount_lamports,
            authorization: Authorization::Signature,
        },
    )
}

/// Deposits `amount`, in decimal units of the asset that the token account
/// holds, into the vault of that asset.
///
/// Derives the booth's address and the vault's, decodes the token account
/// and the vault, converts the amount, and decides as `decide` does.
/// Nothing moves here: on success the transfer comes back, for the host to
/// have the token service carry out.
pub fn process(program_id: &Pubkey, accounts: &[AccountInfo], amount: Decimal) -> (r: Result<
    TokenTransfer,
    ProgramError,
>)
    ensures
        r == process_spec(*program_id, accounts@, amount),
{
    if accounts.len() < ACCOUNTS {
        return Err(ProgramError::NotEnoughAccountKeys);
    }
    let readings = Readings {
        booth_pda: get_exchange_booth_pda(
            program_id,
            &accounts[0],
            &accounts[1],
            &accounts[4],
            &accounts[5],
        ),
        vault_a_pda: get_vault_pda(
            program_id,
            &accounts[0],
            &accounts[1],
            &accounts[4],
            &accounts[3],
        ),
        vault_b_pda: get_vault_pda(
            program_id,
            &accounts[0],
            &accounts[1],
            &accounts[5],
            &accounts[3],
        ),
        token_account: TokenAccount::unpack_from_slice(accounts[2].data.as_slice()),
        vault: TokenAccount::unpack(accounts[3].data.as_slice()),
        lamports_a: amount_to_lamports(&accounts[4], amount),
        lamports_b: amount_to_lamports(&accounts[5], amount),
    };
    decide(accounts, &readings)
}

/// A deposit that succeeds asks for exactly the converted amount to move
/// from the token account to the vault, on the authority's signature: the
/// amount in base units of the asset that the token account holds, which
/// the token account is known to hold.
pub proof fn lemma_deposit_moves_converted_amount(
    program_id: Pubkey,
    accounts: Seq<AccountInfo>,
    amount: Decimal,
)
    requires
        process_spec(program_id, accounts, amount) is Ok,
    ensures
        accounts.len() >= ACCOUNTS,
        ({
            let transfer = process_spec(program_id, accounts, amount)->Ok_0;
            let held = TokenAccount::unpack_from_slice_spec(accounts[2].data@);
            let asset = if held->0.mint == accounts[4].key {
                accounts[4]
            } else {
                accounts[5]
            };
            let mint = Mint::unpack_from_slice_spec(asset.data@);
            &&& held is Some
            &&& mint is Some
            &&& transfer.amount == amount.base_units_spec(mint->0.decimals)
            &&& transfer.amount <= held->0.amount
            &&& transfer.source == accounts[2].key
            &&& transfer.destination == accounts[3].key
            &&& transfer.authority == accounts[1].key
            &&& transfer.authorization == Authorization::Signature
        }),
{
}

/// Where a deposit breaks no rule short of the one on funds, it fails with
/// `InsufficientFunds` exactly when the token account holds less than the
/// converted amount, and succeeds otherwise. A failure asks for no
/// transfer, so no balance changes.
pub proof fn lemma_deposit_insufficient_funds(
    program_id: Pubkey,
    accounts: Seq<AccountInfo>,
    amount: Decimal,
)
    requires
        accounts.len() >= ACCOUNTS,
        validation(accounts, readings_spec(program_id, accounts, amount)) is None,
    ensures
        ({
            let readings = readings_spec(program_id, accounts, amount);
            let outcome = process_spec(program_id, accounts, amount);
            let short = readings.token_account->0.amount < lamports(accounts, readings)->Ok_0;
            &&& short ==> outcome == Err::<TokenTransfer, ProgramError>(
                failure(XBoothError::InsufficientFunds),
            )
            &&& !short ==> outcome is Ok
        }),
{
}

/// A deposit that succeeds was asked for by the administrator that the
/// booth stores, who signed, into the vault that is derived for the
/// administrator, the deposited asset and the booth.
pub proof fn lemma_deposit_is_authorized(
    program_id: Pubkey,
    accounts: Seq<AccountInfo>,
    amount: Decimal,
)
    requires
        process_spec(program_id, accounts, amount) is Ok,
    ensures
        accounts.len() >= ACCOUNTS,
        accounts[1].is_signer,
        ExchangeBoothAccount::unpack_spec(accounts[0].data@) is Some,
        ExchangeBoothAccount::unpack_spec(accounts[0].data@)->0.admin == accounts[1].key,
        ({
            let held = TokenAccount::unpack_from_slice_spec(accounts[2].data@)->0;
            let asset = if held.mint == accounts[4].key {
                accounts[4]
            } else {
                accounts[5]
            };
            let booth = SeedTuple::booth_spec(accounts[1].key, accounts[4].key, accounts[5].key);
            let vault = SeedTuple::vault_spec(accounts[1].key, asset.key, accounts[0].key);
            &&& matching_bump(booth.derived(program_id), accounts[0].key) is Some
            &&& matching_bump(vault.derived(program_id), accounts[3].key) is Some
        }),
{
}

} // verus!
