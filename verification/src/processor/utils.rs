//! The checks that the operations share.

use crate::account_info::AccountInfo;
use crate::amount::Decimal;
use crate::errors::{failure, ProgramError, XBoothError};
use crate::pubkey::{Pubkey, SeedTuple};
use crate::state::ExchangeBoothAccount;
use crate::token::Mint;
use vstd::prelude::*;

verus! {

/// The outcome of a derivation, held against the address a caller
/// supplied: the address and bump where they agree, `mismatch` where the
/// derivation gave another address or none.
pub open spec fn expect_derived_spec(
    derived: Option<(Pubkey, u8)>,
    expected: Pubkey,
    mismatch: XBoothError,
) -> Result<(Pubkey, u8), ProgramError> {
    match derived {
        Some((address, bump)) => if address == expected {
            Ok((address, bump))
        } else {
            Err(failure(mismatch))
        },
        None => Err(failure(mismatch)),
    }
}

/// Holds the outcome of a derivation against the address a caller supplied.
pub fn expect_derived(derived: Option<(Pubkey, u8)>, expected: &Pubkey, mismatch: XBoothError) -> (r:
    Result<(Pubkey, u8), ProgramError>)
    ensures
        r == expect_derived_spec(derived, *expected, mismatch),
{
    match derived {
        Some((address, bump)) => {
            if address == *expected {
                Ok((address, bump))
            } else {
                Err(ProgramError::from(mismatch))
            }
        },
        None => Err(ProgramError::from(mismatch)),
    }
}

/// What `get_exchange_booth_pda` returns.
pub open spec fn get_exchange_booth_pda_spec(
    program_id: Pubkey,
    exchange_booth_account: AccountInfo,
    owner: AccountInfo,
    mint_a: AccountInfo,
    mint_b: AccountInfo,
) -> Result<(Pubkey, u8), ProgramError> {
    expect_derived_spec(
        SeedTuple::booth_spec(owner.key, mint_a.key, mint_b.key).derived(program_id),
        exchange_booth_account.key,
        XBoothError::InvalidAccountAddress,
    )
}

/// Derives the booth's address from its administrator and its two assets
/// and holds it against the account supplied as the booth: the address and
/// its bump where they agree, `InvalidAccountAddress` where they do not.
pub fn get_exchange_booth_pda(
    program_id: &Pubkey,
    exchange_booth_account: &AccountInfo,
    owner: &AccountInfo,
    mint_a: &AccountInfo,
    mint_b: &AccountInfo,
) -> (r: Result<(Pubkey, u8), ProgramError>)
    ensures
        r == get_exchange_booth_pda_spec(
            *program_id,
            *exchange_booth_account,
            *owner,
            *mint_a,
            *mint_b,
        ),
{
    let seeds = SeedTuple::booth(&owner.key, &mint_a.key, &mint_b.key);
    expect_derived(
        seeds.derive(program_id),
        &exchange_booth_account.key,
        XBoothError::InvalidAccountAddress,
    )
}

/// What `get_vault_pda` returns.
pub open spec fn get_vault_pda_spec(
    program_id: Pubkey,
    exchange_booth_account: AccountInfo,
    owner: AccountInfo,
    mint: AccountInfo,
    vault: AccountInfo,
) -> Result<(Pubkey, u8), ProgramError> {
    expect_derived_spec(
        SeedTuple::vault_spec(owner.key, mint.key, exchange_booth_account.key).derived(program_id),
        vault.key,
        XBoothError::InvalidVaultAccount,
    )
}

/// Derives the address of the vault for `mint` from the administrator, the
/// asset and the booth's address, and holds it against the account supplied
/// as the vault: the address and its bump where they agree,
/// `InvalidVaultAccount` where they do not.
pub fn get_vault_pda(
    program_id: &Pubkey,
    exchange_booth_account: &AccountInfo,
    owner: &AccountInfo,
    mint: &AccountInfo,
    vault: &AccountInfo,
) -> (r: Result<(Pubkey, u8), ProgramError>)
    ensures
        r == get_vault_pda_spec(*program_id, *exchange_booth_account, *owner, *mint, *vault),
{
    let seeds = SeedTuple::vault(&owner.key, &mint.key, &exchange_booth_account.key);
    expect_derived(seeds.derive(program_id), &vault.key, XBoothError::InvalidVaultAccount)
}

/// What `check_stored_owner` returns for the bytes of a booth account and
/// the address of an authority.
pub open spec fn check_stored_owner_spec(record: Seq<u8>, authority: Pubkey) -> Result<
    (),
    ProgramError,
> {
    match ExchangeBoothAccount::unpack_spec(record) {
        None => Err(failure(XBoothError::AccountNotInitialized)),
        Some(stored) => if stored.admin == authority {
            Ok(())
        } else {
            Err(failure(XBoothError::InvalidOwner))
        },
    }
}

/// Holds the authority against the administrator that the booth stores:
/// `Ok` where they are the same address, `InvalidOwner` where they are not,
/// `AccountNotInitialized` where the account holds no booth record.
pub fn check_stored_owner(exchange_booth_account: &AccountInfo, authority: &AccountInfo) -> (r:
    Result<(), ProgramError>)
    ensures
        r == check_stored_owner_spec(exchange_booth_account.data@, authority.key),
{
    match ExchangeBoothAccount::unpack(exchange_booth_account.data.as_slice()) {
        None => Err(ProgramError::from(XBoothError::AccountNotInitialized)),
        Some(stored) => {
            if stored.admin == authority.key {
                Ok(())
            } else {
                Err(ProgramError::from(XBoothError::InvalidOwner))
            }
        },
    }
}

/// The base units of `amount` in the asset of a decoded descriptor;
/// `InvalidMint` where the descriptor did not decode.
pub open spec fn lamports_of_spec(mint: Option<Mint>, amount: Decimal) -> Result<
    u64,
    ProgramError,
> {
    match mint {
        None => Err(failure(XBoothError::InvalidMint)),
        Some(mint) => Ok(amount.base_units_spec(mint.decimals) as u64),
    }
}

/// Converts `amount` to base units of the asset of a decoded descriptor.
pub fn lamports_of(mint: Option<Mint>, amount: Decimal) -> (r: Result<u64, ProgramError>)
    ensures
        r == lamports_of_spec(mint, amount),
{
    match mint {
        None => Err(ProgramError::from(XBoothError::InvalidMint)),
        Some(mint) => Ok(amount.to_base_units(mint.decimals)),
    }
}

/// What `amount_to_lamports` returns for the bytes of an asset's descriptor.
pub open spec fn amount_to_lamports_spec(mint: Seq<u8>, amount: Decimal) -> Result<
    u64,
    ProgramError,
> {
    lamports_of_spec(Mint::unpack_from_slice_spec(mint), amount)
}

/// Converts `amount`, in decimal units of the asset that `mint` describes,
/// to base units: the amount times ten to the power of the asset's decimal
/// places, rounded to the nearest base unit with a tie going down and held
/// at `u64::MAX`. `InvalidMint` where the descriptor does not decode.
pub fn amount_to_lamports(mint: &AccountInfo, amount: Decimal) -> (r: Result<u64, ProgramError>)
    ensures
        r == amount_to_lamports_spec(mint.data@, amount),
{
    lamports_of(Mint::unpack_from_slice(mint.data.as_slice()), amount)
}

/// The base units of `amount` times `rate` in the asset of a decoded
/// descriptor; `InvalidMint` where the descriptor did not decode.
pub open spec fn lamports_at_of_spec(mint: Option<Mint>, amount: Decimal, rate: Decimal) -> Result<
    u64,
    ProgramError,
> {
    match mint {
        None => Err(failure(XBoothError::InvalidMint)),
        Some(mint) => Ok(amount.base_units_at_spec(rate, mint.decimals) as u64),
    }
}

/// Converts `amount` times `rate` to base units of the asset of a decoded
/// descriptor.
pub fn lamports_at_of(mint: Option<Mint>, amount: Decimal, rate: Decimal) -> (r: Result<
    u64,
    ProgramError,
>)
    ensures
        r == lamports_at_of_spec(mint, amount, rate),
{
    match mint {
        None => Err(ProgramError::from(XBoothError::InvalidMint)),
        Some(mint) => Ok(amount.to_base_units_at(&rate, mint.decimals)),
    }
}

/// What `amount_to_lamports_at` returns for the bytes of an asset's
/// descriptor.
pub open spec fn amount_to_lamports_at_spec(mint: Seq<u8>, amount: Decimal, rate: Decimal) -> Result<
    u64,
    ProgramError,
> {
    lamports_at_of_spec(Mint::unpack_from_slice_spec(mint), amount, rate)
}

/// Converts `amount` times `rate`, in decimal units of the asset that
/// `mint` describes, to base units, rounding once as `amount_to_lamports`
/// does. `InvalidMint` where the descriptor does not decode.
pub fn amount_to_lamports_at(mint: &AccountInfo, amount: Decimal, rate: Decimal) -> (r: Result<
    u64,
    ProgramError,
>)
    ensures
        r == amount_to_lamports_at_spec(mint.data@, amount, rate),
{
    lamports_at_of(Mint::unpack_from_slice(mint.data.as_slice()), amount, rate)
}

} // verus!
