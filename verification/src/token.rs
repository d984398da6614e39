//! What the booth reads of the token service's accounts.
//!
//! Custody accounts and asset descriptors are stored in the token service's
//! own layout. The booth does not interpret those bytes itself: it has the
//! token service's library decode them and works on what comes back.

use crate::errors::XBoothError;
use crate::pubkey::Pubkey;
use solana_program::program_pack::Pack;
use vstd::prelude::*;

verus! {

/// The length in bytes of a stored custody account.
pub const TOKEN_ACCOUNT_LEN: usize = 165;

/// The length in bytes of a stored asset descriptor.
pub const MINT_LEN: usize = 82;

/// The life cycle of a custody account.
#[derive(Debug, Clone, Copy, PartialEq, Eq, Structural)]
pub enum AccountState {
    /// The account holds no state yet.
    Uninitialized,
    /// The account is in use.
    Initialized,
    /// The account is in use and frozen by the asset's freeze authority.
    Frozen,
}

/// A decoded custody account: a balance of one asset under one owner.
#[derive(Debug, Clone, Copy, PartialEq, Eq)]
pub struct TokenAccount {
    /// The asset the account holds.
    pub mint: Pubkey,
    /// The authority over the account.
    pub owner: Pubkey,
    /// The balance, in base units.
    pub amount: u64,
    /// Where the account is in its life cycle.
    pub state: AccountState,
}

/// A decoded asset descriptor.
#[derive(Debug, Clone, Copy, PartialEq, Eq, Structural)]
pub struct Mint {
    /// The number of decimal places of a base unit.
    pub decimals: u8,
}

/// The custody account that the token service's library decodes from the
/// given bytes, or `None` where it refuses them.
pub uninterp spec fn unpacked_account(data: Seq<u8>) -> Option<TokenAccount>;

/// The asset descriptor that the token service's library decodes from the
/// given bytes, or `None` where it refuses them.
pub uninterp spec fn unpacked_mint(data: Seq<u8>) -> Option<Mint>;

/// Calls `Account::unpack_from_slice` of `spl_token`, which reads the first
/// 165 bytes and indexes past the end of a shorter slice; hence the demand
/// on the length. The result depends on the bytes alone. Of the decoded
/// account it keeps the asset, the owner, the balance and the state.
#[verifier::external_body]
fn account_unpack_from_slice(data: &[u8]) -> (decoded: Option<TokenAccount>)
    requires
        data@.len() >= 165,
    ensures
        decoded == unpacked_account(data@),
{
    match spl_token::state::Account::unpack_from_slice(data) {
        Ok(account) => Some(
            TokenAccount {
                mint: Pubkey(account.mint.to_bytes()),
                owner: Pubkey(account.owner.to_bytes()),
                amount: account.amount,
                state: match account.state {
                    spl_token::state::AccountState::Uninitialized => AccountState::Uninitialized,
                    spl_token::state::AccountState::Initialized => AccountState::Initialized,
                    spl_token::state::AccountState::Frozen => AccountState::Frozen,
                },
            },
        ),
        Err(_) => None,
    }
}

/// Calls `Mint::unpack_from_slice` of `spl_token`, which reads the first 82
/// bytes and indexes past the end of a shorter slice; hence the demand on
/// the length. The result depends on the bytes alone. Of the decoded
/// descriptor it keeps the number of decimal places.
#[verifier::external_body]
fn mint_unpack_from_slice(data: &[u8]) -> (decoded: Option<Mint>)
    requires
        data@.len() >= 82,
    ensures
        decoded == unpacked_mint(data@),
{
    match spl_token::state::Mint::unpack_from_slice(data) {
        Ok(mint) => Some(Mint { decimals: mint.decimals }),
        Err(_) => None,
    }
}

impl TokenAccount {
    /// Whether the account holds state.
    pub open spec fn is_initialized_spec(&self) -> bool {
        self.state != AccountState::Uninitialized
    }

    /// What decoding yields for bytes of any length: nothing for fewer than
    /// 165 bytes, else what the token service's library decodes.
    pub open spec fn unpack_from_slice_spec(data: Seq<u8>) -> Option<TokenAccount> {
        if data.len() >= TOKEN_ACCOUNT_LEN {
            unpacked_account(data)
        } else {
            None
        }
    }

    /// What decoding yields for the bytes of a whole account: nothing unless
    /// they are exactly 165, else what the token service's library decodes.
    pub open spec fn unpack_unchecked_spec(data: Seq<u8>) -> Option<TokenAccount> {
        if data.len() == TOKEN_ACCOUNT_LEN {
            unpacked_account(data)
        } else {
            None
        }
    }

    /// A decoded account that is in use; the failure otherwise.
    pub open spec fn initialized_spec(decoded: Option<TokenAccount>) -> Result<
        TokenAccount,
        XBoothError,
    > {
        match decoded {
            None => Err(XBoothError::InvalidSPLTokenAccount),
            Some(account) => if account.is_initialized_spec() {
                Ok(account)
            } else {
                Err(XBoothError::AccountNotInitialized)
            },
        }
    }

    /// What reading an account that must be in use yields.
    pub open spec fn unpack_spec(data: Seq<u8>) -> Result<TokenAccount, XBoothError> {
        Self::initialized_spec(Self::unpack_unchecked_spec(data))
    }

    /// Whether the account holds state: any state but `Uninitialized`.
    #[verifier::when_used_as_spec(is_initialized_spec)]
    pub fn is_initialized(&self) -> (yes: bool)
        ensures
            yes == self.is_initialized_spec(),
    {
        match self.state {
            AccountState::Uninitialized => false,
            AccountState::Initialized => true,
            AccountState::Frozen => true,
        }
    }

    /// Decodes a custody account from the first 165 bytes of `data`.
    /// `None` where there are fewer bytes or they do not decode.
    pub fn unpack_from_slice(data: &[u8]) -> (decoded: Option<TokenAccount>)
        ensures
            decoded == Self::unpack_from_slice_spec(data@),
    {
        if data.len() >= TOKEN_ACCOUNT_LEN {
            account_unpack_from_slice(data)
        } else {
            None
        }
    }

    /// Decodes a custody account from `data`, which must be the whole
    /// account. `None` where the length is not 165 or the bytes do not
    /// decode. An account that holds no state yet decodes.
    pub fn unpack_unchecked(data: &[u8]) -> (decoded: Option<TokenAccount>)
        ensures
            decoded == Self::unpack_unchecked_spec(data@),
    {
        if data.len() == TOKEN_ACCOUNT_LEN {
            account_unpack_from_slice(data)
        } else {
            None
        }
    }

    /// Sorts a decoding by what the booth can do with it: the account where
    /// it decoded and is in use, `InvalidSPLTokenAccount` where it did not
    /// decode, `AccountNotInitialized` where it holds no state yet.
    pub fn initialized(decoded: Option<TokenAccount>) -> (account: Result<TokenAccount, XBoothError>)
        ensures
            account == Self::initialized_spec(decoded),
    {
        match decoded {
            None => Err(XBoothError::InvalidSPLTokenAccount),
            Some(account) => {
                if account.is_initialized() {
                    Ok(account)
                } else {
                    Err(XBoothError::AccountNotInitialized)
                }
            },
        }
    }

    /// Decodes a custody account that must be in use.
    pub fn unpack(data: &[u8]) -> (account: Result<TokenAccount, XBoothError>)
        ensures
            account == Self::unpack_spec(data@),
    {
        Self::initialized(Self::unpack_unchecked(data))
    }
}

impl Mint {
    /// What decoding yields for bytes of any length: nothing for fewer than
    /// 82 bytes, else what the token service's library decodes.
    pub open spec fn unpack_from_slice_spec(data: Seq<u8>) -> Option<Mint> {
        if data.len() >= MINT_LEN {
            unpacked_mint(data)
        } else {
            None
        }
    }

    /// Decodes an asset descriptor from the first 82 bytes of `data`.
    /// `None` where there are fewer bytes or they do not decode.
    pub fn unpack_from_slice(data: &[u8]) -> (decoded: Option<Mint>)
        ensures
            decoded == Self::unpack_from_slice_spec(data@),
    {
        if data.len() >= MINT_LEN {
            mint_unpack_from_slice(data)
        } else {
            None
        }
    }
}

} // verus!
