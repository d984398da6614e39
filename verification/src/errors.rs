//! The failures an exchange-booth operation can report.

use vstd::prelude::*;

verus! {

/// Why the booth refused an operation.
#[derive(Debug, Clone, Copy, PartialEq, Eq, Structural)]
pub enum XBoothError {
    /// A supplied address is not the one its seeds derive.
    InvalidAccountAddress,
    /// A supplied vault is not the vault its seeds derive.
    InvalidVaultAccount,
    /// The booth record cannot be written to.
    ExchangeBoothNotWritable,
    /// An account that must change cannot be written to.
    AccountIsNotWritable,
    /// An account that must authorise the operation did not sign.
    AccountIsNotSigner,
    /// An account that must already hold state holds none.
    AccountNotInitialized,
    /// The authority is not the administrator the booth stores.
    InvalidOwner,
    /// An account holds another asset than the one it is paired with, or
    /// the asset's descriptor does not decode.
    InvalidMint,
    /// Both legs of an exchange name the same asset.
    UniqueMintAccounts,
    /// The paying side holds less than the requested amount.
    InsufficientFunds,
    /// The bytes of a custody account do not decode.
    InvalidSPLTokenAccount,
}

impl XBoothError {
    /// The number under which the failure crosses the program boundary.
    pub open spec fn code_spec(self) -> u32 {
        match self {
            XBoothError::InvalidAccountAddress => 0,
            XBoothError::InvalidVaultAccount => 1,
            XBoothError::ExchangeBoothNotWritable => 2,
            XBoothError::AccountIsNotWritable => 3,
            XBoothError::AccountIsNotSigner => 4,
            XBoothError::AccountNotInitialized => 5,
            XBoothError::InvalidOwner => 6,
            XBoothError::InvalidMint => 7,
            XBoothError::UniqueMintAccounts => 8,
            XBoothError::InsufficientFunds => 9,
            XBoothError::InvalidSPLTokenAccount => 10,
        }
    }

    /// The failure a number stands for, if it stands for one.
    pub open spec fn from_code_spec(code: u32) -> Option<XBoothError> {
        if code == 0 {
            Some(XBoothError::InvalidAccountAddress)
        } else if code == 1 {
            Some(XBoothError::InvalidVaultAccount)
        } else if code == 2 {
            Some(XBoothError::ExchangeBoothNotWritable)
        } else if code == 3 {
            Some(XBoothError::AccountIsNotWritable)
        } else if code == 4 {
            Some(XBoothError::AccountIsNotSigner)
        } else if code == 5 {
            Some(XBoothError::AccountNotInitialized)
        } else if code == 6 {
            Some(XBoothError::InvalidOwner)
        } else if code == 7 {
            Some(XBoothError::InvalidMint)
        } else if code == 8 {
            Some(XBoothError::UniqueMintAccounts)
        } else if code == 9 {
            Some(XBoothError::InsufficientFunds)
        } else if code == 10 {
            Some(XBoothError::InvalidSPLTokenAccount)
        } else {
            None
        }
    }

    /// The sentence that describes the failure to a reader.
    pub open spec fn message_spec(self) -> Seq<char> {
        match self {
            XBoothError::InvalidAccountAddress => "Invalid Account address."@,
            XBoothError::InvalidVaultAccount => "Invalid Vault Account"@,
            XBoothError::ExchangeBoothNotWritable => "Exchange booth is not writable"@,
            XBoothError::AccountIsNotWritable => "Account is not writable"@,
            XBoothError::AccountIsNotSigner => "Account is not signer"@,
            XBoothError::AccountNotInitialized => "Account is not initialized"@,
            XBoothError::InvalidOwner => "Authority is not the admin of the exchange booth"@,
            XBoothError::InvalidMint => "Invalid Mint"@,
            XBoothError::UniqueMintAccounts => "Token accounts must be of different mints"@,
            XBoothError::InsufficientFunds => "Insufficient funds"@,
            XBoothError::InvalidSPLTokenAccount => "Invalid SPL token account"@,
        }
    }

    /// The numeric code of this failure.
    #[verifier::when_used_as_spec(code_spec)]
    pub fn code(self) -> (c: u32)
        ensures
            c == self.code_spec(),
    {
        match self {
            XBoothError::InvalidAccountAddress => 0,
            XBoothError::InvalidVaultAccount => 1,
            XBoothError::ExchangeBoothNotWritable => 2,
            XBoothError::AccountIsNotWritable => 3,
            XBoothError::AccountIsNotSigner => 4,
            XBoothError::AccountNotInitialized => 5,
            XBoothError::InvalidOwner => 6,
            XBoothError::InvalidMint => 7,
            XBoothError::UniqueMintAccounts => 8,
            XBoothError::InsufficientFunds => 9,
            XBoothError::InvalidSPLTokenAccount => 10,
        }
    }

    /// Reads a numeric code back: `Some` for the eleven codes in use,
    /// `None` for every other number.
    pub fn from_code(code: u32) -> (e: Option<XBoothError>)
        ensures
            e == Self::from_code_spec(code),
    {
        match code {
            0 => Some(XBoothError::InvalidAccountAddress),
            1 => Some(XBoothError::InvalidVaultAccount),
            2 => Some(XBoothError::ExchangeBoothNotWritable),
            3 => Some(XBoothError::AccountIsNotWritable),
            4 => Some(XBoothError::AccountIsNotSigner),
            5 => Some(XBoothError::AccountNotInitialized),
            6 => Some(XBoothError::InvalidOwner),
            7 => Some(XBoothError::InvalidMint),
            8 => Some(XBoothError::UniqueMintAccounts),
            9 => Some(XBoothError::InsufficientFunds),
            10 => Some(XBoothError::InvalidSPLTokenAccount),
            _ => None,
        }
    }

    /// The description of this failure.
    pub fn to_string(&self) -> (s: String)
        ensures
            s@ == self.message_spec(),
    {
        match self {
            XBoothError::InvalidAccountAddress => "Invalid Account address.".to_owned(),
            XBoothError::InvalidVaultAccount => "Invalid Vault Account".to_owned(),
            XBoothError::ExchangeBoothNotWritable => "Exchange booth is not writable".to_owned(),
            XBoothError::AccountIsNotWritable => "Account is not writable".to_owned(),
            XBoothError::AccountIsNotSigner => "Account is not signer".to_owned(),
            XBoothError::AccountNotInitialized => "Account is not initialized".to_owned(),
            XBoothError::InvalidOwner => {
                "Authority is not the admin of the exchange booth".to_owned()
            },
            XBoothError::InvalidMint => "Invalid Mint".to_owned(),
            XBoothError::UniqueMintAccounts => {
                "Token accounts must be of different mints".to_owned()
            },
            XBoothError::InsufficientFunds => "Insufficient funds".to_owned(),
            XBoothError::InvalidSPLTokenAccount => "Invalid SPL token account".to_owned(),
        }
    }

    /// The name of this family of failures.
    pub fn type_of() -> (s: &'static str)
        ensures
            s@ == "Exchange booth error"@,
    {
        "Exchange booth error"
    }
}

/// Codes and failures correspond one to one: the code of a failure reads
/// back as that failure, and a number that reads back as a failure is that
/// failure's code.
pub proof fn lemma_code_round_trip(e: XBoothError, code: u32)
    ensures
        XBoothError::from_code_spec(e.code_spec()) == Some(e),
        XBoothError::from_code_spec(code) == Some(e) ==> e.code_spec() == code,
{
}

/// The result an operation hands to the host: a failure of the booth by its
/// code, or one of the host's own failures.
#[derive(Debug, Clone, Copy, PartialEq, Eq, Structural)]
pub enum ProgramError {
    /// A failure of the booth, carried as its numeric code.
    Custom(u32),
    /// The account list is shorter than the operation's account contract.
    NotEnoughAccountKeys,
    /// The program named as the token service is not the token service.
    IncorrectProgramId,
}

/// A failure of the booth as the host sees it: `Custom` with the failure's
/// code.
pub open spec fn failure(e: XBoothError) -> ProgramError {
    ProgramError::Custom(e.code_spec())
}

impl From<XBoothError> for ProgramError {
    fn from(e: XBoothError) -> (r: ProgramError) {
        ProgramError::Custom(e.code())
    }
}

impl vstd::std_specs::convert::FromSpecImpl<XBoothError> for ProgramError {
    open spec fn obeys_from_spec() -> bool {
        true
    }

    open spec fn from_spec(e: XBoothError) -> ProgramError {
        failure(e)
    }
}

/// Distinct failures of the booth stay distinct as the host sees them, and
/// none of them reads as one of the host's own failures.
pub proof fn lemma_failure_distinct(a: XBoothError, b: XBoothError)
    ensures
        failure(a) == failure(b) <==> a == b,
        failure(a) != ProgramError::NotEnoughAccountKeys,
        failure(a) != ProgramError::IncorrectProgramId,
        failure(a).booth_error_spec() == Some(a),
{
}

impl ProgramError {
    /// The booth failure behind this result, if it is one.
    pub open spec fn booth_error_spec(self) -> Option<XBoothError> {
        match self {
            ProgramError::Custom(code) => XBoothError::from_code_spec(code),
            ProgramError::NotEnoughAccountKeys => None,
            ProgramError::IncorrectProgramId => None,
        }
    }

    /// Reads the booth failure back out of a host result: `Some` for a
    /// `Custom` code in use, `None` otherwise.
    pub fn booth_error(&self) -> (e: Option<XBoothError>)
        ensures
            e == self.booth_error_spec(),
    {
        match self {
            ProgramError::Custom(code) => XBoothError::from_code(*code),
            ProgramError::NotEnoughAccountKeys => None,
            ProgramError::IncorrectProgramId => None,
        }
    }
}

} // verus!
