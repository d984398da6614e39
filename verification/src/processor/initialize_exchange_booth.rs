//! Initialize: create the booth record and both vaults.
//!
//! Accounts, in order: the booth (writable), the payer and future
//! administrator (signer), the funding service, vault A (writable), vault B
//! (writable), asset A, asset B, the token service, the host's rent
//! information.

use crate::account_info::AccountInfo;
use crate::errors::{failure, ProgramError, XBoothError};
use crate::processor::utils::{
    get_exchange_booth_pda,
    get_exchange_booth_pda_spec,
    get_vault_pda,
    get_vault_pda_spec,
};
use crate::pubkey::{matching_bump, DerivationProof, Pubkey, SeedTuple};
use crate::service::{CreateAccount, InitializeAccount};
use crate::state::{ExchangeBoothAccount, EXCHANGE_BOOTH_ACCOUNT_LEN};
use crate::token::TOKEN_ACCOUNT_LEN;
use vstd::prelude::*;

verus! {

/// The number of accounts the operation takes.
pub const ACCOUNTS: usize = 9;

/// Everything an initialization asks of the collaborators, in the order in
/// which it is to be carried out, and the record to store in the booth
/// account at the end.
#[derive(Debug, Clone, Copy, PartialEq, Eq)]
pub struct Initialization {
    /// Create the booth account, owned by the program.
    pub create_booth: CreateAccount,
    /// Create the account of vault A, owned by the token service.
    pub create_vault_a: CreateAccount,
    /// Make vault A a custody account of asset A under the booth.
    pub initialize_vault_a: InitializeAccount,
    /// Create the account of vault B, owned by the token service.
    pub create_vault_b: CreateAccount,
    /// Make vault B a custody account of asset B under the booth.
    pub initialize_vault_b: InitializeAccount,
    /// The booth record to store.
    pub record: ExchangeBoothAccount,
}

/// What the operation learns by deriving addresses: each derivation held
/// against the account supplied in its place.
#[derive(Debug, Clone, Copy, PartialEq, Eq)]
pub struct Readings {
    /// Vault A: derived from the payer, asset A and the booth's address.
    pub vault_a_pda: Result<(Pubkey, u8), ProgramError>,
    /// Vault B: derived from the payer, asset B and the booth's address.
    pub vault_b_pda: Result<(Pubkey, u8), ProgramError>,
    /// The booth: derived from the payer and both assets.
    pub booth_pda: Result<(Pubkey, u8), ProgramError>,
}

/// The readings that the accounts of an initialization give under
/// `program_id`.
pub open spec fn readings_spec(program_id: Pubkey, accounts: Seq<AccountInfo>) -> Readings
    recommends
        accounts.len() >= ACCOUNTS,
{
    Readings {
        vault_a_pda: get_vault_pda_spec(
            program_id,
            accounts[0],
            accounts[1],
            accounts[5],
            accounts[3],
        ),
        vault_b_pda: get_vault_pda_spec(
            program_id,
            accounts[0],
            accounts[1],
            accounts[6],
            accounts[4],
        ),
        booth_pda: get_exchange_booth_pda_spec(
            program_id,
            accounts[0],
            accounts[1],
            accounts[5],
            accounts[6],
        ),
    }
}

/// The first rule that the accounts and readings of an initialization
/// break, in the order in which the rules are applied; `None` where they
/// break none.
///
/// The payer must sign. The booth must be writable, then both vaults. Vault
/// A, vault B and the booth must each be the address derived for them.
pub open spec fn violation(accounts: Seq<AccountInfo>, readings: Readings) -> Option<ProgramError>
    recommends
        accounts.len() >= ACCOUNTS,
{
    if !accounts[1].is_signer {
        Some(failure(XBoothError::AccountIsNotSigner))
    } else if !accounts[0].is_writable {
        Some(failure(XBoothError::ExchangeBoothNotWritable))
    } else if !accounts[3].is_writable || !accounts[4].is_writable {
        Some(failure(XBoothError::AccountIsNotWritable))
    } else if readings.vault_a_pda is Err {
        Some(readings.vault_a_pda->Err_0)
    } else if readings.vault_b_pda is Err {
        Some(readings.vault_b_pda->Err_0)
    } else if readings.booth_pda is Err {
        Some(readings.booth_pda->Err_0)
    } else {
        None
    }
}

/// The requests of an initialization that breaks no rule.
pub open spec fn plan_spec(program_id: Pubkey, accounts: Seq<AccountInfo>, readings: Readings) -> Initialization
    recommends
        accounts.len() >= ACCOUNTS,
        violation(accounts, readings) is None,
{
    let booth = accounts[0].key;
    let payer = accounts[1].key;
    let vault_a = accounts[3].key;
    let vault_b = accounts[4].key;
    let mint_a = accounts[5].key;
    let mint_b = accounts[6].key;
    let token_program = accounts[7].key;
    Initialization {
        create_booth: CreateAccount {
            payer,
            address: booth,
            space: EXCHANGE_BOOTH_ACCOUNT_LEN as u64,
            owner: program_id,
            proof: DerivationProof {
                seeds: SeedTuple::booth_spec(payer, mint_a, mint_b),
                bump: readings.booth_pda->Ok_0.1,
            },
        },
        create_vault_a: CreateAccount {
            payer,
            address: readings.vault_a_pda->Ok_0.0,
            space: TOKEN_ACCOUNT_LEN as u64,
            owner: token_program,
            proof: DerivationProof {
                seeds: SeedTuple::vault_spec(payer, mint_a, booth),
                bump: readings.vault_a_pda->Ok_0.1,
            },
        },
        initialize_vault_a: InitializeAccount {
            program: token_program,
            account: vault_a,
            mint: mint_a,
            owner: booth,
        },
        create_vault_b: CreateAccount {
            payer,
            address: readings.vault_b_pda->Ok_0.0,
            space: TOKEN_ACCOUNT_LEN as u64,
            owner: token_program,
            proof: DerivationProof {
                seeds: SeedTuple::vault_spec(payer, mint_b, booth),
                bump: readings.vault_b_pda->Ok_0.1,
            },
        },
        initialize_vault_b: InitializeAccount {
            program: token_program,
            account: vault_b,
            mint: mint_b,
            owner: booth,
        },
        record: ExchangeBoothAccount { admin: payer, vault_a, vault_b },
    }
}

/// What an initialization comes to, given its accounts and readings.
pub open spec fn decide_spec(
    program_id: Pubkey,
    accounts: Seq<AccountInfo>,
    readings: Readings,
) -> Result<Initialization, ProgramError> {
    if accounts.len() < ACCOUNTS {
        Err(ProgramError::NotEnoughAccountKeys)
    } else {
        match violation(accounts, readings) {
            Some(error) => Err(error),
            None => Ok(plan_spec(program_id, accounts, readings)),
        }
    }
}

/// What an initialization comes to.
pub open spec fn process_spec(program_id: Pubkey, accounts: Seq<AccountInfo>) -> Result<
    Initialization,
    ProgramError,
> {
    decide_spec(program_id, accounts, readings_spec(program_id, accounts))
}

/// Decides an initialization from its accounts and from what deriving the
/// three addresses gave.
///
/// Fails with `NotEnoughAccountKeys` on fewer than nine accounts, else with
/// the first rule broken: `AccountIsNotSigner` where the payer did not sign,
/// `ExchangeBoothNotWritable` where the booth is not writable,
/// `AccountIsNotWritable` where a vault is not, then the failure of the
/// reading of vault A, of vault B, of the booth. Where no rule is broken it
/// returns the requests to make and the record to store.
pub fn decide(program_id: &Pubkey, accounts: &[AccountInfo], readings: &Readings) -> (r: Result<
    Initialization,
    ProgramError,
>)
    ensures
        r == decide_spec(*program_id, accounts@, *readings),
{
    if accounts.len() < ACCOUNTS {
        return Err(ProgramError::NotEnoughAccountKeys);
    }
    let exchange_booth_account = &accounts[0];
    let payer = &accounts[1];
    let vault_a = &accounts[3];
    let vault_b = &accounts[4];
    let mint_a = &accounts[5];
    let mint_b = &accounts[6];
    let token_program = &accounts[7];

    if !payer.is_signer {
        return Err(ProgramError::from(XBoothError::AccountIsNotSigner));
    }
    if !exchange_booth_account.is_writable {
        return Err(ProgramError::from(XBoothError::ExchangeBoothNotWritable));
    }
    if !vault_a.is_writable {
        return Err(ProgramError::from(XBoothError::AccountIsNotWritable));
    }
    if !vault_b.is_writable {
        return Err(ProgramError::from(XBoothError::AccountIsNotWritable));
    }
    let (vault_a_pda, vault_a_bump_seed) = match readings.vault_a_pda {
        Ok(found) => found,
        Err(error) => {
            return Err(error);
        },
    };
    let (vault_b_pda, vault_b_bump_seed) = match readings.vault_b_pda {
        Ok(found) => found,
        Err(error) => {
            return Err(error);
        },
    };
    let (_xbooth_pda, xbooth_bump_seed) = match readings.booth_pda {
        Ok(found) => found,
        Err(error) => {
            return Err(error);
        },
    };

    let create_booth = CreateAccount {
        payer: payer.key,
        address: exchange_booth_account.key,
        space: EXCHANGE_BOOTH_ACCOUNT_LEN as u64,
        owner: *program_id,
        proof: DerivationProof {
            seeds: SeedTuple::booth(&payer.key, &mint_a.key, &mint_b.key),
            bump: xbooth_bump_seed,
        },
    };
    let create_vault_a = CreateAccount {
        payer: payer.key,
        address: vault_a_pda,
        space: TOKEN_ACCOUNT_LEN as u64,
        owner: token_program.key,
        proof: DerivationProof {
            seeds: SeedTuple::vault(&payer.key, &mint_a.key, &exchange_booth_account.key),
            bump: vault_a_bump_seed,
        },
    };
    let initialize_vault_a = InitializeAccount {
        program: token_program.key,
        account: vault_a.key,
        mint: mint_a.key,
        owner: exchange_booth_account.key,
    };
    let create_vault_b = CreateAccount {
        payer: payer.key,
        address: vault_b_pda,
        space: TOKEN_ACCOUNT_LEN as u64,
        owner: token_program.key,
        proof: DerivationProof {
            seeds: SeedTuple::vault(&payer.key, &mint_b.key, &exchange_booth_account.key),
            bump: vault_b_bump_seed,
        },
    };
    let initialize_vault_b = InitializeAccount {
        program: token_program.key,
        account: vault_b.key,
        mint: mint_b.key,
        owner: exchange_booth_account.key,
    };
    let record = ExchangeBoothAccount {
        admin: payer.key,
        vault_a: vault_a.key,
        vault_b: vault_b.key,
    };
    Ok(
        Initialization {
            create_booth,
            create_vault_a,
            initialize_vault_a,
            create_vault_b,
            initialize_vault_b,
            record,
        },
    )
}

/// Initializes a booth for the payer and the two assets.
///
/// Derives the addresses of vault A, of vault B and of the booth, holds
/// each against the account supplied in its place, and decides as `decide`
/// does. Nothing is created here: on success the requests come back, for
/// the host to carry out in order, all or none.
pub fn process(program_id: &Pubkey, accounts: &[AccountInfo]) -> (r: Result<
    Initialization,
    ProgramError,
>)
    ensures
        r == process_spec(*program_id, accounts@),
{
    if accounts.len() < ACCOUNTS {
        return Err(ProgramError::NotEnoughAccountKeys);
    }
    let readings = Readings {
        vault_a_pda: get_vault_pda(
            program_id,
            &accounts[0],
            &accounts[1],
            &accounts[5],
            &accounts[3],
        ),
        vault_b_pda: get_vault_pda(
            program_id,
            &accounts[0],
            &accounts[1],
            &accounts[6],
            &accounts[4],
        ),
        booth_pda: get_exchange_booth_pda(
            program_id,
            &accounts[0],
            &accounts[1],
            &accounts[5],
            &accounts[6],
        ),
    };
    decide(program_id, accounts, &readings)
}

/// Where nine accounts are given, the payer signed and the booth and both
/// vaults are writable, an initialization succeeds exactly when each of the
/// three addresses is the one derived for it. Otherwise it fails with the
/// failure of the first that is not: `InvalidVaultAccount` for vault A,
/// then for vault B, `InvalidAccountAddress` for the booth. A failure asks
/// for nothing to be created.
pub proof fn lemma_initialize_succeeds_iff_derived(program_id: Pubkey, accounts: Seq<AccountInfo>)
    requires
        accounts.len() >= ACCOUNTS,
        accounts[1].is_signer,
        accounts[0].is_writable,
        accounts[3].is_writable,
        accounts[4].is_writable,
    ensures
        ({
            let payer = accounts[1].key;
            let booth = accounts[0].key;
            let vault_a = matching_bump(
                SeedTuple::vault_spec(payer, accounts[5].key, booth).derived(program_id),
                accounts[3].key,
            );
            let vault_b = matching_bump(
                SeedTuple::vault_spec(payer, accounts[6].key, booth).derived(program_id),
                accounts[4].key,
            );
            let record = matching_bump(
                SeedTuple::booth_spec(payer, accounts[5].key, accounts[6].key).derived(program_id),
                booth,
            );
            let outcome = process_spec(program_id, accounts);
            &&& outcome is Ok <==> vault_a is Some && vault_b is Some && record is Some
            &&& vault_a is None ==> outcome == Err::<Initialization, ProgramError>(
                failure(XBoothError::InvalidVaultAccount),
            )
            &&& vault_a is Some && vault_b is None ==> outcome == Err::<
                Initialization,
                ProgramError,
            >(failure(XBoothError::InvalidVaultAccount))
            &&& vault_a is Some && vault_b is Some && record is None ==> outcome == Err::<
                Initialization,
                ProgramError,
            >(failure(XBoothError::InvalidAccountAddress))
        }),
{
}

/// What a successful initialization sets up is consistent. The record
/// names the payer as administrator and the two supplied vaults. The booth
/// is created at the address derived from the administrator and the two
/// assets, and each vault at the address derived from the administrator,
/// the vault's asset and the booth's address, each creation authorised by
/// that very derivation. Each vault is bound to its asset with the booth's
/// address, never the payer's key, as the authority over it.
pub proof fn lemma_initialized_booth_is_consistent(program_id: Pubkey, accounts: Seq<AccountInfo>)
    requires
        process_spec(program_id, accounts) is Ok,
    ensures
        accounts.len() >= ACCOUNTS,
        ({
            let plan = process_spec(program_id, accounts)->Ok_0;
            let admin = plan.record.admin;
            let booth = plan.create_booth.address;
            &&& admin == accounts[1].key
            &&& booth == accounts[0].key
            &&& plan.record.vault_a == accounts[3].key
            &&& plan.record.vault_b == accounts[4].key
            &&& SeedTuple::booth_spec(admin, accounts[5].key, accounts[6].key).derived(program_id)
                == Some((booth, plan.create_booth.proof.bump))
            &&& SeedTuple::vault_spec(admin, accounts[5].key, booth).derived(program_id) == Some(
                (plan.record.vault_a, plan.create_vault_a.proof.bump),
            )
            &&& SeedTuple::vault_spec(admin, accounts[6].key, booth).derived(program_id) == Some(
                (plan.record.vault_b, plan.create_vault_b.proof.bump),
            )
            &&& plan.create_booth.proof.seeds.derived(program_id) == Some(
                (plan.create_booth.address, plan.create_booth.proof.bump),
            )
            &&& plan.create_vault_a.proof.seeds.derived(program_id) == Some(
                (plan.create_vault_a.address, plan.create_vault_a.proof.bump),
            )
            &&& plan.create_vault_b.proof.seeds.derived(program_id) == Some(
                (plan.create_vault_b.address, plan.create_vault_b.proof.bump),
            )
            &&& plan.create_vault_a.address == plan.record.vault_a
            &&& plan.create_vault_b.address == plan.record.vault_b
            &&& plan.create_booth.owner == program_id
            &&& plan.create_vault_a.owner == accounts[7].key
            &&& plan.create_vault_b.owner == accounts[7].key
            &&& plan.create_booth.space == EXCHANGE_BOOTH_ACCOUNT_LEN
            &&& plan.create_vault_a.space == TOKEN_ACCOUNT_LEN
            &&& plan.create_vault_b.space == TOKEN_ACCOUNT_LEN
            &&& plan.initialize_vault_a == (InitializeAccount {
                program: accounts[7].key,
                account: plan.record.vault_a,
                mint: accounts[5].key,
                owner: booth,
            })
            &&& plan.initialize_vault_b == (InitializeAccount {
                program: accounts[7].key,
                account: plan.record.vault_b,
                mint: accounts[6].key,
                owner: booth,
            })
        }),
{
}

} // verus!
