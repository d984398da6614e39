use solana_program::program_option::COption;
use solana_program::program_pack::Pack;
use xbooth::account_info::AccountInfo;
use xbooth::amount::Decimal;
use xbooth::errors::{ProgramError, XBoothError};
use xbooth::instruction::XBoothIntruction;
use xbooth::processor::utils::{
    amount_to_lamports, amount_to_lamports_at, check_stored_owner, expect_derived,
    get_exchange_booth_pda, get_vault_pda, lamports_at_of, lamports_of,
};
use xbooth::processor::{deposit, exchange, initialize_exchange_booth, token_a_b_xr, withdraw};
use xbooth::processor::{Outcome, Processor};
use xbooth::pubkey::{DerivationProof, Pubkey, SeedTuple};
use xbooth::service::{Authorization, CreateAccount, InitializeAccount, TokenTransfer};
use xbooth::state::ExchangeBoothAccount;
use xbooth::token::{AccountState, Mint, TokenAccount};

fn key(fill: u8) -> Pubkey {
    Pubkey::new_from_array([fill; 32])
}

fn outside(key: &Pubkey) -> solana_program::pubkey::Pubkey {
    solana_program::pubkey::Pubkey::new_from_array(key.to_bytes())
}

fn failure(error: XBoothError) -> ProgramError {
    ProgramError::from(error)
}

fn packed_account(mint: &Pubkey, owner: &Pubkey, amount: u64) -> Vec<u8> {
    let account = spl_token::state::Account {
        mint: outside(mint),
        owner: outside(owner),
        amount,
        delegate: COption::None,
        state: spl_token::state::AccountState::Initialized,
        is_native: COption::None,
        delegated_amount: 0,
        close_authority: COption::None,
    };
    let mut data = vec![0u8; spl_token::state::Account::LEN];
    account.pack_into_slice(&mut data);
    data
}

fn packed_mint(decimals: u8) -> Vec<u8> {
    let mint = spl_token::state::Mint {
        mint_authority: COption::None,
        supply: 0,
        decimals,
        is_initialized: true,
        freeze_authority: COption::None,
    };
    let mut data = vec![0u8; spl_token::state::Mint::LEN];
    mint.pack_into_slice(&mut data);
    data
}

/// A booth of one administrator and two assets, with everything at the
/// addresses that are derived for it.
struct Booth {
    program: Pubkey,
    admin: Pubkey,
    mint_a: Pubkey,
    mint_b: Pubkey,
    booth: Pubkey,
    booth_bump: u8,
    vault_a: Pubkey,
    vault_a_bump: u8,
    vault_b: Pubkey,
    vault_b_bump: u8,
    token_a: Pubkey,
    token_b: Pubkey,
    token_program: Pubkey,
}

fn booth() -> Booth {
    let program = key(100);
    let admin = key(1);
    let mint_a = key(2);
    let mint_b = key(3);
    let (booth, booth_bump) = SeedTuple::booth(&admin, &mint_a, &mint_b).derive(&program).unwrap();
    let (vault_a, vault_a_bump) =
        SeedTuple::vault(&admin, &mint_a, &booth).derive(&program).unwrap();
    let (vault_b, vault_b_bump) =
        SeedTuple::vault(&admin, &mint_b, &booth).derive(&program).unwrap();
    Booth {
        program,
        admin,
        mint_a,
        mint_b,
        booth,
        booth_bump,
        vault_a,
        vault_a_bump,
        vault_b,
        vault_b_bump,
        token_a: key(21),
        token_b: key(22),
        token_program: Pubkey::new_from_array(spl_token::id().to_bytes()),
    }
}

fn record(b: &Booth) -> Vec<u8> {
    ExchangeBoothAccount { admin: b.admin, vault_a: b.vault_a, vault_b: b.vault_b }.pack()
}

fn initialize_accounts(b: &Booth) -> Vec<AccountInfo> {
    vec![
        AccountInfo::new(b.booth, false, true, vec![]),
        AccountInfo::new(b.admin, true, false, vec![]),
        AccountInfo::new(key(0), false, false, vec![]),
        AccountInfo::new(b.vault_a, false, true, vec![]),
        AccountInfo::new(b.vault_b, false, true, vec![]),
        AccountInfo::new(b.mint_a, false, false, packed_mint(9)),
        AccountInfo::new(b.mint_b, false, false, packed_mint(9)),
        AccountInfo::new(b.token_program, false, false, vec![]),
        AccountInfo::new(key(99), false, false, vec![]),
    ]
}

/// The accounts of a deposit of asset A from a token account that holds
/// `held` base units into a vault that holds `stored`.
fn deposit_accounts(b: &Booth, held: u64, stored: u64) -> Vec<AccountInfo> {
    vec![
        AccountInfo::new(b.booth, false, true, record(b)),
        AccountInfo::new(b.admin, true, false, vec![]),
        AccountInfo::new(b.token_a, false, true, packed_account(&b.mint_a, &b.admin, held)),
        AccountInfo::new(b.vault_a, false, true, packed_account(&b.mint_a, &b.booth, stored)),
        AccountInfo::new(b.mint_a, false, false, packed_mint(9)),
        AccountInfo::new(b.mint_b, false, false, packed_mint(6)),
        AccountInfo::new(b.token_program, false, false, vec![]),
    ]
}

fn withdraw_accounts(b: &Booth, held: u64, stored: u64) -> Vec<AccountInfo> {
    let mut accounts = deposit_accounts(b, held, stored);
    accounts[2].is_signer = true;
    accounts
}

/// The accounts of an exchange: the receiving account holds asset B, the
/// paying account asset A.
fn exchange_accounts(b: &Booth) -> Vec<AccountInfo> {
    vec![
        AccountInfo::new(b.booth, false, false, record(b)),
        AccountInfo::new(b.admin, true, false, vec![]),
        AccountInfo::new(b.token_b, false, true, packed_account(&b.mint_b, &b.admin, 7)),
        AccountInfo::new(b.token_a, false, true, packed_account(&b.mint_a, &b.admin, 8)),
        AccountInfo::new(b.vault_a, false, true, packed_account(&b.mint_a, &b.booth, 0)),
        AccountInfo::new(b.vault_b, false, true, packed_account(&b.mint_b, &b.booth, 0)),
        AccountInfo::new(b.mint_a, false, false, packed_mint(9)),
        AccountInfo::new(b.mint_b, false, false, packed_mint(6)),
        AccountInfo::new(b.token_program, false, false, vec![]),
    ]
}

fn booth_proof(b: &Booth) -> DerivationProof {
    DerivationProof { seeds: SeedTuple::booth(&b.admin, &b.mint_a, &b.mint_b), bump: b.booth_bump }
}

// ---------------------------------------------------------------- checks

#[test]
fn a_derivation_must_give_the_expected_address() {
    let mismatch = XBoothError::InvalidVaultAccount;
    assert_eq!(expect_derived(Some((key(1), 250)), &key(1), mismatch), Ok((key(1), 250)));
    assert_eq!(expect_derived(Some((key(1), 250)), &key(2), mismatch), Err(failure(mismatch)));
    assert_eq!(expect_derived(None, &key(2), mismatch), Err(failure(mismatch)));
    assert_eq!(
        expect_derived(None, &key(2), XBoothError::InvalidAccountAddress),
        Err(ProgramError::Custom(0))
    );
}

#[test]
fn the_booth_address_is_verified() {
    let b = booth();
    let accounts = deposit_accounts(&b, 0, 0);
    assert_eq!(
        get_exchange_booth_pda(&b.program, &accounts[0], &accounts[1], &accounts[4], &accounts[5]),
        Ok((b.booth, b.booth_bump))
    );
    // The assets the other way round derive another booth.
    assert_eq!(
        get_exchange_booth_pda(&b.program, &accounts[0], &accounts[1], &accounts[5], &accounts[4]),
        Err(failure(XBoothError::InvalidAccountAddress))
    );
    // So does another administrator, and so does another program.
    assert_eq!(
        get_exchange_booth_pda(&b.program, &accounts[0], &accounts[2], &accounts[4], &accounts[5]),
        Err(failure(XBoothError::InvalidAccountAddress))
    );
    assert_eq!(
        get_exchange_booth_pda(&key(101), &accounts[0], &accounts[1], &accounts[4], &accounts[5]),
        Err(failure(XBoothError::InvalidAccountAddress))
    );
    // An account that is not the booth is refused.
    assert_eq!(
        get_exchange_booth_pda(&b.program, &accounts[3], &accounts[1], &accounts[4], &accounts[5]),
        Err(failure(XBoothError::InvalidAccountAddress))
    );
}

#[test]
fn a_vault_address_is_verified() {
    let b = booth();
    let accounts = initialize_accounts(&b);
    assert_eq!(
        get_vault_pda(&b.program, &accounts[0], &accounts[1], &accounts[5], &accounts[3]),
        Ok((b.vault_a, b.vault_a_bump))
    );
    assert_eq!(
        get_vault_pda(&b.program, &accounts[0], &accounts[1], &accounts[6], &accounts[4]),
        Ok((b.vault_b, b.vault_b_bump))
    );
    assert_ne!(b.vault_a, b.vault_b);
    // Vault A is not the vault of asset B.
    assert_eq!(
        get_vault_pda(&b.program, &accounts[0], &accounts[1], &accounts[6], &accounts[3]),
        Err(failure(XBoothError::InvalidVaultAccount))
    );
    assert_eq!(
        get_vault_pda(&b.program, &accounts[0], &accounts[1], &accounts[5], &accounts[4]),
        Err(failure(XBoothError::InvalidVaultAccount))
    );
    assert_eq!(
        get_vault_pda(&key(101), &accounts[0], &accounts[1], &accounts[5], &accounts[3]),
        Err(failure(XBoothError::InvalidVaultAccount))
    );
}

#[test]
fn the_authority_is_held_against_the_stored_administrator() {
    let b = booth();
    let accounts = deposit_accounts(&b, 0, 0);
    assert_eq!(check_stored_owner(&accounts[0], &accounts[1]), Ok(()));
    assert_eq!(
        check_stored_owner(&accounts[0], &accounts[2]),
        Err(failure(XBoothError::InvalidOwner))
    );
    // An account without a booth record has no administrator.
    assert_eq!(
        check_stored_owner(&accounts[1], &accounts[1]),
        Err(failure(XBoothError::AccountNotInitialized))
    );
    let mut long = accounts[0].clone();
    long.data.push(0);
    assert_eq!(
        check_stored_owner(&long, &accounts[1]),
        Err(failure(XBoothError::AccountNotInitialized))
    );
}

#[test]
fn an_amount_is_converted_with_the_decimal_places_of_the_asset() {
    let nine = AccountInfo::new(key(2), false, false, packed_mint(9));
    let two = AccountInfo::new(key(3), false, false, packed_mint(2));
    let none = AccountInfo::new(key(4), false, false, vec![]);
    assert_eq!(amount_to_lamports(&nine, Decimal::new(50, 0)), Ok(50_000_000_000));
    assert_eq!(amount_to_lamports(&two, Decimal::new(50, 0)), Ok(5_000));
    assert_eq!(amount_to_lamports(&two, Decimal::new(12345, 3)), Ok(1234));
    assert_eq!(amount_to_lamports(&two, Decimal::new(12355, 3)), Ok(1235));
    assert_eq!(amount_to_lamports(&two, Decimal::new(12356, 3)), Ok(1236));
    assert_eq!(
        amount_to_lamports(&none, Decimal::new(50, 0)),
        Err(failure(XBoothError::InvalidMint))
    );
    let half = Decimal::new(5, 1);
    assert_eq!(amount_to_lamports_at(&nine, Decimal::new(10, 0), half), Ok(5_000_000_000));
    assert_eq!(amount_to_lamports_at(&two, Decimal::new(1, 2), half), Ok(0));
    assert_eq!(amount_to_lamports_at(&two, Decimal::new(3, 2), half), Ok(1));
    assert_eq!(
        amount_to_lamports_at(&none, Decimal::new(10, 0), half),
        Err(failure(XBoothError::InvalidMint))
    );
    assert_eq!(lamports_of(Some(Mint { decimals: 3 }), Decimal::new(7, 0)), Ok(7_000));
    assert_eq!(lamports_of(None, Decimal::new(7, 0)), Err(failure(XBoothError::InvalidMint)));
    assert_eq!(lamports_at_of(Some(Mint { decimals: 3 }), Decimal::new(7, 0), half), Ok(3_500));
    assert_eq!(
        lamports_at_of(None, Decimal::new(7, 0), half),
        Err(failure(XBoothError::InvalidMint))
    );
}

// ------------------------------------------------------------- initialize

#[test]
fn initialize_asks_for_the_booth_and_both_vaults() {
    let b = booth();
    let plan = initialize_exchange_booth::process(&b.program, &initialize_accounts(&b)).unwrap();
    assert_eq!(
        plan.create_booth,
        CreateAccount {
            payer: b.admin,
            address: b.booth,
            space: 96,
            owner: b.program,
            proof: booth_proof(&b),
        }
    );
    assert_eq!(
        plan.create_vault_a,
        CreateAccount {
            payer: b.admin,
            address: b.vault_a,
            space: 165,
            owner: b.token_program,
            proof: DerivationProof {
                seeds: SeedTuple::vault(&b.admin, &b.mint_a, &b.booth),
                bump: b.vault_a_bump,
            },
        }
    );
    assert_eq!(
        plan.initialize_vault_a,
        InitializeAccount {
            program: b.token_program,
            account: b.vault_a,
            mint: b.mint_a,
            owner: b.booth,
        }
    );
    assert_eq!(
        plan.create_vault_b,
        CreateAccount {
            payer: b.admin,
            address: b.vault_b,
            space: 165,
            owner: b.token_program,
            proof: DerivationProof {
                seeds: SeedTuple::vault(&b.admin, &b.mint_b, &b.booth),
                bump: b.vault_b_bump,
            },
        }
    );
    assert_eq!(
        plan.initialize_vault_b,
        InitializeAccount {
            program: b.token_program,
            account: b.vault_b,
            mint: b.mint_b,
            owner: b.booth,
        }
    );
    assert_eq!(
        plan.record,
        ExchangeBoothAccount { admin: b.admin, vault_a: b.vault_a, vault_b: b.vault_b }
    );
    assert_eq!(plan.record.pack(), record(&b));
}

#[test]
fn initialize_checks_the_flags_first() {
    let b = booth();
    let mut accounts = initialize_accounts(&b);
    accounts[1].is_signer = false;
    accounts[0].is_writable = false;
    assert_eq!(
        initialize_exchange_booth::process(&b.program, &accounts),
        Err(failure(XBoothError::AccountIsNotSigner))
    );
    accounts[1].is_signer = true;
    accounts[3].is_writable = false;
    assert_eq!(
        initialize_exchange_booth::process(&b.program, &accounts),
        Err(failure(XBoothError::ExchangeBoothNotWritable))
    );
    accounts[0].is_writable = true;
    accounts[3].key = key(50);
    assert_eq!(
        initialize_exchange_booth::process(&b.program, &accounts),
        Err(failure(XBoothError::AccountIsNotWritable))
    );
    let mut accounts = initialize_accounts(&b);
    accounts[4].is_writable = false;
    assert_eq!(
        initialize_exchange_booth::process(&b.program, &accounts),
        Err(failure(XBoothError::AccountIsNotWritable))
    );
}

#[test]
fn initialize_refuses_an_address_that_is_not_derived() {
    let b = booth();
    let mut accounts = initialize_accounts(&b);
    accounts[3].key = key(50);
    assert_eq!(
        initialize_exchange_booth::process(&b.program, &accounts),
        Err(failure(XBoothError::InvalidVaultAccount))
    );
    let mut accounts = initialize_accounts(&b);
    accounts[4].key = b.vault_a;
    assert_eq!(
        initialize_exchange_booth::process(&b.program, &accounts),
        Err(failure(XBoothError::InvalidVaultAccount))
    );
    // The vaults the wrong way round.
    let mut accounts = initialize_accounts(&b);
    accounts.swap(3, 4);
    assert_eq!(
        initialize_exchange_booth::process(&b.program, &accounts),
        Err(failure(XBoothError::InvalidVaultAccount))
    );
    // Vaults derived for the supplied booth address, which is not itself derived.
    let mut accounts = initialize_accounts(&b);
    let elsewhere = key(60);
    accounts[0].key = elsewhere;
    accounts[3].key = SeedTuple::vault(&b.admin, &b.mint_a, &elsewhere).derive(&b.program).unwrap().0;
    accounts[4].key = SeedTuple::vault(&b.admin, &b.mint_b, &elsewhere).derive(&b.program).unwrap().0;
    assert_eq!(
        initialize_exchange_booth::process(&b.program, &accounts),
        Err(failure(XBoothError::InvalidAccountAddress))
    );
    // Everything derived, but under another program.
    assert_eq!(
        initialize_exchange_booth::process(&key(101), &initialize_accounts(&b)),
        Err(failure(XBoothError::InvalidVaultAccount))
    );
    // Another payer derives other addresses.
    let mut accounts = initialize_accounts(&b);
    accounts[1].key = key(70);
    assert_eq!(
        initialize_exchange_booth::process(&b.program, &accounts),
        Err(failure(XBoothError::InvalidVaultAccount))
    );
}

#[test]
fn initialize_needs_nine_accounts() {
    let b = booth();
    let accounts = initialize_accounts(&b);
    for given in 0..9 {
        assert_eq!(
            initialize_exchange_booth::process(&b.program, &accounts[..given]),
            Err(ProgramError::NotEnoughAccountKeys)
        );
    }
    let mut more = accounts.clone();
    more.push(AccountInfo::new(key(5), false, false, vec![]));
    assert!(initialize_exchange_booth::process(&b.program, &more).is_ok());
}

#[test]
fn initialize_decides_on_its_readings() {
    let b = booth();
    let accounts = initialize_accounts(&b);
    let good = initialize_exchange_booth::Readings {
        vault_a_pda: Ok((b.vault_a, 3)),
        vault_b_pda: Ok((b.vault_b, 4)),
        booth_pda: Ok((b.booth, 5)),
    };
    let plan = initialize_exchange_booth::decide(&b.program, &accounts, &good).unwrap();
    assert_eq!(plan.create_vault_a.proof.bump, 3);
    assert_eq!(plan.create_vault_b.proof.bump, 4);
    assert_eq!(plan.create_booth.proof.bump, 5);
    assert_eq!(plan.create_vault_a.address, b.vault_a);

    let all_bad = initialize_exchange_booth::Readings {
        vault_a_pda: Err(ProgramError::Custom(41)),
        vault_b_pda: Err(ProgramError::Custom(42)),
        booth_pda: Err(ProgramError::Custom(43)),
    };
    assert_eq!(
        initialize_exchange_booth::decide(&b.program, &accounts, &all_bad),
        Err(ProgramError::Custom(41))
    );
    let two_bad = initialize_exchange_booth::Readings { vault_a_pda: good.vault_a_pda, ..all_bad };
    assert_eq!(
        initialize_exchange_booth::decide(&b.program, &accounts, &two_bad),
        Err(ProgramError::Custom(42))
    );
    let one_bad = initialize_exchange_booth::Readings { booth_pda: all_bad.booth_pda, ..good };
    assert_eq!(
        initialize_exchange_booth::decide(&b.program, &accounts, &one_bad),
        Err(ProgramError::Custom(43))
    );
    assert_eq!(
        initialize_exchange_booth::decide(&b.program, &accounts[..8], &good),
        Err(ProgramError::NotEnoughAccountKeys)
    );
    let mut unsigned = accounts.clone();
    unsigned[1].is_signer = false;
    assert_eq!(
        initialize_exchange_booth::decide(&b.program, &unsigned, &all_bad),
        Err(failure(XBoothError::AccountIsNotSigner))
    );
}

// ---------------------------------------------------------------- deposit

#[test]
fn deposit_moves_the_converted_amount_into_the_vault() {
    let b = booth();
    let accounts = deposit_accounts(&b, 100_000_000_000, 0);
    assert_eq!(
        deposit::process(&b.program, &accounts, Decimal::new(50, 0)),
        Ok(TokenTransfer {
            program: b.token_program,
            source: b.token_a,
            destination: b.vault_a,
            authority: b.admin,
            amount: 50_000_000_000,
            authorization: Authorization::Signature,
        })
    );
    // The whole balance can go.
    assert_eq!(
        deposit::process(&b.program, &accounts, Decimal::new(100, 0)).unwrap().amount,
        100_000_000_000
    );
    assert_eq!(deposit::process(&b.program, &accounts, Decimal::new(0, 0)).unwrap().amount, 0);
    assert_eq!(
        deposit::process(&b.program, &accounts, Decimal::new(15, 10)).unwrap().amount,
        1
    );
}

#[test]
fn deposit_of_asset_b_goes_to_vault_b() {
    let b = booth();
    let mut accounts = deposit_accounts(&b, 0, 0);
    accounts[2] = AccountInfo::new(b.token_b, false, true, packed_account(&b.mint_b, &b.admin, 9_000_000));
    accounts[3] = AccountInfo::new(b.vault_b, false, true, packed_account(&b.mint_b, &b.booth, 1));
    // Asset B has six decimal places here.
    assert_eq!(
        deposit::process(&b.program, &accounts, Decimal::new(5, 0)),
        Ok(TokenTransfer {
            program: b.token_program,
            source: b.token_b,
            destination: b.vault_b,
            authority: b.admin,
            amount: 5_000_000,
            authorization: Authorization::Signature,
        })
    );
    // Vault A is not the vault for a deposit of asset B.
    accounts[3] = AccountInfo::new(b.vault_a, false, true, packed_account(&b.mint_b, &b.booth, 1));
    assert_eq!(
        deposit::process(&b.program, &accounts, Decimal::new(5, 0)),
        Err(failure(XBoothError::InvalidVaultAccount))
    );
}

#[test]
fn deposit_fails_on_insufficient_funds() {
    let b = booth();
    let accounts = deposit_accounts(&b, 49_999_999_999, 0);
    assert_eq!(
        deposit::process(&b.program, &accounts, Decimal::new(50, 0)),
        Err(failure(XBoothError::InsufficientFunds))
    );
    assert_eq!(
        deposit::process(&b.program, &accounts, Decimal::new(49_999_999_999, 9))
            .unwrap()
            .amount,
        49_999_999_999
    );
    let empty = deposit_accounts(&b, 0, 500);
    assert_eq!(
        deposit::process(&b.program, &empty, Decimal::new(1, 9)),
        Err(failure(XBoothError::InsufficientFunds))
    );
    // An amount beyond every balance is refused as well.
    let full = deposit_accounts(&b, u64::MAX - 1, 0);
    assert_eq!(
        deposit::process(&b.program, &full, Decimal::new(u64::MAX, 0)),
        Err(failure(XBoothError::InsufficientFunds))
    );
}

#[test]
fn deposit_checks_its_rules_in_order() {
    let b = booth();
    let amount = Decimal::new(50, 0);
    let good = deposit_accounts(&b, 100_000_000_000, 0);
    assert!(deposit::process(&b.program, &good, amount).is_ok());

    // Every rule broken at once: the signature is missed first.
    let mut accounts = good.clone();
    accounts[1].is_signer = false;
    accounts[0].is_writable = false;
    accounts[0].key = key(60);
    assert_eq!(
        deposit::process(&b.program, &accounts, amount),
        Err(failure(XBoothError::AccountIsNotSigner))
    );
    accounts[1].is_signer = true;
    assert_eq!(
        deposit::process(&b.program, &accounts, amount),
        Err(failure(XBoothError::AccountIsNotWritable))
    );
    accounts[0].is_writable = true;
    assert_eq!(
        deposit::process(&b.program, &accounts, amount),
        Err(failure(XBoothError::InvalidAccountAddress))
    );

    for index in [2usize, 3] {
        let mut accounts = good.clone();
        accounts[index].is_writable = false;
        assert_eq!(
            deposit::process(&b.program, &accounts, amount),
            Err(failure(XBoothError::AccountIsNotWritable))
        );
    }

    let mut accounts = good.clone();
    accounts[2].data = vec![1, 2, 3];
    accounts[3].key = key(61);
    assert_eq!(
        deposit::process(&b.program, &accounts, amount),
        Err(failure(XBoothError::InvalidSPLTokenAccount))
    );

    let mut accounts = good.clone();
    accounts[3].key = key(61);
    accounts[3].data = vec![];
    assert_eq!(
        deposit::process(&b.program, &accounts, amount),
        Err(failure(XBoothError::InvalidVaultAccount))
    );

    let mut accounts = good.clone();
    accounts[3].data = vec![0u8; 164];
    assert_eq!(
        deposit::process(&b.program, &accounts, amount),
        Err(failure(XBoothError::InvalidSPLTokenAccount))
    );
    accounts[3].data = vec![0u8; 165];
    assert_eq!(
        deposit::process(&b.program, &accounts, amount),
        Err(failure(XBoothError::AccountNotInitialized))
    );

    // A vault at the right address that holds the other asset.
    let mut accounts = good.clone();
    accounts[3].data = packed_account(&b.mint_b, &b.booth, 0);
    accounts[0].data = vec![];
    assert_eq!(
        deposit::process(&b.program, &accounts, amount),
        Err(failure(XBoothError::InvalidMint))
    );

    let mut accounts = good.clone();
    accounts[0].data = vec![];
    accounts[4].data = vec![];
    assert_eq!(
        deposit::process(&b.program, &accounts, amount),
        Err(failure(XBoothError::AccountNotInitialized))
    );
    accounts[0].data =
        ExchangeBoothAccount { admin: key(9), vault_a: b.vault_a, vault_b: b.vault_b }.pack();
    assert_eq!(
        deposit::process(&b.program, &accounts, amount),
        Err(failure(XBoothError::InvalidOwner))
    );

    let mut accounts = deposit_accounts(&b, 0, 0);
    accounts[4].data = vec![0u8; 81];
    assert_eq!(
        deposit::process(&b.program, &accounts, amount),
        Err(failure(XBoothError::InvalidMint))
    );
    accounts[4].data = packed_mint(9);
    assert_eq!(
        deposit::process(&b.program, &accounts, amount),
        Err(failure(XBoothError::InsufficientFunds))
    );
}

#[test]
fn deposit_by_another_signer_is_refused() {
    let b = booth();
    let mut accounts = deposit_accounts(&b, 100_000_000_000, 0);
    // Someone else signs: the booth and vault are not derived for them.
    accounts[1].key = key(70);
    assert_eq!(
        deposit::process(&b.program, &accounts, Decimal::new(1, 0)),
        Err(failure(XBoothError::InvalidAccountAddress))
    );
    // Someone else's booth and vault, with the administrator's record in it.
    let (their_booth, _) =
        SeedTuple::booth(&key(70), &b.mint_a, &b.mint_b).derive(&b.program).unwrap();
    let (their_vault, _) =
        SeedTuple::vault(&key(70), &b.mint_a, &their_booth).derive(&b.program).unwrap();
    accounts[0].key = their_booth;
    accounts[3].key = their_vault;
    assert_eq!(
        deposit::process(&b.program, &accounts, Decimal::new(1, 0)),
        Err(failure(XBoothError::InvalidOwner))
    );
}

#[test]
fn deposit_needs_seven_accounts() {
    let b = booth();
    let accounts = deposit_accounts(&b, 100, 0);
    for given in 0..7 {
        assert_eq!(
            deposit::process(&b.program, &accounts[..given], Decimal::new(1, 9)),
            Err(ProgramError::NotEnoughAccountKeys)
        );
    }
    assert!(deposit::process(&b.program, &accounts, Decimal::new(1, 9)).is_ok());
}

#[test]
fn deposit_decides_on_its_readings() {
    let b = booth();
    let accounts = deposit_accounts(&b, 0, 0);
    let held = TokenAccount { mint: b.mint_a, owner: b.admin, amount: 10, state: AccountState::Initialized };
    let stored = TokenAccount { mint: b.mint_a, owner: b.booth, amount: 0, state: AccountState::Initialized };
    let good = deposit::Readings {
        booth_pda: Ok((b.booth, 1)),
        vault_a_pda: Ok((b.vault_a, 2)),
        vault_b_pda: Err(ProgramError::Custom(52)),
        token_account: Some(held),
        vault: Ok(stored),
        lamports_a: Ok(10),
        lamports_b: Ok(1_000),
    };
    let transfer = deposit::decide(&accounts, &good).unwrap();
    assert_eq!(transfer.amount, 10);
    assert_eq!(transfer.source, b.token_a);
    assert_eq!(transfer.destination, b.vault_a);

    let short = deposit::Readings { lamports_a: Ok(11), ..good };
    assert_eq!(deposit::decide(&accounts, &short), Err(failure(XBoothError::InsufficientFunds)));

    // A token account of any other asset is taken as one of asset B.
    let other = TokenAccount { mint: key(44), ..held };
    let as_b = deposit::Readings { token_account: Some(other), ..good };
    assert_eq!(deposit::decide(&accounts, &as_b), Err(ProgramError::Custom(52)));
    let as_b = deposit::Readings {
        token_account: Some(TokenAccount { amount: 1_000, ..other }),
        vault_b_pda: Ok((b.vault_a, 2)),
        vault: Ok(TokenAccount { mint: key(44), ..stored }),
        ..good
    };
    assert_eq!(deposit::decide(&accounts, &as_b).unwrap().amount, 1_000);

    let undecoded = deposit::Readings { token_account: None, ..good };
    assert_eq!(
        deposit::decide(&accounts, &undecoded),
        Err(failure(XBoothError::InvalidSPLTokenAccount))
    );
    let no_vault = deposit::Readings { vault: Err(XBoothError::AccountNotInitialized), ..good };
    assert_eq!(
        deposit::decide(&accounts, &no_vault),
        Err(failure(XBoothError::AccountNotInitialized))
    );
    let no_booth = deposit::Readings { booth_pda: Err(ProgramError::Custom(50)), ..undecoded };
    assert_eq!(deposit::decide(&accounts, &no_booth), Err(ProgramError::Custom(50)));
    let no_rate = deposit::Readings { lamports_a: Err(ProgramError::Custom(53)), ..good };
    assert_eq!(deposit::decide(&accounts, &no_rate), Err(ProgramError::Custom(53)));
    assert_eq!(deposit::decide(&accounts[..6], &good), Err(ProgramError::NotEnoughAccountKeys));
}

// --------------------------------------------------------------- withdraw

#[test]
fn withdraw_moves_the_converted_amount_out_of_the_vault() {
    let b = booth();
    let accounts = withdraw_accounts(&b, 0, 50_000_000_000);
    assert_eq!(
        withdraw::process(&b.program, &accounts, Decimal::new(3, 0)),
        Ok(TokenTransfer {
            program: b.token_program,
            source: b.vault_a,
            destination: b.token_a,
            authority: b.booth,
            amount: 3_000_000_000,
            authorization: Authorization::Derivation(booth_proof(&b)),
        })
    );
    assert_eq!(
        withdraw::process(&b.program, &accounts, Decimal::new(50, 0)).unwrap().amount,
        50_000_000_000
    );
}

#[test]
fn withdraw_is_authorised_by_the_derivation_of_the_booth() {
    let b = booth();
    let accounts = withdraw_accounts(&b, 0, 50_000_000_000);
    let transfer = withdraw::process(&b.program, &accounts, Decimal::new(3, 0)).unwrap();
    let proof = match transfer.authorization {
        Authorization::Derivation(proof) => proof,
        Authorization::Signature => panic!("a vault has no key to sign with"),
    };
    let seeds = proof.signer_seeds();
    let slices: Vec<&[u8]> = seeds.iter().map(|seed| seed.as_slice()).collect();
    let signed_for =
        solana_program::pubkey::Pubkey::create_program_address(&slices, &outside(&b.program))
            .unwrap();
    assert_eq!(signed_for.to_bytes(), transfer.authority.to_bytes());
    // The vault's owner, as the token service stores it, is that address.
    assert_eq!(TokenAccount::unpack(&accounts[3].data).unwrap().owner, transfer.authority);
}

#[test]
fn withdraw_fails_on_insufficient_funds() {
    let b = booth();
    let accounts = withdraw_accounts(&b, 0, 2_999_999_999);
    assert_eq!(
        withdraw::process(&b.program, &accounts, Decimal::new(3, 0)),
        Err(failure(XBoothError::InsufficientFunds))
    );
    assert_eq!(
        withdraw::process(&b.program, &accounts, Decimal::new(2_999_999_999, 9)).unwrap().amount,
        2_999_999_999
    );
    let empty = withdraw_accounts(&b, 1_000, 0);
    assert_eq!(
        withdraw::process(&b.program, &empty, Decimal::new(1, 9)),
        Err(failure(XBoothError::InsufficientFunds))
    );
    assert_eq!(withdraw::process(&b.program, &empty, Decimal::new(0, 0)).unwrap().amount, 0);
}

#[test]
fn withdraw_checks_its_rules_in_order() {
    let b = booth();
    let amount = Decimal::new(3, 0);
    let good = withdraw_accounts(&b, 0, 50_000_000_000);
    assert!(withdraw::process(&b.program, &good, amount).is_ok());

    for index in [1usize, 2] {
        let mut accounts = good.clone();
        accounts[index].is_signer = false;
        accounts[3].is_writable = false;
        assert_eq!(
            withdraw::process(&b.program, &accounts, amount),
            Err(failure(XBoothError::AccountIsNotSigner))
        );
    }
    for index in [0usize, 2, 3] {
        let mut accounts = good.clone();
        accounts[index].is_writable = false;
        accounts[0].key = key(60);
        assert_eq!(
            withdraw::process(&b.program, &accounts, amount),
            Err(failure(XBoothError::AccountIsNotWritable))
        );
    }
    let mut accounts = good.clone();
    accounts[0].key = key(60);
    assert_eq!(
        withdraw::process(&b.program, &accounts, amount),
        Err(failure(XBoothError::InvalidAccountAddress))
    );
    let mut accounts = good.clone();
    accounts[3].key = b.vault_b;
    accounts[3].data = vec![];
    assert_eq!(
        withdraw::process(&b.program, &accounts, amount),
        Err(failure(XBoothError::InvalidVaultAccount))
    );
    let mut accounts = good.clone();
    accounts[3].data = vec![9u8; 165];
    accounts[0].data = vec![];
    assert_eq!(
        withdraw::process(&b.program, &accounts, amount),
        Err(failure(XBoothError::InvalidSPLTokenAccount))
    );
    accounts[3].data = vec![0u8; 165];
    assert_eq!(
        withdraw::process(&b.program, &accounts, amount),
        Err(failure(XBoothError::AccountNotInitialized))
    );
    let mut accounts = good.clone();
    accounts[0].data = vec![0u8; 95];
    accounts[4].data = vec![];
    assert_eq!(
        withdraw::process(&b.program, &accounts, amount),
        Err(failure(XBoothError::AccountNotInitialized))
    );
    accounts[0].data =
        ExchangeBoothAccount { admin: b.booth, vault_a: b.vault_a, vault_b: b.vault_b }.pack();
    assert_eq!(
        withdraw::process(&b.program, &accounts, amount),
        Err(failure(XBoothError::InvalidOwner))
    );
    let mut accounts = withdraw_accounts(&b, 0, 0);
    accounts[4].data = vec![];
    assert_eq!(
        withdraw::process(&b.program, &accounts, amount),
        Err(failure(XBoothError::InvalidMint))
    );
    for given in 0..7 {
        assert_eq!(
            withdraw::process(&b.program, &good[..given], amount),
            Err(ProgramError::NotEnoughAccountKeys)
        );
    }
}

#[test]
fn withdraw_decides_on_its_readings() {
    let b = booth();
    let accounts = withdraw_accounts(&b, 0, 0);
    let stored = TokenAccount { mint: b.mint_a, owner: b.booth, amount: 20, state: AccountState::Initialized };
    let good = withdraw::Readings {
        booth_pda: Ok((b.booth, 7)),
        vault_pda: Ok((b.vault_a, 8)),
        vault: Ok(stored),
        lamports: Ok(20),
    };
    assert_eq!(
        withdraw::decide(&accounts, &good),
        Ok(TokenTransfer {
            program: b.token_program,
            source: b.vault_a,
            destination: b.token_a,
            authority: b.booth,
            amount: 20,
            authorization: Authorization::Derivation(DerivationProof {
                seeds: SeedTuple::booth(&b.admin, &b.mint_a, &b.mint_b),
                bump: 7,
            }),
        })
    );
    let short = withdraw::Readings { lamports: Ok(21), ..good };
    assert_eq!(withdraw::decide(&accounts, &short), Err(failure(XBoothError::InsufficientFunds)));
    let bad = withdraw::Readings {
        booth_pda: Err(ProgramError::Custom(60)),
        vault_pda: Err(ProgramError::Custom(61)),
        vault: Err(XBoothError::InvalidSPLTokenAccount),
        lamports: Err(ProgramError::Custom(63)),
    };
    assert_eq!(withdraw::decide(&accounts, &bad), Err(ProgramError::Custom(60)));
    let bad = withdraw::Readings { booth_pda: good.booth_pda, ..bad };
    assert_eq!(withdraw::decide(&accounts, &bad), Err(ProgramError::Custom(61)));
    let bad = withdraw::Readings { vault_pda: good.vault_pda, ..bad };
    assert_eq!(withdraw::decide(&accounts, &bad), Err(failure(XBoothError::InvalidSPLTokenAccount)));
    let bad = withdraw::Readings { vault: good.vault, ..bad };
    assert_eq!(withdraw::decide(&accounts, &bad), Err(ProgramError::Custom(63)));
    assert_eq!(withdraw::decide(&accounts[..6], &good), Err(ProgramError::NotEnoughAccountKeys));
}

// --------------------------------------------------------------- exchange

#[test]
fn exchange_pays_in_asset_a_and_out_asset_b() {
    let b = booth();
    let accounts = exchange_accounts(&b);
    // Asset A has nine decimal places here, asset B six.
    assert_eq!(
        exchange::process(&b.program, &accounts, Decimal::new(10, 0), Decimal::new(5, 1)),
        Ok(exchange::Settlement {
            pay_in: TokenTransfer {
                program: b.token_program,
                source: b.token_a,
                destination: b.vault_a,
                authority: b.admin,
                amount: 10_000_000_000,
                authorization: Authorization::Signature,
            },
            pay_out: TokenTransfer {
                program: b.token_program,
                source: b.vault_b,
                destination: b.token_b,
                authority: b.booth,
                amount: 5_000_000,
                authorization: Authorization::Derivation(booth_proof(&b)),
            },
        })
    );
    let doubled =
        exchange::process(&b.program, &accounts, Decimal::new(25, 1), Decimal::new(2, 0)).unwrap();
    assert_eq!(doubled.pay_in.amount, 2_500_000_000);
    assert_eq!(doubled.pay_out.amount, 5_000_000);
}

#[test]
fn exchange_refuses_two_accounts_of_one_asset() {
    let b = booth();
    // Asset A on both sides, named as asset A and as asset B.
    let mut accounts = exchange_accounts(&b);
    accounts[2].data = packed_account(&b.mint_a, &b.admin, 7);
    accounts[7].key = b.mint_a;
    let (booth, _) = SeedTuple::booth(&b.admin, &b.mint_a, &b.mint_a).derive(&b.program).unwrap();
    accounts[0].key = booth;
    assert_eq!(
        exchange::process(&b.program, &accounts, Decimal::new(10, 0), token_a_b_xr()),
        Err(failure(XBoothError::UniqueMintAccounts))
    );
    // Asset A on both sides while asset B is named: the receiving account
    // does not hold the asset it is paired with.
    let mut accounts = exchange_accounts(&b);
    accounts[2].data = packed_account(&b.mint_a, &b.admin, 7);
    assert_eq!(
        exchange::process(&b.program, &accounts, Decimal::new(10, 0), token_a_b_xr()),
        Err(failure(XBoothError::InvalidMint))
    );
    let mut accounts = exchange_accounts(&b);
    accounts[3].data = packed_account(&b.mint_b, &b.admin, 7);
    assert_eq!(
        exchange::process(&b.program, &accounts, Decimal::new(10, 0), token_a_b_xr()),
        Err(failure(XBoothError::InvalidMint))
    );
}

#[test]
fn exchange_checks_its_rules_in_order() {
    let b = booth();
    let amount = Decimal::new(10, 0);
    let rate = token_a_b_xr();
    let good = exchange_accounts(&b);
    assert!(exchange::process(&b.program, &good, amount, rate).is_ok());

    let mut accounts = good.clone();
    accounts[1].is_signer = false;
    accounts[2].is_writable = false;
    assert_eq!(
        exchange::process(&b.program, &accounts, amount, rate),
        Err(failure(XBoothError::AccountIsNotSigner))
    );
    for index in [2usize, 3, 4, 5] {
        let mut accounts = good.clone();
        accounts[index].is_writable = false;
        accounts[0].key = key(60);
        assert_eq!(
            exchange::process(&b.program, &accounts, amount, rate),
            Err(failure(XBoothError::AccountIsNotWritable))
        );
    }
    let mut accounts = good.clone();
    accounts[0].key = key(60);
    accounts[2].data = vec![];
    assert_eq!(
        exchange::process(&b.program, &accounts, amount, rate),
        Err(failure(XBoothError::InvalidAccountAddress))
    );
    let mut accounts = good.clone();
    accounts[2].data = vec![];
    accounts[3].data = vec![0u8; 165];
    assert_eq!(
        exchange::process(&b.program, &accounts, amount, rate),
        Err(failure(XBoothError::InvalidSPLTokenAccount))
    );
    accounts[2].data = good[2].data.clone();
    assert_eq!(
        exchange::process(&b.program, &accounts, amount, rate),
        Err(failure(XBoothError::AccountNotInitialized))
    );
    let mut accounts = good.clone();
    accounts[2].data = vec![0u8; 165];
    assert_eq!(
        exchange::process(&b.program, &accounts, amount, rate),
        Err(failure(XBoothError::AccountNotInitialized))
    );
    let mut accounts = good.clone();
    accounts[6].data = vec![];
    assert_eq!(
        exchange::process(&b.program, &accounts, amount, rate),
        Err(failure(XBoothError::InvalidMint))
    );
    let mut accounts = good.clone();
    accounts[7].data = vec![];
    assert_eq!(
        exchange::process(&b.program, &accounts, amount, rate),
        Err(failure(XBoothError::InvalidMint))
    );
    for given in 0..9 {
        assert_eq!(
            exchange::process(&b.program, &good[..given], amount, rate),
            Err(ProgramError::NotEnoughAccountKeys)
        );
    }
}

#[test]
fn exchange_decides_on_its_readings() {
    let b = booth();
    let accounts = exchange_accounts(&b);
    let receiving = TokenAccount { mint: b.mint_b, owner: b.admin, amount: 0, state: AccountState::Initialized };
    let paying = TokenAccount { mint: b.mint_a, owner: b.admin, amount: 0, state: AccountState::Initialized };
    let good = exchange::Readings {
        booth_pda: Ok((b.booth, 9)),
        receiving: Ok(receiving),
        paying: Ok(paying),
        lamports_a: Ok(100),
        lamports_b: Ok(50),
    };
    let settlement = exchange::decide(&accounts, &good).unwrap();
    assert_eq!(settlement.pay_in.amount, 100);
    assert_eq!(settlement.pay_out.amount, 50);
    assert_eq!(
        settlement.pay_out.authorization,
        Authorization::Derivation(DerivationProof {
            seeds: SeedTuple::booth(&b.admin, &b.mint_a, &b.mint_b),
            bump: 9,
        })
    );
    let bad = exchange::Readings {
        booth_pda: Err(ProgramError::Custom(70)),
        receiving: Err(XBoothError::InvalidSPLTokenAccount),
        paying: Err(XBoothError::AccountNotInitialized),
        lamports_a: Err(ProgramError::Custom(73)),
        lamports_b: Err(ProgramError::Custom(74)),
    };
    assert_eq!(exchange::decide(&accounts, &bad), Err(ProgramError::Custom(70)));
    let bad = exchange::Readings { booth_pda: good.booth_pda, ..bad };
    assert_eq!(exchange::decide(&accounts, &bad), Err(failure(XBoothError::InvalidSPLTokenAccount)));
    let bad = exchange::Readings { receiving: good.receiving, ..bad };
    assert_eq!(exchange::decide(&accounts, &bad), Err(failure(XBoothError::AccountNotInitialized)));
    let bad = exchange::Readings { paying: good.paying, ..bad };
    assert_eq!(exchange::decide(&accounts, &bad), Err(ProgramError::Custom(73)));
    let bad = exchange::Readings { lamports_a: good.lamports_a, ..bad };
    assert_eq!(exchange::decide(&accounts, &bad), Err(ProgramError::Custom(74)));
    let wrong = exchange::Readings { paying: Ok(TokenAccount { mint: key(44), ..paying }), ..good };
    assert_eq!(exchange::decide(&accounts, &wrong), Err(failure(XBoothError::InvalidMint)));
    let wrong = exchange::Readings { receiving: Ok(TokenAccount { mint: key(44), ..receiving }), ..good };
    assert_eq!(exchange::decide(&accounts, &wrong), Err(failure(XBoothError::InvalidMint)));
    assert_eq!(exchange::decide(&accounts[..8], &good), Err(ProgramError::NotEnoughAccountKeys));
}

// --------------------------------------------------------------- dispatch

#[test]
fn an_instruction_is_routed_to_its_operation() {
    let b = booth();
    let initialized = Processor::process_instruction(
        &b.program,
        &initialize_accounts(&b),
        &XBoothIntruction::InitializeExhangeBooth {},
    );
    assert_eq!(
        initialized,
        Ok(Outcome::Initialized(
            initialize_exchange_booth::process(&b.program, &initialize_accounts(&b)).unwrap()
        ))
    );
    let amount = Decimal::new(2, 0);
    let accounts = deposit_accounts(&b, 5_000_000_000, 0);
    assert_eq!(
        Processor::process_instruction(&b.program, &accounts, &XBoothIntruction::Deposit { amount }),
        Ok(Outcome::Deposited(deposit::process(&b.program, &accounts, amount).unwrap()))
    );
    let accounts = withdraw_accounts(&b, 0, 5_000_000_000);
    assert_eq!(
        Processor::process_instruction(&b.program, &accounts, &XBoothIntruction::Withdraw { amount }),
        Ok(Outcome::Withdrawn(withdraw::process(&b.program, &accounts, amount).unwrap()))
    );
    let accounts = exchange_accounts(&b);
    let exchanged =
        Processor::process_instruction(&b.program, &accounts, &XBoothIntruction::Exchange { amount });
    assert_eq!(
        exchanged,
        Ok(Outcome::Exchanged(
            exchange::process(&b.program, &accounts, amount, Decimal::new(5, 1)).unwrap()
        ))
    );
    match exchanged {
        Ok(Outcome::Exchanged(settlement)) => {
            assert_eq!(settlement.pay_in.amount, 2_000_000_000);
            assert_eq!(settlement.pay_out.amount, 1_000_000);
        }
        other => panic!("not an exchange: {:?}", other),
    }
}

#[test]
fn a_failure_passes_through_the_dispatch() {
    let b = booth();
    let amount = Decimal::new(2, 0);
    assert_eq!(
        Processor::process_instruction(&b.program, &[], &XBoothIntruction::InitializeExhangeBooth {}),
        Err(ProgramError::NotEnoughAccountKeys)
    );
    assert_eq!(
        Processor::process_instruction(
            &b.program,
            &deposit_accounts(&b, 0, 0),
            &XBoothIntruction::Deposit { amount }
        ),
        Err(failure(XBoothError::InsufficientFunds))
    );
    assert_eq!(
        Processor::process_instruction(
            &b.program,
            &deposit_accounts(&b, 0, 0),
            &XBoothIntruction::Withdraw { amount }
        ),
        Err(failure(XBoothError::AccountIsNotSigner))
    );
    assert_eq!(
        Processor::process_instruction(
            &b.program,
            &deposit_accounts(&b, 0, 0),
            &XBoothIntruction::Exchange { amount }
        ),
        Err(ProgramError::NotEnoughAccountKeys)
    );
}

#[test]
fn the_rate_is_one_half() {
    assert_eq!(token_a_b_xr(), Decimal::new(5, 1));
    assert_eq!(Decimal::new(10, 0).to_base_units_at(&token_a_b_xr(), 9), 5_000_000_000);
}

#[test]
fn instructions_are_tagged_by_position() {
    let amount = Decimal::new(1, 0);
    assert_eq!(XBoothIntruction::InitializeExhangeBooth {}.tag(), 0);
    assert_eq!(XBoothIntruction::Deposit { amount }.tag(), 1);
    assert_eq!(XBoothIntruction::Withdraw { amount }.tag(), 2);
    assert_eq!(XBoothIntruction::Exchange { amount }.tag(), 3);
}
