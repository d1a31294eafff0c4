use anchor_lang::solana_program::hash::hash;
use anchor_lang::solana_program::program_option::COption;
use anchor_lang::solana_program::program_pack::Pack;
use anchor_lang::solana_program::pubkey::Pubkey as Address;
use anchor_lang::solana_program::{system_program, sysvar};
use anchor_lang::AnchorSerialize;
use mpl_token_metadata::instruction::{
    create_master_edition_v3, create_metadata_accounts_v2, update_metadata_accounts,
};
use pmv::account::{Account, AccountInfo, Context};
use pmv::admin::{
    create_collection_nft, initialize_candy_machine, initialize_config, update_authority,
    withdraw_funds,
};
use pmv::context::{
    CreateCollectionNFT, InitializeCandyMachine, InitializeConfig, UpdateCandyMachine,
    WithdrawFunds,
};
use pmv::error::{ErrorCode, ProgramError};
use pmv::pubkey::Pubkey;
use pmv::state::{CandyMachine, CandyMachineData, Config, ConfigData, CONFIG_ARRAY_START};
use std::str::FromStr;

fn program() -> Address {
    Address::from_str("GoM4aT4mj3E5WZSA7SUBc3UPamxQLCnFXggNtBUw791K").unwrap()
}

fn own_key(address: Address) -> Pubkey {
    Pubkey { bytes: address.to_bytes() }
}

fn outside_key(key: Pubkey) -> Address {
    Address::new_from_array(key.bytes)
}

fn k(n: u8) -> Pubkey {
    Pubkey { bytes: [n; 32] }
}

fn account(key: Pubkey, is_signer: bool, is_writable: bool) -> AccountInfo {
    AccountInfo {
        key,
        is_signer,
        is_writable,
        lamports: 1,
        owner: own_key(system_program::id()),
        data: Vec::new(),
    }
}

fn discriminator() -> [u8; 8] {
    let mut tag = [0u8; 8];
    tag.copy_from_slice(&hash(b"account:Config").to_bytes()[..8]);
    tag
}

fn config_data(uuid: &str, symbol: &str, uri: &str) -> ConfigData {
    ConfigData {
        uuid: uuid.to_string(),
        symbol: symbol.to_string(),
        is_mutable: true,
        retain_authority: false,
        uri: uri.to_string(),
    }
}

fn config_context(size: usize) -> Context<InitializeConfig> {
    Context {
        program_id: own_key(program()),
        accounts: InitializeConfig {
            config: AccountInfo {
                owner: own_key(program()),
                data: vec![0xEE; size],
                ..account(k(1), false, true)
            },
            authority: account(k(2), false, false),
            payer: account(k(3), true, true),
            rent: account(own_key(sysvar::rent::id()), false, false),
        },
        remaining_accounts: Vec::new(),
    }
}

#[test]
fn config_head_is_written_as_the_ledger_encodes_it() {
    let mut ctx = config_context(400);
    let data = config_data("abcdef", "PMV", "https://example.org/");
    initialize_config(&mut ctx, data, discriminator()).unwrap();

    let mut expected = discriminator().to_vec();
    expected.extend(
        (
            k(2).bytes,
            "abcdef".to_string(),
            "PMV\0\0\0\0\0\0\0".to_string(),
            true,
            false,
            "https://example.org/".to_string(),
        )
            .try_to_vec()
            .unwrap(),
    );
    assert_eq!(expected.len(), 8 + 32 + 4 + 6 + 4 + 10 + 1 + 1 + 4 + 20);
    assert_eq!(&ctx.accounts.config.data[..expected.len()], &expected[..]);
}

#[test]
fn config_head_leaves_the_lines_untouched() {
    let mut ctx = config_context(400);
    initialize_config(&mut ctx, config_data("abcdef", "PMV", "u"), discriminator()).unwrap();
    let head = 8 + 32 + 4 + 6 + 4 + 10 + 1 + 1 + 4 + 1;
    assert_eq!(ctx.accounts.config.data.len(), 400);
    assert!(ctx.accounts.config.data[head..].iter().all(|b| *b == 0xEE));
    assert_eq!(ctx.accounts.config.data[head - 1], b'u');
}

#[test]
fn config_head_may_fill_the_account_to_the_last_byte() {
    let uri = "x".repeat(CONFIG_ARRAY_START + 8 - 70);
    let mut ctx = config_context(CONFIG_ARRAY_START + 8);
    initialize_config(&mut ctx, config_data("abcdef", "", &uri), discriminator()).unwrap();
    assert_eq!(*ctx.accounts.config.data.last().unwrap(), b'x');
}

#[test]
fn config_with_a_short_uuid_is_refused() {
    let mut ctx = config_context(400);
    let res = initialize_config(&mut ctx, config_data("abcde", "PMV", "u"), discriminator());
    assert_eq!(res.unwrap_err(), ProgramError::Custom(ErrorCode::UuidMustBeExactly6Length));
    assert!(ctx.accounts.config.data.iter().all(|b| *b == 0xEE));
}

#[test]
fn config_with_a_long_uuid_is_refused() {
    let mut ctx = config_context(400);
    let res = initialize_config(&mut ctx, config_data("abcdefg", "PMV", "u"), discriminator());
    assert_eq!(res.unwrap_err(), ProgramError::Custom(ErrorCode::UuidMustBeExactly6Length));
}

#[test]
fn config_uuid_is_counted_in_bytes() {
    let mut ctx = config_context(400);
    assert!(initialize_config(&mut ctx, config_data("ééé", "PMV", "u"), discriminator()).is_ok());
    let mut ctx = config_context(400);
    let res = initialize_config(&mut ctx, config_data("éééééé", "PMV", "u"), discriminator());
    assert_eq!(res.unwrap_err(), ProgramError::Custom(ErrorCode::UuidMustBeExactly6Length));
}

#[test]
fn config_in_an_account_of_another_program_is_refused() {
    let mut ctx = config_context(400);
    ctx.accounts.config.owner = k(9);
    let res = initialize_config(&mut ctx, config_data("abcdef", "PMV", "u"), discriminator());
    assert_eq!(res.unwrap_err(), ProgramError::ConstraintViolated);
}

#[test]
fn config_in_an_account_without_room_is_refused() {
    let mut ctx = config_context(CONFIG_ARRAY_START + 7);
    let res = initialize_config(&mut ctx, config_data("abcdef", "PMV", "u"), discriminator());
    assert_eq!(res.unwrap_err(), ProgramError::ConstraintViolated);
}

#[test]
fn config_under_an_authority_that_is_no_purse_is_refused() {
    let mut ctx = config_context(400);
    ctx.accounts.authority.lamports = 0;
    let res = initialize_config(&mut ctx, config_data("abcdef", "PMV", "u"), discriminator());
    assert_eq!(res.unwrap_err(), ProgramError::ConstraintViolated);
}

#[test]
fn lines_begin_behind_the_head() {
    assert_eq!(CONFIG_ARRAY_START, 247);
    assert_eq!(
        CONFIG_ARRAY_START,
        32 + 4 + 6 + 4 + mpl_token_metadata::state::MAX_SYMBOL_LENGTH + 2 + 1 + 4
            + mpl_token_metadata::state::MAX_CREATOR_LIMIT * mpl_token_metadata::state::MAX_CREATOR_LEN
            + 8 + 1 + 1 + 4
    );
    assert_eq!(pmv::state::MAX_CREATOR_LIMIT, mpl_token_metadata::state::MAX_CREATOR_LIMIT);
    assert_eq!(pmv::state::MAX_CREATOR_LEN, mpl_token_metadata::state::MAX_CREATOR_LEN);
}

fn mint_bytes(initialized: bool) -> Vec<u8> {
    let mint = spl_token::state::Mint {
        mint_authority: COption::None,
        supply: 0,
        decimals: 0,
        is_initialized: initialized,
        freeze_authority: COption::None,
    };
    let mut data = vec![0u8; spl_token::state::Mint::LEN];
    spl_token::state::Mint::pack_into_slice(&mint, &mut data);
    data
}

fn wallet_bytes(mint: Pubkey, initialized: bool) -> Vec<u8> {
    let account = spl_token::state::Account {
        mint: outside_key(mint),
        owner: outside_key(k(90)),
        amount: 0,
        delegate: COption::None,
        state: if initialized {
            spl_token::state::AccountState::Initialized
        } else {
            spl_token::state::AccountState::Uninitialized
        },
        is_native: COption::None,
        delegated_amount: 0,
        close_authority: COption::None,
    };
    let mut data = vec![0u8; spl_token::state::Account::LEN];
    spl_token::state::Account::pack_into_slice(&account, &mut data);
    data
}

fn machine_context(uuid: &str) -> (Context<InitializeCandyMachine>, u8) {
    let config_key = k(1);
    let (machine, bump) = Address::find_program_address(
        &[b"candy_machine", &config_key.bytes, uuid.as_bytes()],
        &program(),
    );
    let authority = k(2);
    let ctx = Context {
        program_id: own_key(program()),
        accounts: InitializeCandyMachine {
            candy_machine: Account { key: own_key(machine), lamports: 0, state: None },
            wallet: account(k(3), false, false),
            config: Account {
                key: config_key,
                lamports: 5,
                state: Config { authority, data: config_data("abcdef", "PMV", "u") },
            },
            authority: account(authority, true, false),
            payer: account(k(4), true, true),
            system_program: account(own_key(system_program::id()), false, false),
            rent: account(own_key(sysvar::rent::id()), false, false),
        },
        remaining_accounts: Vec::new(),
    };
    (ctx, bump)
}

fn token_machine_context(held_mint: Pubkey) -> (Context<InitializeCandyMachine>, u8) {
    let (mut ctx, bump) = machine_context("abcdef");
    ctx.accounts.wallet.owner = own_key(spl_token::id());
    ctx.accounts.wallet.data = wallet_bytes(held_mint, true);
    ctx.remaining_accounts = vec![AccountInfo {
        owner: own_key(spl_token::id()),
        data: mint_bytes(true),
        ..account(k(30), false, false)
    }];
    (ctx, bump)
}

fn machine_data(uuid: &str, price: u64) -> CandyMachineData {
    CandyMachineData { uuid: uuid.to_string(), price }
}

#[test]
fn candy_machine_is_created_for_the_native_currency() {
    let (mut ctx, bump) = machine_context("abcdef");
    initialize_candy_machine(&mut ctx, bump, machine_data("abcdef", 77)).unwrap();
    let made: &CandyMachine = ctx.accounts.candy_machine.state.as_ref().unwrap();
    assert_eq!(made.authority, k(2));
    assert_eq!(made.wallet, k(3));
    assert_eq!(made.config, k(1));
    assert_eq!(made.token_mint, None);
    assert_eq!(made.collection, None);
    assert_eq!(made.data.uuid, "abcdef");
    assert_eq!(made.data.price, 77);
    assert_eq!(made.items_redeemed, 0);
    assert_eq!(made.bump, bump);
}

#[test]
fn candy_machine_with_a_wrong_uuid_is_refused_whatever_the_price() {
    for price in [0u64, 1, 77, u64::MAX] {
        for uuid in ["", "a", "abcde", "abcdefg", "abcdefghijkl"] {
            let (mut ctx, bump) = machine_context(uuid);
            let res = initialize_candy_machine(&mut ctx, bump, machine_data(uuid, price));
            assert_eq!(
                res.unwrap_err(),
                ProgramError::Custom(ErrorCode::UuidMustBeExactly6Length)
            );
            assert!(ctx.accounts.candy_machine.state.is_none());
        }
        let (mut ctx, bump) = machine_context("uvwxyz");
        assert!(initialize_candy_machine(&mut ctx, bump, machine_data("uvwxyz", price)).is_ok());
    }
}

#[test]
fn candy_machine_at_a_taken_address_is_refused() {
    let (mut ctx, bump) = machine_context("abcdef");
    initialize_candy_machine(&mut ctx, bump, machine_data("abcdef", 77)).unwrap();
    let res = initialize_candy_machine(&mut ctx, bump, machine_data("abcdef", 78));
    assert_eq!(res.unwrap_err(), ProgramError::AccountAlreadyInUse);
    assert_eq!(ctx.accounts.candy_machine.state.as_ref().unwrap().data.price, 77);
}

#[test]
fn candy_machine_at_an_address_not_derived_is_refused() {
    let (mut ctx, bump) = machine_context("abcdef");
    let res = initialize_candy_machine(&mut ctx, bump, machine_data("abcdeg", 77));
    assert_eq!(res.unwrap_err(), ProgramError::ConstraintViolated);
}

#[test]
fn candy_machine_under_a_foreign_authority_is_refused() {
    let (mut ctx, bump) = machine_context("abcdef");
    ctx.accounts.authority.key = k(9);
    let res = initialize_candy_machine(&mut ctx, bump, machine_data("abcdef", 77));
    assert_eq!(res.unwrap_err(), ProgramError::ConstraintViolated);
}

#[test]
fn candy_machine_without_the_authoritys_signature_is_refused() {
    let (mut ctx, bump) = machine_context("abcdef");
    ctx.accounts.authority.is_signer = false;
    let res = initialize_candy_machine(&mut ctx, bump, machine_data("abcdef", 77));
    assert_eq!(res.unwrap_err(), ProgramError::ConstraintViolated);
}

#[test]
fn candy_machine_with_an_empty_wallet_is_refused() {
    let (mut ctx, bump) = machine_context("abcdef");
    ctx.accounts.wallet.lamports = 0;
    let res = initialize_candy_machine(&mut ctx, bump, machine_data("abcdef", 77));
    assert_eq!(res.unwrap_err(), ProgramError::ConstraintViolated);
}

#[test]
fn candy_machine_is_bound_to_the_mint_of_its_tokens() {
    let (mut ctx, bump) = token_machine_context(k(30));
    initialize_candy_machine(&mut ctx, bump, machine_data("abcdef", 77)).unwrap();
    assert_eq!(ctx.accounts.candy_machine.state.as_ref().unwrap().token_mint, Some(k(30)));
}

#[test]
fn candy_machine_with_a_wallet_of_another_mint_is_refused() {
    let (mut ctx, bump) = token_machine_context(k(31));
    let res = initialize_candy_machine(&mut ctx, bump, machine_data("abcdef", 77));
    assert_eq!(res.unwrap_err(), ProgramError::Custom(ErrorCode::MintMismatch));
    assert!(ctx.accounts.candy_machine.state.is_none());
}

#[test]
fn candy_machine_with_a_mint_not_set_up_is_refused() {
    let (mut ctx, bump) = token_machine_context(k(30));
    ctx.remaining_accounts[0].data = mint_bytes(false);
    let res = initialize_candy_machine(&mut ctx, bump, machine_data("abcdef", 77));
    assert_eq!(res.unwrap_err(), ProgramError::Custom(ErrorCode::Uninitialized));
}

#[test]
fn candy_machine_with_bytes_that_are_no_mint_is_refused() {
    let (mut ctx, bump) = token_machine_context(k(30));
    ctx.remaining_accounts[0].data = vec![0u8; 81];
    let res = initialize_candy_machine(&mut ctx, bump, machine_data("abcdef", 77));
    assert_eq!(res.unwrap_err(), ProgramError::InvalidAccountData);
}

#[test]
fn candy_machine_with_a_wallet_not_set_up_is_refused() {
    let (mut ctx, bump) = token_machine_context(k(30));
    ctx.accounts.wallet.data = wallet_bytes(k(30), false);
    let res = initialize_candy_machine(&mut ctx, bump, machine_data("abcdef", 77));
    assert_eq!(res.unwrap_err(), ProgramError::Custom(ErrorCode::Uninitialized));
}

#[test]
fn candy_machine_with_a_mint_of_another_program_is_refused() {
    let (mut ctx, bump) = token_machine_context(k(30));
    ctx.remaining_accounts[0].owner = k(70);
    let res = initialize_candy_machine(&mut ctx, bump, machine_data("abcdef", 77));
    assert_eq!(res.unwrap_err(), ProgramError::Custom(ErrorCode::IncorrectOwner));
}

fn update_context() -> Context<UpdateCandyMachine> {
    let config_key = k(1);
    let (machine, bump) = Address::find_program_address(
        &[b"candy_machine", &config_key.bytes, b"abcdef"],
        &program(),
    );
    Context {
        program_id: own_key(program()),
        accounts: UpdateCandyMachine {
            candy_machine: Account {
                key: own_key(machine),
                lamports: 7,
                state: CandyMachine {
                    authority: k(2),
                    wallet: k(3),
                    token_mint: None,
                    collection: None,
                    config: config_key,
                    data: machine_data("abcdef", 77),
                    items_redeemed: 4,
                    bump,
                },
            },
            authority: account(k(2), true, false),
        },
        remaining_accounts: Vec::new(),
    }
}

#[test]
fn update_to_no_one_keeps_the_authority() {
    let mut ctx = update_context();
    update_authority(&mut ctx, None).unwrap();
    assert_eq!(ctx.accounts.candy_machine.state.authority, k(2));
    assert_eq!(ctx.accounts.candy_machine.state.items_redeemed, 4);
}

#[test]
fn update_hands_the_candy_machine_over() {
    let mut ctx = update_context();
    update_authority(&mut ctx, Some(k(8))).unwrap();
    assert_eq!(ctx.accounts.candy_machine.state.authority, k(8));
    assert_eq!(ctx.accounts.candy_machine.state.wallet, k(3));
    assert_eq!(ctx.accounts.candy_machine.state.items_redeemed, 4);
}

#[test]
fn update_after_a_handover_is_for_the_new_authority_alone() {
    let mut ctx = update_context();
    update_authority(&mut ctx, Some(k(8))).unwrap();
    assert_eq!(update_authority(&mut ctx, Some(k(2))).unwrap_err(), ProgramError::ConstraintViolated);
    assert_eq!(ctx.accounts.candy_machine.state.authority, k(8));
    ctx.accounts.authority.key = k(8);
    update_authority(&mut ctx, Some(k(2))).unwrap();
    assert_eq!(ctx.accounts.candy_machine.state.authority, k(2));
}

#[test]
fn update_without_a_signature_is_refused() {
    let mut ctx = update_context();
    ctx.accounts.authority.is_signer = false;
    assert_eq!(update_authority(&mut ctx, Some(k(8))).unwrap_err(), ProgramError::ConstraintViolated);
    assert_eq!(ctx.accounts.candy_machine.state.authority, k(2));
}

fn withdraw_context(store: u64, purse: u64) -> Context<WithdrawFunds> {
    Context {
        program_id: own_key(program()),
        accounts: WithdrawFunds {
            config: Account {
                key: k(1),
                lamports: store,
                state: Config { authority: k(2), data: config_data("abcdef", "PMV", "u") },
            },
            authority: AccountInfo { lamports: purse, ..account(k(2), true, true) },
        },
        remaining_accounts: Vec::new(),
    }
}

#[test]
fn withdrawal_moves_all_to_the_authority() {
    let mut ctx = withdraw_context(500, 20);
    withdraw_funds(&mut ctx).unwrap();
    assert_eq!(ctx.accounts.config.lamports, 0);
    assert_eq!(ctx.accounts.authority.lamports, 520);
}

#[test]
fn second_withdrawal_moves_nothing() {
    let mut ctx = withdraw_context(500, 20);
    withdraw_funds(&mut ctx).unwrap();
    withdraw_funds(&mut ctx).unwrap();
    assert_eq!(ctx.accounts.config.lamports, 0);
    assert_eq!(ctx.accounts.authority.lamports, 520);
}

#[test]
fn withdrawal_that_would_overflow_is_refused() {
    let mut ctx = withdraw_context(2, u64::MAX - 1);
    assert_eq!(
        withdraw_funds(&mut ctx).unwrap_err(),
        ProgramError::Custom(ErrorCode::NumericalOverflowError)
    );
    assert_eq!(ctx.accounts.config.lamports, 2);
    assert_eq!(ctx.accounts.authority.lamports, u64::MAX - 1);
}

#[test]
fn withdrawal_up_to_the_greatest_balance_goes_through() {
    let mut ctx = withdraw_context(1, u64::MAX - 1);
    withdraw_funds(&mut ctx).unwrap();
    assert_eq!(ctx.accounts.authority.lamports, u64::MAX);
}

#[test]
fn withdrawal_by_another_than_the_authority_is_refused() {
    let mut ctx = withdraw_context(500, 20);
    ctx.accounts.authority.key = k(8);
    assert_eq!(withdraw_funds(&mut ctx).unwrap_err(), ProgramError::ConstraintViolated);
    assert_eq!(ctx.accounts.config.lamports, 500);
}

#[test]
fn withdrawal_without_a_signature_is_refused() {
    let mut ctx = withdraw_context(500, 20);
    ctx.accounts.authority.is_signer = false;
    assert_eq!(withdraw_funds(&mut ctx).unwrap_err(), ProgramError::ConstraintViolated);
}

#[test]
fn handover_of_the_candy_machine_does_not_move_the_store() {
    let mut machine = update_context();
    update_authority(&mut machine, Some(k(8))).unwrap();
    let mut by_new = withdraw_context(500, 20);
    by_new.accounts.authority.key = k(8);
    assert_eq!(withdraw_funds(&mut by_new).unwrap_err(), ProgramError::ConstraintViolated);
    let mut by_store_authority = withdraw_context(500, 20);
    assert!(withdraw_funds(&mut by_store_authority).is_ok());
}

fn collection_context(retain: bool) -> Context<CreateCollectionNFT> {
    let config_key = k(1);
    let (machine, bump) = Address::find_program_address(
        &[b"candy_machine", &config_key.bytes, b"abcdef"],
        &program(),
    );
    let mut data = config_data("abcdef", "PMV\0\0\0\0\0\0\0", "u");
    data.retain_authority = retain;
    Context {
        program_id: own_key(program()),
        accounts: CreateCollectionNFT {
            config: Account { key: config_key, lamports: 5, state: Config { authority: k(2), data } },
            candy_machine: Account {
                key: own_key(machine),
                lamports: 7,
                state: CandyMachine {
                    authority: k(2),
                    wallet: k(3),
                    token_mint: None,
                    collection: None,
                    config: config_key,
                    data: machine_data("abcdef", 77),
                    items_redeemed: 4,
                    bump,
                },
            },
            payer: account(k(10), true, true),
            wallet: account(k(3), false, true),
            metadata: account(k(4), false, true),
            mint: account(k(5), false, true),
            mint_authority: account(k(6), true, false),
            update_authority: account(k(7), true, false),
            master_edition: account(k(8), false, true),
            token_metadata_program: account(own_key(mpl_token_metadata::id()), false, false),
            token_program: account(own_key(spl_token::id()), false, false),
            system_program: account(own_key(system_program::id()), false, false),
            rent: account(own_key(sysvar::rent::id()), false, false),
            clock: account(own_key(sysvar::clock::id()), false, false),
        },
        remaining_accounts: Vec::new(),
    }
}

#[test]
fn collection_asset_is_issued_with_no_copies() {
    let mut ctx = collection_context(false);
    let plan = create_collection_nft(&mut ctx).unwrap();
    assert_eq!(plan.len(), 3);
    let a = &ctx.accounts;
    let machine = outside_key(a.candy_machine.key);

    let metadata = create_metadata_accounts_v2(
        mpl_token_metadata::id(),
        outside_key(a.metadata.key),
        outside_key(a.mint.key),
        outside_key(a.mint_authority.key),
        outside_key(a.payer.key),
        machine,
        "Collection NFT".to_string(),
        "PMV\0\0\0\0\0\0\0".to_string(),
        " ".to_string(),
        Some(vec![mpl_token_metadata::state::Creator { address: machine, verified: true, share: 100 }]),
        0,
        true,
        false,
        None,
        None,
    );
    assert_eq!(plan[0].instruction.data, metadata.data);
    assert_eq!(plan[0].instruction.program_id.bytes, metadata.program_id.to_bytes());
    assert_eq!(plan[0].instruction.accounts.len(), metadata.accounts.len());

    let edition = create_master_edition_v3(
        mpl_token_metadata::id(),
        outside_key(a.master_edition.key),
        outside_key(a.mint.key),
        machine,
        outside_key(a.mint_authority.key),
        outside_key(a.metadata.key),
        outside_key(a.payer.key),
        Some(0),
    );
    assert_eq!(plan[1].instruction.data, edition.data);
    for (made, expected) in plan[1].instruction.accounts.iter().zip(edition.accounts.iter()) {
        assert_eq!(made.pubkey.bytes, expected.pubkey.to_bytes());
        assert_eq!(made.is_signer, expected.is_signer);
        assert_eq!(made.is_writable, expected.is_writable);
    }

    let update = update_metadata_accounts(
        mpl_token_metadata::id(),
        outside_key(a.metadata.key),
        machine,
        Some(outside_key(a.update_authority.key)),
        None,
        Some(true),
    );
    assert_eq!(plan[2].instruction.data, update.data);
    let seeds = vec![
        b"candy_machine".to_vec(),
        a.config.key.bytes.to_vec(),
        b"abcdef".to_vec(),
        vec![a.candy_machine.state.bump],
    ];
    for step in plan.iter() {
        assert_eq!(step.signer_seeds, seeds);
    }
}

#[test]
fn collection_asset_binds_the_candy_machine() {
    let mut ctx = collection_context(true);
    create_collection_nft(&mut ctx).unwrap();
    assert_eq!(ctx.accounts.candy_machine.state.collection, Some(k(5)));
    assert_eq!(ctx.accounts.candy_machine.state.items_redeemed, 4);
}

#[test]
fn collection_asset_stays_with_the_authority_where_retained() {
    let mut ctx = collection_context(true);
    let plan = create_collection_nft(&mut ctx).unwrap();
    let a = &ctx.accounts;
    let update = update_metadata_accounts(
        mpl_token_metadata::id(),
        outside_key(a.metadata.key),
        outside_key(a.candy_machine.key),
        Some(outside_key(k(2))),
        None,
        Some(true),
    );
    assert_eq!(plan[2].instruction.data, update.data);
}

#[test]
fn collection_asset_without_the_mint_authoritys_signature_is_refused() {
    let mut ctx = collection_context(true);
    ctx.accounts.mint_authority.is_signer = false;
    assert_eq!(create_collection_nft(&mut ctx).unwrap_err(), ProgramError::ConstraintViolated);
    assert_eq!(ctx.accounts.candy_machine.state.collection, None);
}
