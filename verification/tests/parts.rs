use anchor_lang::solana_program::pubkey::Pubkey as Address;
use anchor_lang::solana_program::{system_program, sysvar};
use pmv::account::AccountInfo;
use pmv::address::{authority_seeds, check_derived, claim_seeds};
use pmv::error::{ErrorCode, ProgramError};
use pmv::instruction::{token_transfer, verify_collection_item, CollectionKeys};
use pmv::pubkey::{
    clock_sysvar_id, rent_sysvar_id, system_program_id, token_metadata_program_id,
    token_program_id, Pubkey,
};
use pmv::state::{CandyMachine, ClaimStatus, Config};
use pmv::store::{encode_header, write_header};
use pmv::token::{assert_initialized_mint, assert_initialized_token_account, assert_owned_by};

fn p(n: u8) -> Pubkey {
    Pubkey { bytes: [n; 32] }
}

#[test]
fn well_known_addresses_are_those_of_the_ledger() {
    assert_eq!(system_program_id().bytes, system_program::id().to_bytes());
    assert_eq!(token_program_id().bytes, spl_token::id().to_bytes());
    assert_eq!(token_metadata_program_id().bytes, mpl_token_metadata::id().to_bytes());
    assert_eq!(rent_sysvar_id().bytes, sysvar::rent::id().to_bytes());
    assert_eq!(clock_sysvar_id().bytes, sysvar::clock::id().to_bytes());
}

#[test]
fn addresses_are_equal_by_their_bytes() {
    assert_eq!(p(1), p(1));
    assert_ne!(p(1), p(2));
    let mut other = p(1);
    other.bytes[31] = 0;
    assert_ne!(p(1), other);
    assert_eq!(p(3).to_vec(), vec![3u8; 32]);
    assert_eq!(Pubkey::default().bytes, [0u8; 32]);
}

#[test]
fn seeds_of_a_candy_machine_are_prefix_store_uuid_bump() {
    let seeds = authority_seeds(&p(1), &"abcdef".to_string(), 254);
    assert_eq!(
        seeds,
        vec![b"candy_machine".to_vec(), vec![1u8; 32], b"abcdef".to_vec(), vec![254u8]]
    );
}

#[test]
fn seeds_of_a_claim_are_prefix_index_machine_bump() {
    let seeds = claim_seeds(0x0102, &p(9), 7);
    assert_eq!(
        seeds,
        vec![b"ClaimStatus".to_vec(), vec![2, 1, 0, 0, 0, 0, 0, 0], vec![9u8; 32], vec![7u8]]
    );
}

#[test]
fn derived_address_is_that_of_the_ledger() {
    let program = Address::new_from_array([5u8; 32]);
    let (address, bump) = Address::find_program_address(&[b"candy_machine", b"x"], &program);
    let seeds = vec![b"candy_machine".to_vec(), b"x".to_vec(), vec![bump]];
    let key = Pubkey { bytes: address.to_bytes() };
    assert!(check_derived(&key, &seeds, &p(5)));
    assert!(!check_derived(&p(6), &seeds, &p(5)));
    assert!(!check_derived(&key, &seeds, &p(4)));
    let too_long = vec![vec![0u8; 33]];
    assert!(!check_derived(&key, &too_long, &p(5)));
}

#[test]
fn token_transfer_is_for_the_token_program_alone() {
    assert!(token_transfer(p(1), p(2), p(3), p(4), 5).is_none());
    let made = token_transfer(token_program_id(), p(2), p(3), p(4), 5).unwrap();
    assert_eq!(made.accounts.len(), 3);
    assert_eq!(made.accounts[2].pubkey, p(4));
    assert!(made.accounts[2].is_signer);
    assert!(!made.accounts[2].is_writable);
}

#[test]
fn collection_verification_is_one_byte() {
    let made = verify_collection_item(CollectionKeys {
        program_id: token_metadata_program_id(),
        metadata: p(1),
        collection_authority: p(2),
        payer: p(3),
        collection_mint: p(4),
        collection_metadata: p(5),
        collection_master_edition: p(6),
    });
    assert_eq!(made.data, vec![18u8]);
    assert_eq!(made.accounts.len(), 6);
    assert_eq!(made.accounts[1].pubkey, p(2));
    assert!(made.accounts[1].is_signer && made.accounts[1].is_writable);
    assert!(!made.accounts[5].is_signer && !made.accounts[5].is_writable);
}

fn holder(owner: Pubkey, data: Vec<u8>) -> AccountInfo {
    AccountInfo { key: p(1), is_signer: false, is_writable: false, lamports: 1, owner, data }
}

#[test]
fn token_account_is_read_from_its_bytes() {
    let mut data = vec![0u8; 165];
    data[..32].copy_from_slice(&[7u8; 32]);
    data[64..72].copy_from_slice(&1234u64.to_le_bytes());
    data[108] = 1;
    let read = assert_initialized_token_account(&holder(p(2), data.clone())).unwrap();
    assert_eq!(read.mint, p(7));
    assert_eq!(read.amount, 1234);
    assert!(read.is_initialized);

    data[108] = 0;
    assert_eq!(
        assert_initialized_token_account(&holder(p(2), data.clone())).unwrap_err(),
        ProgramError::Custom(ErrorCode::Uninitialized)
    );
    data[108] = 3;
    assert_eq!(
        assert_initialized_token_account(&holder(p(2), data.clone())).unwrap_err(),
        ProgramError::InvalidAccountData
    );
    data.push(0);
    assert_eq!(
        assert_initialized_token_account(&holder(p(2), data)).unwrap_err(),
        ProgramError::InvalidAccountData
    );
}

#[test]
fn mint_is_read_from_its_bytes() {
    let mut data = vec![0u8; 82];
    data[45] = 1;
    assert!(assert_initialized_mint(&holder(p(2), data.clone())).is_ok());
    data[45] = 0;
    assert_eq!(
        assert_initialized_mint(&holder(p(2), data.clone())).unwrap_err(),
        ProgramError::Custom(ErrorCode::Uninitialized)
    );
    data[45] = 2;
    assert_eq!(
        assert_initialized_mint(&holder(p(2), data)).unwrap_err(),
        ProgramError::InvalidAccountData
    );
    assert_eq!(
        assert_initialized_mint(&holder(p(2), Vec::new())).unwrap_err(),
        ProgramError::InvalidAccountData
    );
}

#[test]
fn owner_is_checked() {
    assert!(assert_owned_by(&holder(p(2), Vec::new()), &p(2)).is_ok());
    assert_eq!(
        assert_owned_by(&holder(p(2), Vec::new()), &p(3)).unwrap_err(),
        ProgramError::Custom(ErrorCode::IncorrectOwner)
    );
}

#[test]
fn header_is_tag_authority_texts_and_flags() {
    let mut config = Config::default();
    config.authority = p(9);
    config.data.uuid = "ab".to_string();
    config.data.symbol = "é".to_string();
    config.data.retain_authority = true;
    let head = encode_header(&[1, 2, 3, 4, 5, 6, 7, 8], &config);
    let mut expected = vec![1u8, 2, 3, 4, 5, 6, 7, 8];
    expected.extend([9u8; 32]);
    expected.extend([2, 0, 0, 0, b'a', b'b']);
    expected.extend([2, 0, 0, 0, 0xC3, 0xA9]);
    expected.extend([0, 1]);
    expected.extend([0, 0, 0, 0]);
    assert_eq!(head, expected);
}

#[test]
fn header_overwrites_the_start_alone() {
    let mut data = vec![9u8; 6];
    write_header(&mut data, &vec![1, 2, 3]);
    assert_eq!(data, vec![1, 2, 3, 9, 9, 9]);
    write_header(&mut data, &Vec::new());
    assert_eq!(data, vec![1, 2, 3, 9, 9, 9]);
    write_header(&mut data, &vec![7, 7, 7, 7, 7, 7]);
    assert_eq!(data, vec![7, 7, 7, 7, 7, 7]);
}

#[test]
fn fresh_records_are_empty() {
    let machine = CandyMachine::default();
    assert_eq!(machine.items_redeemed, 0);
    assert_eq!(machine.token_mint, None);
    assert_eq!(machine.collection, None);
    assert_eq!(machine.data.uuid, "");
    let claim = ClaimStatus::default();
    assert!(!claim.is_claimed);
    assert_eq!(claim.sol_address, "");
    assert_eq!(claim.eth_address, "");
}

#[test]
fn refusals_carry_their_sentences() {
    assert_eq!(ErrorCode::MustBeAuthority.message(), "Must be authority to mint");
    assert_eq!(ErrorCode::UuidMustBeExactly6Length.message(), "Uuid must be exactly of 6 length");
    assert_eq!(ErrorCode::NotEnoughSOL.message(), "Not enough SOL to pay for this minting");
    assert_eq!(ErrorCode::NotEnoughTokens.message(), "Not enough tokens to pay for this minting");
    assert_eq!(ErrorCode::MintMismatch.message(), "Mint Mismatch!");
    assert_eq!(ErrorCode::NumericalOverflowError.message(), "Numerical overflow error!");
    assert_eq!(ErrorCode::IncorrectOwner.message(), "Account does not have correct owner!");
    assert_eq!(ErrorCode::Uninitialized.message(), "Account is not initialized!");
    assert_eq!(ErrorCode::TokenTransferFailed.message(), "Token transfer failed");
    assert_eq!(ErrorCode::IndexGreaterThanLength.message(), "Index greater than length!");
    assert_eq!(
        ErrorCode::ConfigMustHaveAtleastOneEntry.message(),
        "Config must have atleast one entry!"
    );
    assert_eq!(
        ErrorCode::TooManyCreators.message(),
        "Can only provide up to 4 creators to candy machine (because candy machine is one)!"
    );
    assert_eq!(ErrorCode::CandyMachineEmpty.message(), "Candy machine is empty!");
    assert_eq!(ErrorCode::CandyMachineNotLiveYet.message(), "Candy machine is not live yet!");
    assert_eq!(
        ErrorCode::ConfigLineMismatch.message(),
        "Number of config lines must be at least number of items available"
    );
}
