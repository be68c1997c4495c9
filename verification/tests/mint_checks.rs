use token_22_tc::cpi::TokenCpi;
use token_22_tc::error::{HandlerError, MintError, INVALID_ACCOUNT_DATA};
use token_22_tc::extension::{check_supported_extensions, supports_extension, MintExtension};
use token_22_tc::instructions::assert_supported_mint::AssertSupportedMint;
use token_22_tc::instructions::permanent_delegate::PermanentDelegateSeize;
use token_22_tc::instructions::unfreeze_delegate::UnfreezeDelegate;
use token_22_tc::instructions::confidential_lifecycle::read_mint;

const TRANSFER_FEE_CONFIG: u16 = 1;
const MINT_CLOSE_AUTHORITY: u16 = 3;
const PERMANENT_DELEGATE: u16 = 12;
const METADATA_POINTER: u16 = 18;

fn key(b: u8) -> [u8; 32] {
    [b; 32]
}

/// Bytes of an initialized mint with the given TLV entries.
fn mint_data(extensions: &[(u16, Vec<u8>)]) -> Vec<u8> {
    let mut data = Vec::new();
    data.extend_from_slice(&[1, 0, 0, 0]);
    data.extend_from_slice(&key(9));
    data.extend_from_slice(&1_000_000u64.to_le_bytes());
    data.push(6);
    data.push(1);
    data.extend_from_slice(&[0, 0, 0, 0]);
    data.extend_from_slice(&[0u8; 32]);
    assert_eq!(data.len(), 82);
    if !extensions.is_empty() {
        data.resize(165, 0);
        data.push(1); // account type: mint
        for (ty, value) in extensions {
            data.extend_from_slice(&ty.to_le_bytes());
            data.extend_from_slice(&(value.len() as u16).to_le_bytes());
            data.extend_from_slice(value);
        }
    }
    data
}

fn fee_tier_bytes(epoch: u64, maximum_fee: u64, basis_points: u16) -> Vec<u8> {
    let mut v = Vec::new();
    v.extend_from_slice(&epoch.to_le_bytes());
    v.extend_from_slice(&maximum_fee.to_le_bytes());
    v.extend_from_slice(&basis_points.to_le_bytes());
    v
}

fn transfer_fee_config(older: (u64, u64, u16), newer: (u64, u64, u16)) -> (u16, Vec<u8>) {
    let mut v = Vec::new();
    v.extend_from_slice(&key(1));
    v.extend_from_slice(&key(2));
    v.extend_from_slice(&0u64.to_le_bytes());
    v.extend(fee_tier_bytes(older.0, older.1, older.2));
    v.extend(fee_tier_bytes(newer.0, newer.1, newer.2));
    assert_eq!(v.len(), 108);
    (TRANSFER_FEE_CONFIG, v)
}

fn checked_transfer(mint_data: Vec<u8>) -> AssertSupportedMint {
    AssertSupportedMint {
        payer: key(10),
        sender: key(11),
        recipient: key(12),
        mint: key(13),
        mint_data,
        token_program: token_22_tc::constants::TOKEN_2022_PROGRAM_ID,
    }
}

fn expected_transfer(amount: u64, decimals: u8, fee: u64) -> TokenCpi {
    TokenCpi::TransferCheckedWithFee {
        program_id: token_22_tc::constants::TOKEN_2022_PROGRAM_ID,
        token_program: token_22_tc::constants::TOKEN_2022_PROGRAM_ID,
        source: key(11),
        mint: key(13),
        destination: key(12),
        authority: key(10),
        amount,
        decimals,
        fee,
    }
}

#[test]
fn allowlist_matches_supported_extensions() {
    assert!(supports_extension(MINT_CLOSE_AUTHORITY));
    assert!(supports_extension(METADATA_POINTER));
    assert!(supports_extension(TRANSFER_FEE_CONFIG));
    assert!(!supports_extension(PERMANENT_DELEGATE));
    assert!(!supports_extension(0));
    assert_eq!(MintExtension::PermanentDelegate.type_code(), PERMANENT_DELEGATE);
}

#[test]
fn extension_list_check() {
    assert_eq!(check_supported_extensions(&[]), Ok(()));
    assert_eq!(check_supported_extensions(&[3, 18, 1]), Ok(()));
    assert_eq!(check_supported_extensions(&[3, 12, 1]), Err(MintError::UnsupportedExtension));
}

#[test]
fn reads_both_fee_settings_of_mint() {
    let data = mint_data(&[(MINT_CLOSE_AUTHORITY, vec![5; 32]), transfer_fee_config((0, 10, 1_000), (4, 20, 2_000))]);
    assert_eq!(read_mint(&data), Ok(()));
    let mut accounts = checked_transfer(data);
    assert_eq!(accounts.assert_supported_mint(50, 1, 3), Ok(expected_transfer(50, 1, 5)));
    assert_eq!(accounts.assert_supported_mint(50, 1, 4), Ok(expected_transfer(50, 1, 10)));
    assert_eq!(accounts.assert_supported_mint(500, 1, 4), Ok(expected_transfer(500, 1, 20)));
}

#[test]
fn short_mint_data_is_invalid() {
    assert_eq!(read_mint(&vec![0u8; 10]), Err(HandlerError::Program(INVALID_ACCOUNT_DATA)));
    assert_eq!(read_mint(&vec![0u8; 355]), Err(HandlerError::Program(INVALID_ACCOUNT_DATA)));
}

#[test]
fn uninitialized_mint_is_refused() {
    let mut data = mint_data(&[]);
    data[45] = 0;
    assert!(read_mint(&data).is_err());
}

#[test]
fn checked_transfer_charges_epoch_fee() {
    let data = mint_data(&[transfer_fee_config((0, 1_000, 100), (50, 1_000, 300))]);
    let mut accounts = checked_transfer(data);
    assert_eq!(accounts.assert_supported_mint(10_000, 6, 49), Ok(expected_transfer(10_000, 6, 100)));
    assert_eq!(accounts.assert_supported_mint(10_000, 6, 50), Ok(expected_transfer(10_000, 6, 300)));
    assert_eq!(accounts.assert_supported_mint(1_000_000, 6, 50), Ok(expected_transfer(1_000_000, 6, 1_000)));
}

#[test]
fn checked_transfer_without_fee_config_is_free() {
    let data = mint_data(&[(MINT_CLOSE_AUTHORITY, vec![5; 32]), (METADATA_POINTER, vec![7; 64])]);
    let mut accounts = checked_transfer(data);
    assert_eq!(accounts.assert_supported_mint(777, 2, 3), Ok(expected_transfer(777, 2, 0)));
    let mut bare = checked_transfer(mint_data(&[]));
    assert_eq!(bare.assert_supported_mint(5, 0, 0), Ok(expected_transfer(5, 0, 0)));
}

#[test]
fn checked_transfer_refuses_unsupported_extension() {
    let data = mint_data(&[transfer_fee_config((0, 1_000, 100), (0, 1_000, 100)), (PERMANENT_DELEGATE, vec![8; 32])]);
    let mut accounts = checked_transfer(data);
    assert_eq!(accounts.assert_supported_mint(1, 0, 0), Err(HandlerError::Mint(MintError::UnsupportedExtension)));
}

#[test]
fn checked_transfer_reports_fee_overflow() {
    let data = mint_data(&[transfer_fee_config((0, u64::MAX, 60_000), (0, u64::MAX, 60_000))]);
    let mut accounts = checked_transfer(data);
    assert_eq!(accounts.assert_supported_mint(u64::MAX, 0, 0), Err(HandlerError::Mint(MintError::MathsOverflow)));
}

#[test]
fn checked_transfer_refuses_unreadable_mint() {
    let mut accounts = checked_transfer(vec![0u8; 40]);
    assert_eq!(accounts.assert_supported_mint(1, 0, 0), Err(HandlerError::Program(INVALID_ACCOUNT_DATA)));
}

fn seizure(mint_data: Vec<u8>) -> PermanentDelegateSeize {
    PermanentDelegateSeize {
        permanent_delegate: key(20),
        mint: key(21),
        mint_data,
        source: key(22),
        destination: key(23),
        token_program: token_22_tc::constants::TOKEN_2022_PROGRAM_ID,
    }
}

#[test]
fn seizure_charges_epoch_fee() {
    let data = mint_data(&[transfer_fee_config((0, 500, 1_000), (100, 500, 2_000)), (PERMANENT_DELEGATE, vec![20; 32])]);
    let mut accounts = seizure(data);
    let expected = TokenCpi::TransferCheckedWithFee {
        program_id: token_22_tc::constants::TOKEN_2022_PROGRAM_ID,
        token_program: token_22_tc::constants::TOKEN_2022_PROGRAM_ID,
        source: key(22),
        mint: key(21),
        destination: key(23),
        authority: key(20),
        amount: 1_000,
        decimals: 9,
        fee: 100,
    };
    assert_eq!(accounts.seize_tokens(1_000, 9, 99), Ok(expected));
}

#[test]
fn seizure_needs_transfer_fee_config() {
    let data = mint_data(&[(PERMANENT_DELEGATE, vec![20; 32])]);
    let mut accounts = seizure(data);
    assert_eq!(accounts.seize_tokens(1_000, 9, 0), Err(HandlerError::Program(INVALID_ACCOUNT_DATA)));
}

#[test]
fn seizure_reports_fee_overflow() {
    let data = mint_data(&[transfer_fee_config((0, u64::MAX, 60_000), (0, u64::MAX, 60_000))]);
    let mut accounts = seizure(data);
    assert_eq!(accounts.seize_tokens(u64::MAX, 0, 0), Err(HandlerError::Mint(MintError::MathsOverflow)));
}

#[test]
fn delegation_approves_amount() {
    let mut accounts = UnfreezeDelegate {
        owner: key(30),
        token_account: key(31),
        delegate: key(32),
        token_program: token_22_tc::constants::TOKEN_2022_PROGRAM_ID,
    };
    assert_eq!(
        accounts.delegate_to_program(42),
        TokenCpi::Approve {
            program_id: token_22_tc::constants::TOKEN_2022_PROGRAM_ID,
            to: key(31),
            delegate: key(32),
            authority: key(30),
            amount: 42,
        }
    );
}

#[test]
fn transfer_and_seizure_charge_the_same_fee() {
    let data = mint_data(&[transfer_fee_config((0, 900, 333), (7, 800, 444))]);
    let mut transfer = checked_transfer(data.clone());
    let mut seize = seizure(data);
    for (amount, epoch) in [(1u64, 0u64), (10_000, 6), (10_000, 7), (5_000_000, 9)] {
        let a = transfer.assert_supported_mint(amount, 3, epoch).unwrap();
        let b = seize.seize_tokens(amount, 3, epoch).unwrap();
        match (a, b) {
            (TokenCpi::TransferCheckedWithFee { fee: fa, .. }, TokenCpi::TransferCheckedWithFee { fee: fb, .. }) => assert_eq!(fa, fb),
            other => panic!("unexpected calls {:?}", other),
        }
    }
}
