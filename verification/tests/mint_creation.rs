use token_22_tc::constants::{SYSTEM_PROGRAM_ID, TOKEN_2022_PROGRAM_ID};
use token_22_tc::cpi::{AccountMetaView, AccountStateKind, TokenCpi};
use token_22_tc::error::{HandlerError, INCORRECT_PROGRAM_ID, INVALID_ARGUMENT};
use token_22_tc::extension::{check_supported_extensions, MintExtension};
use token_22_tc::instructions::confidential_fee_mint::CreateConfidentialFeeMint;
use token_22_tc::instructions::create_seizable_mint::CreateSeizableMint;
use token_22_tc::instructions::mint_with_fee::{CreateMintDeclarative, CreateMintWithFee};
use token_22_tc::instructions::mint_with_fee::account_space_for;

fn key(b: u8) -> [u8; 32] {
    [b; 32]
}

fn codes(extensions: &[MintExtension]) -> Vec<u16> {
    extensions.iter().map(|e| e.type_code()).collect()
}

#[test]
fn mint_account_sizes() {
    assert_eq!(account_space_for(&vec![]), Ok(82));
    // 165-byte base, account type, close authority (4 + 32), transfer fee (4 + 108)
    assert_eq!(account_space_for(&vec![MintExtension::MintCloseAuthority, MintExtension::TransferFeeConfig]), Ok(314));
    // a repeated extension is counted once
    assert_eq!(account_space_for(&vec![MintExtension::TransferFeeConfig, MintExtension::TransferFeeConfig]), Ok(278));
}

#[test]
fn fee_mint_plan() {
    let mut accounts = CreateMintWithFee {
        payer: key(1),
        mint: key(2),
        token_program: TOKEN_2022_PROGRAM_ID,
        system_program: SYSTEM_PROGRAM_ID,
    };
    assert_eq!(accounts.account_space(), Ok(314));
    let plan = accounts.create_mint_with_fee(6, 50, 5_000, 3_000_000);
    assert_eq!(plan.outcome, Ok(()));
    assert_eq!(
        plan.calls,
        vec![
            TokenCpi::CreateAccount {
                program_id: TOKEN_2022_PROGRAM_ID,
                from: key(1),
                to: key(2),
                lamports: 3_000_000,
                space: 314,
                owner: TOKEN_2022_PROGRAM_ID,
            },
            TokenCpi::InitializeMintCloseAuthority {
                program_id: TOKEN_2022_PROGRAM_ID,
                token_program: TOKEN_2022_PROGRAM_ID,
                mint: key(2),
                close_authority: Some(key(1)),
            },
            TokenCpi::InitializeTransferFee {
                program_id: TOKEN_2022_PROGRAM_ID,
                token_program: TOKEN_2022_PROGRAM_ID,
                mint: key(2),
                transfer_fee_config_authority: Some(key(1)),
                withdraw_withheld_authority: Some(key(1)),
                basis_points: 50,
                maximum_fee: 5_000,
            },
            TokenCpi::InitializeMint2 {
                program_id: TOKEN_2022_PROGRAM_ID,
                mint: key(2),
                decimals: 6,
                mint_authority: key(1),
                freeze_authority: None,
            },
        ]
    );
}

#[test]
fn created_mints_against_allowlist() {
    assert_eq!(check_supported_extensions(&codes(&CreateMintWithFee::extensions())), Ok(()));
    assert_eq!(check_supported_extensions(&codes(&CreateMintDeclarative::extensions())), Ok(()));
    assert!(check_supported_extensions(&codes(&CreateSeizableMint::extensions())).is_err());
    assert!(check_supported_extensions(&codes(&CreateConfidentialFeeMint::extensions())).is_err());
}

fn confidential_fee_mint(payer: [u8; 32], token_program: [u8; 32]) -> CreateConfidentialFeeMint {
    CreateConfidentialFeeMint { payer, mint: key(2), token_program, system_program: SYSTEM_PROGRAM_ID }
}

#[test]
fn confidential_fee_mint_plan() {
    let mut accounts = confidential_fee_mint(key(1), TOKEN_2022_PROGRAM_ID);
    // 166 + (4 + 108) transfer fee + (4 + 129) confidential fee + (4 + 65) confidential mint
    assert_eq!(accounts.account_space(), Ok(480));
    let plan = accounts.create_confidential_fee_mint(9, 10, 99, [7; 32], 4_000_000);
    assert_eq!(plan.outcome, Ok(()));
    assert_eq!(plan.calls.len(), 5);
    assert_eq!(
        plan.calls[0],
        TokenCpi::CreateAccount {
            program_id: SYSTEM_PROGRAM_ID,
            from: key(1),
            to: key(2),
            lamports: 4_000_000,
            space: 480,
            owner: TOKEN_2022_PROGRAM_ID,
        }
    );
    match &plan.calls[2] {
        TokenCpi::Invoke(inv) => {
            assert_eq!(inv.account_infos, vec![key(2), TOKEN_2022_PROGRAM_ID]);
            assert_eq!(inv.instruction.program_id, TOKEN_2022_PROGRAM_ID);
            assert_eq!(inv.instruction.accounts, vec![AccountMetaView { key: key(2), is_signer: false, is_writable: true }]);
            let mut data = vec![27, 0];
            data.extend_from_slice(&key(1));
            data.push(1);
            data.extend_from_slice(&[0; 32]);
            assert_eq!(inv.instruction.data, data);
        }
        other => panic!("unexpected call {:?}", other),
    }
    match &plan.calls[3] {
        TokenCpi::Invoke(inv) => {
            let mut data = vec![37, 0];
            data.extend_from_slice(&key(1));
            data.extend_from_slice(&[7; 32]);
            assert_eq!(inv.instruction.data, data);
        }
        other => panic!("unexpected call {:?}", other),
    }
    assert_eq!(
        plan.calls[4],
        TokenCpi::InitializeMint2 {
            program_id: TOKEN_2022_PROGRAM_ID,
            mint: key(2),
            decimals: 9,
            mint_authority: key(1),
            freeze_authority: None,
        }
    );
}

#[test]
fn confidential_fee_mint_wrong_program() {
    let mut accounts = confidential_fee_mint(key(1), key(5));
    let plan = accounts.create_confidential_fee_mint(9, 10, 99, [7; 32], 4_000_000);
    assert_eq!(plan.calls.len(), 2);
    assert_eq!(plan.outcome, Err(HandlerError::Program(INCORRECT_PROGRAM_ID)));
}

#[test]
fn confidential_fee_mint_zero_payer() {
    let mut accounts = confidential_fee_mint([0; 32], TOKEN_2022_PROGRAM_ID);
    let plan = accounts.create_confidential_fee_mint(9, 10, 99, [7; 32], 4_000_000);
    assert_eq!(plan.calls.len(), 2);
    assert_eq!(plan.outcome, Err(HandlerError::Program(INVALID_ARGUMENT)));
}

#[test]
fn seizable_mint_plan() {
    let mut accounts = CreateSeizableMint {
        payer: key(1),
        mint: key(2),
        permanent_delegate: key(3),
        token_program: TOKEN_2022_PROGRAM_ID,
        system_program: SYSTEM_PROGRAM_ID,
    };
    // 166 + close (36) + metadata pointer (68) + default state (5)
    //     + transfer fee (112) + permanent delegate (36) + confidential mint (69)
    assert_eq!(accounts.account_space(), Ok(492));
    let plan = accounts.create_seizable_mint(2, 25, 1_000, 5_000_000);
    assert_eq!(plan.outcome, Ok(()));
    assert_eq!(plan.calls.len(), 8);
    assert_eq!(
        plan.calls[2],
        TokenCpi::InitializeMetadataPointer {
            program_id: TOKEN_2022_PROGRAM_ID,
            token_program: TOKEN_2022_PROGRAM_ID,
            mint: key(2),
            metadata_authority: Some(key(1)),
            metadata_address: Some(key(2)),
        }
    );
    assert_eq!(
        plan.calls[3],
        TokenCpi::InitializeDefaultAccountState {
            program_id: TOKEN_2022_PROGRAM_ID,
            token_program: TOKEN_2022_PROGRAM_ID,
            mint: key(2),
            state: AccountStateKind::Frozen,
        }
    );
    assert_eq!(
        plan.calls[5],
        TokenCpi::InitializePermanentDelegate {
            program_id: TOKEN_2022_PROGRAM_ID,
            token_program: TOKEN_2022_PROGRAM_ID,
            mint: key(2),
            delegate: key(3),
        }
    );
    match &plan.calls[6] {
        TokenCpi::Invoke(inv) => {
            let mut data = vec![27, 0];
            data.extend_from_slice(&key(1));
            data.push(0);
            data.extend_from_slice(&[0; 32]);
            assert_eq!(inv.instruction.data, data);
        }
        other => panic!("unexpected call {:?}", other),
    }
    assert_eq!(
        plan.calls[7],
        TokenCpi::InitializeMint2 {
            program_id: TOKEN_2022_PROGRAM_ID,
            mint: key(2),
            decimals: 2,
            mint_authority: key(1),
            freeze_authority: Some(key(1)),
        }
    );
}
