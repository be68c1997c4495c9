use token_22_tc::constants::TOKEN_2022_PROGRAM_ID;
use token_22_tc::cpi::{AccountMetaView, Invocation, RawInstruction};
use token_22_tc::error::{HandlerError, INCORRECT_PROGRAM_ID, INVALID_ACCOUNT_DATA};
use token_22_tc::instructions::confidential_lifecycle::{
    apply_pending_balance, read_mint, read_token_account, ApproveConfidentialAccount,
    ConfidentialLifecycle, ConfidentialTransfer, ConfidentialWithdraw, ConfigureConfidentialAccount,
};

const TP: [u8; 32] = TOKEN_2022_PROGRAM_ID;

fn key(b: u8) -> [u8; 32] {
    [b; 32]
}

fn w(k: [u8; 32]) -> AccountMetaView {
    AccountMetaView { key: k, is_signer: false, is_writable: true }
}

fn r(k: [u8; 32]) -> AccountMetaView {
    AccountMetaView { key: k, is_signer: false, is_writable: false }
}

fn s(k: [u8; 32]) -> AccountMetaView {
    AccountMetaView { key: k, is_signer: true, is_writable: false }
}

fn mint_bytes() -> Vec<u8> {
    let mut data = vec![1, 0, 0, 0];
    data.extend_from_slice(&key(9));
    data.extend_from_slice(&0u64.to_le_bytes());
    data.push(2);
    data.push(1);
    data.extend_from_slice(&[0; 36]);
    data
}

fn token_account_bytes() -> Vec<u8> {
    let mut data = Vec::new();
    data.extend_from_slice(&key(2)); // mint
    data.extend_from_slice(&key(3)); // owner
    data.extend_from_slice(&500u64.to_le_bytes());
    data.extend_from_slice(&[0; 36]); // no delegate
    data.push(1); // initialized
    data.extend_from_slice(&[0; 12]); // not native
    data.extend_from_slice(&0u64.to_le_bytes());
    data.extend_from_slice(&[0; 36]); // no close authority
    assert_eq!(data.len(), 165);
    data
}

fn lifecycle() -> ConfidentialLifecycle {
    ConfidentialLifecycle {
        token_account: key(1),
        token_account_data: token_account_bytes(),
        mint: key(2),
        mint_data: mint_bytes(),
        authority: key(3),
        token_program: TP,
    }
}

fn configure(token_program: [u8; 32]) -> ConfigureConfidentialAccount {
    ConfigureConfidentialAccount {
        token_account: key(1),
        token_account_data: token_account_bytes(),
        mint: key(2),
        mint_data: mint_bytes(),
        pubkey_validity_proof_context: key(4),
        authority: key(3),
        token_program,
    }
}

fn approval(token_program: [u8; 32]) -> ApproveConfidentialAccount {
    ApproveConfidentialAccount {
        token_account: key(1),
        token_account_data: token_account_bytes(),
        mint: key(2),
        mint_data: mint_bytes(),
        confidential_authority: key(5),
        token_program,
    }
}

fn transfer() -> ConfidentialTransfer {
    ConfidentialTransfer {
        source: key(1),
        source_data: token_account_bytes(),
        mint: key(2),
        mint_data: mint_bytes(),
        destination: key(7),
        destination_data: token_account_bytes(),
        equality_proof_context: key(4),
        ciphertext_validity_proof_context: key(5),
        range_proof_context: key(6),
        authority: key(3),
        token_program: TP,
    }
}

fn withdrawal() -> ConfidentialWithdraw {
    ConfidentialWithdraw {
        token_account: key(1),
        token_account_data: token_account_bytes(),
        mint: key(2),
        mint_data: mint_bytes(),
        equality_proof_context: key(5),
        range_proof_context: key(6),
        authority: key(3),
        token_program: TP,
    }
}

#[test]
fn account_data_reads() {
    assert_eq!(read_token_account(&token_account_bytes()), Ok(()));
    assert_eq!(read_token_account(&vec![0; 100]), Err(HandlerError::Program(INVALID_ACCOUNT_DATA)));
    assert_eq!(read_token_account(&vec![0; 355]), Err(HandlerError::Program(INVALID_ACCOUNT_DATA)));
    assert_eq!(read_mint(&mint_bytes()), Ok(()));
    assert_eq!(read_mint(&vec![1; 81]), Err(HandlerError::Program(INVALID_ACCOUNT_DATA)));
}

#[test]
fn deposit_instruction_layout() {
    let mut accounts = lifecycle();
    let inv = accounts.deposit_confidential(0x0102_0304_0506_0708, 6).unwrap();
    assert_eq!(inv.instruction.program_id, TP);
    assert_eq!(inv.instruction.accounts, vec![w(key(1)), r(key(2)), s(key(3))]);
    assert_eq!(inv.instruction.data, vec![27, 5, 8, 7, 6, 5, 4, 3, 2, 1, 6]);
    assert_eq!(inv.account_infos, vec![key(1), key(2), key(3), TP]);
}

#[test]
fn handlers_refuse_other_programs() {
    let mut accounts = lifecycle();
    accounts.token_program = key(8);
    assert_eq!(accounts.deposit_confidential(1, 2), Err(HandlerError::Program(INCORRECT_PROGRAM_ID)));
    assert_eq!(accounts.apply_pending_balance(1, [0; 36]), Err(HandlerError::Program(INCORRECT_PROGRAM_ID)));
    assert_eq!(approval(key(8)).approve_account(), Err(HandlerError::Program(INCORRECT_PROGRAM_ID)));
    assert_eq!(configure(key(8)).configure_account([0; 36], 1), Err(HandlerError::Program(INCORRECT_PROGRAM_ID)));
}

#[test]
fn approve_account_instruction_layout() {
    let inv = approval(TP).approve_account().unwrap();
    assert_eq!(
        inv,
        Invocation {
            instruction: RawInstruction { program_id: TP, accounts: vec![w(key(1)), r(key(2)), s(key(5))], data: vec![27, 3] },
            account_infos: vec![key(1), key(2), key(5), TP],
        }
    );
}

#[test]
fn configure_account_instruction_layout() {
    let inv = configure(TP).configure_account([9; 36], 65536).unwrap();
    assert_eq!(inv.instruction.accounts, vec![w(key(1)), r(key(2)), r(key(4)), s(key(3))]);
    let mut data = vec![27, 2];
    data.extend_from_slice(&[9; 36]);
    data.extend_from_slice(&65536u64.to_le_bytes());
    data.push(0);
    assert_eq!(inv.instruction.data, data);
    assert_eq!(inv.account_infos, vec![key(1), key(2), key(4), key(3), TP]);
}

#[test]
fn apply_pending_balance_instruction_layout() {
    let inv = apply_pending_balance(&TP, &key(1), &token_account_bytes(), &key(3), 3, [5; 36]).unwrap();
    assert_eq!(inv.instruction.accounts, vec![w(key(1)), s(key(3))]);
    let mut data = vec![27, 8];
    data.extend_from_slice(&3u64.to_le_bytes());
    data.extend_from_slice(&[5; 36]);
    assert_eq!(inv.instruction.data, data);
    assert_eq!(inv.account_infos, vec![key(1), key(3), TP]);
}

#[test]
fn lifecycle_deposit_then_apply() {
    let mut accounts = lifecycle();
    let deposit = accounts.deposit_confidential(250, 2).unwrap();
    let apply = accounts.apply_pending_balance(1, [4; 36]).unwrap();
    assert_eq!(deposit.instruction.data[1], 5);
    assert_eq!(apply.instruction.data[1], 8);
    assert_eq!(apply, apply_pending_balance(&TP, &key(1), &token_account_bytes(), &key(3), 1, [4; 36]).unwrap());
}

#[test]
fn lifecycle_checks_accounts_first() {
    let mut accounts = lifecycle();
    accounts.token_account_data = vec![0; 10];
    assert_eq!(accounts.deposit_confidential(1, 2), Err(HandlerError::Program(INVALID_ACCOUNT_DATA)));
    assert_eq!(accounts.apply_pending_balance(1, [0; 36]), Err(HandlerError::Program(INVALID_ACCOUNT_DATA)));
    let mut accounts = lifecycle();
    accounts.mint_data = vec![0; 10];
    assert_eq!(accounts.deposit_confidential(1, 2), Err(HandlerError::Program(INVALID_ACCOUNT_DATA)));
    // applying does not read the mint
    assert!(accounts.apply_pending_balance(1, [0; 36]).is_ok());
}

#[test]
fn transfer_instruction_layout() {
    let mut accounts = transfer();
    let inv = accounts.transfer_confidential([6; 36], [8; 64], [9; 64]).unwrap();
    assert_eq!(inv.instruction.accounts, vec![w(key(1)), r(key(2)), w(key(7)), r(key(4)), r(key(5)), r(key(6)), s(key(3))]);
    let mut data = vec![27, 7];
    data.extend_from_slice(&[6; 36]);
    data.extend_from_slice(&[8; 64]);
    data.extend_from_slice(&[9; 64]);
    data.extend_from_slice(&[0, 0, 0]);
    assert_eq!(inv.instruction.data, data);
    assert_eq!(inv.account_infos, vec![key(1), key(2), key(7), key(4), key(5), key(6), key(3), TP]);
}

#[test]
fn confidential_transfer_checks_both_accounts() {
    let mut accounts = transfer();
    accounts.destination_data = vec![];
    assert_eq!(accounts.transfer_confidential([6; 36], [8; 64], [9; 64]), Err(HandlerError::Program(INVALID_ACCOUNT_DATA)));
}

#[test]
fn apply_then_withdraw_order_and_layout() {
    let mut accounts = withdrawal();
    let steps = accounts.apply_then_withdraw_confidential(2, [1; 36], 77, 4, [6; 36]).unwrap();
    assert_eq!(steps.len(), 2);
    assert_eq!(steps[0], apply_pending_balance(&TP, &key(1), &token_account_bytes(), &key(3), 2, [1; 36]).unwrap());
    assert_eq!(steps[1].instruction.accounts, vec![w(key(1)), r(key(2)), r(key(5)), r(key(6)), s(key(3))]);
    let mut data = vec![27, 6];
    data.extend_from_slice(&77u64.to_le_bytes());
    data.push(4);
    data.extend_from_slice(&[6; 36]);
    data.extend_from_slice(&[0, 0]);
    assert_eq!(steps[1].instruction.data, data);
    assert_eq!(steps[1].account_infos, vec![key(1), key(2), key(5), key(6), key(3), TP]);
}

#[test]
fn apply_then_withdraw_refuses_bad_mint() {
    let mut accounts = withdrawal();
    accounts.mint_data = vec![0; 3];
    assert_eq!(
        accounts.apply_then_withdraw_confidential(2, [1; 36], 77, 4, [6; 36]),
        Err(HandlerError::Program(INVALID_ACCOUNT_DATA))
    );
}
