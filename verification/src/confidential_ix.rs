//! Trusted wrappers over the Token-2022 confidential transfer instruction
//! builders. Each takes plain addresses and ciphertext bytes, calls the
//! builder, and hands back the instruction it built as a `RawInstruction`.
//! Proofs are always read from pre-verified context state accounts.

use vstd::prelude::*;
use crate::constants::{TOKEN_2022_PROGRAM_ID, SYSTEM_PROGRAM_ID};
use crate::cpi::{Address, AccountMetaView, RawInstruction, readonly, writable};
use crate::error::{INCORRECT_PROGRAM_ID, INVALID_ARGUMENT};
use solana_pubkey::Pubkey;
use spl_token_2022_interface::extension::confidential_transfer::instruction as ct;
use spl_token_2022_interface::extension::confidential_transfer_fee::instruction as ct_fee;
use solana_zk_sdk::encryption::pod::elgamal::PodElGamalPubkey;
use spl_token_confidential_transfer_proof_extraction::instruction::ProofLocation;

verus! {

/// Instruction tag of Token-2022's confidential transfer extension.
pub const CONFIDENTIAL_TRANSFER_EXTENSION_TAG: u8 = 27;
/// Instruction tag of Token-2022's confidential transfer fee extension.
pub const CONFIDENTIAL_TRANSFER_FEE_EXTENSION_TAG: u8 = 37;

/// The eight little-endian bytes of `x`.
pub open spec fn le_u64(x: u64) -> Seq<u8> {
    seq![
        (x % 0x100) as u8,
        ((x / 0x100) % 0x100) as u8,
        ((x / 0x1_0000) % 0x100) as u8,
        ((x / 0x100_0000) % 0x100) as u8,
        ((x / 0x1_0000_0000) % 0x100) as u8,
        ((x / 0x100_0000_0000) % 0x100) as u8,
        ((x / 0x1_0000_0000_0000) % 0x100) as u8,
        ((x / 0x100_0000_0000_0000) % 0x100) as u8,
    ]
}

/// The 32 bytes stored for an optional key: the key, or zeros for none.
pub open spec fn optional_key_bytes(key: Option<Address>) -> Seq<u8> {
    match key {
        Some(k) => k@,
        None => SYSTEM_PROGRAM_ID@,
    }
}

/// Whether an optional key can be stored: a present key must not be all
/// zeros, which stands for none.
pub open spec fn storable_key(key: Option<Address>) -> bool {
    key != Some(SYSTEM_PROGRAM_ID)
}

/// Whether `ix` is the instruction for `program` with exactly these
/// accounts and this data.
pub open spec fn is_instruction(ix: RawInstruction, program: Address, accounts: Seq<AccountMetaView>, data: Seq<u8>) -> bool {
    &&& ix.program_id == program
    &&& ix.accounts@ == accounts
    &&& ix.data@ == data
}

/// Whether a builder that checks only the program id behaved as it does:
/// it fails with `IncorrectProgramId` exactly when the program is not
/// Token-2022, and otherwise builds the given instruction.
pub open spec fn built_for_token_2022(
    r: Result<RawInstruction, u64>,
    program: Address,
    accounts: Seq<AccountMetaView>,
    data: Seq<u8>,
) -> bool {
    &&& (r is Ok <==> program == TOKEN_2022_PROGRAM_ID)
    &&& r is Err ==> r->Err_0 == INCORRECT_PROGRAM_ID
    &&& r is Ok ==> is_instruction(r->Ok_0, program, accounts, data)
}

/// Data of the confidential `InitializeMint` instruction.
pub open spec fn initialize_mint_data(authority: Option<Address>, auto_approve: bool, auditor: Option<Address>) -> Seq<u8> {
    seq![CONFIDENTIAL_TRANSFER_EXTENSION_TAG, 0u8] + optional_key_bytes(authority)
        + seq![if auto_approve { 1u8 } else { 0u8 }] + optional_key_bytes(auditor)
}

/// Data of the `InitializeConfidentialTransferFeeConfig` instruction.
pub open spec fn initialize_fee_config_data(authority: Option<Address>, elgamal_pubkey: [u8; 32]) -> Seq<u8> {
    seq![CONFIDENTIAL_TRANSFER_FEE_EXTENSION_TAG, 0u8] + optional_key_bytes(authority) + elgamal_pubkey@
}

/// Data of the confidential `ConfigureAccount` instruction with the proof in
/// a context state account.
pub open spec fn configure_account_data(decryptable_zero_balance: [u8; 36], maximum_pending_balance_credit_counter: u64) -> Seq<u8> {
    seq![CONFIDENTIAL_TRANSFER_EXTENSION_TAG, 2u8] + decryptable_zero_balance@
        + le_u64(maximum_pending_balance_credit_counter) + seq![0u8]
}

/// Data of the confidential `ApproveAccount` instruction.
pub open spec fn approve_account_data() -> Seq<u8> {
    seq![CONFIDENTIAL_TRANSFER_EXTENSION_TAG, 3u8]
}

/// Data of the confidential `Deposit` instruction.
pub open spec fn deposit_data(amount: u64, decimals: u8) -> Seq<u8> {
    seq![CONFIDENTIAL_TRANSFER_EXTENSION_TAG, 5u8] + le_u64(amount) + seq![decimals]
}

/// Data of the confidential `Withdraw` instruction with both proofs in
/// context state accounts.
pub open spec fn withdraw_data(amount: u64, decimals: u8, new_balance: [u8; 36]) -> Seq<u8> {
    seq![CONFIDENTIAL_TRANSFER_EXTENSION_TAG, 6u8] + le_u64(amount) + seq![decimals]
        + new_balance@ + seq![0u8, 0u8]
}

/// Data of the confidential `Transfer` instruction with all three proofs in
/// context state accounts.
pub open spec fn transfer_data(new_balance: [u8; 36], lo: [u8; 64], hi: [u8; 64]) -> Seq<u8> {
    seq![CONFIDENTIAL_TRANSFER_EXTENSION_TAG, 7u8] + new_balance@ + lo@ + hi@ + seq![0u8, 0u8, 0u8]
}

/// Data of the confidential `ApplyPendingBalance` instruction.
pub open spec fn apply_pending_balance_data(expected_counter: u64, new_balance: [u8; 36]) -> Seq<u8> {
    seq![CONFIDENTIAL_TRANSFER_EXTENSION_TAG, 8u8] + le_u64(expected_counter) + new_balance@
}

/// Builds the confidential transfer `InitializeMint` instruction. Calls
/// `confidential_transfer::instruction::initialize_mint`. Claimed, as its
/// source shows: it fails with `IncorrectProgramId` when the program is not
/// Token-2022, then with `InvalidArgument` when the authority or the auditor
/// key is present but all zeros; otherwise the instruction names the mint as
/// its one writable account and carries the authority, the auto-approve flag
/// and the auditor key.
#[verifier::external_body]
pub(crate) fn build_confidential_initialize_mint(
    token_program: &Address,
    mint: &Address,
    authority: Option<Address>,
    auto_approve_new_accounts: bool,
    auditor_elgamal_pubkey: Option<[u8; 32]>,
) -> (r: Result<RawInstruction, u64>)
    ensures
        r is Ok <==> (*token_program == TOKEN_2022_PROGRAM_ID && storable_key(authority) && storable_key(auditor_elgamal_pubkey)),
        r is Err ==> r->Err_0 == if *token_program != TOKEN_2022_PROGRAM_ID { INCORRECT_PROGRAM_ID } else { INVALID_ARGUMENT },
        r is Ok ==> is_instruction(r->Ok_0, *token_program, seq![writable(*mint, false)], initialize_mint_data(authority, auto_approve_new_accounts, auditor_elgamal_pubkey)),
{
    let k = |a: &Address| Pubkey::new_from_array(*a);
    let ix = ct::initialize_mint(&k(token_program), &k(mint), authority.map(Pubkey::new_from_array),
        auto_approve_new_accounts, auditor_elgamal_pubkey.map(PodElGamalPubkey::from));
    ix.map(|i| RawInstruction { program_id: i.program_id.to_bytes(), accounts: i.accounts.iter()
        .map(|m| AccountMetaView { key: m.pubkey.to_bytes(), is_signer: m.is_signer, is_writable: m.is_writable })
        .collect(), data: i.data }).map_err(u64::from)
}

/// Builds the `InitializeConfidentialTransferFeeConfig` instruction. Calls
/// `confidential_transfer_fee::instruction::initialize_confidential_transfer_fee_config`.
/// Claimed, as its source shows: it fails with `IncorrectProgramId` when the
/// program is not Token-2022, then with `InvalidArgument` when the authority
/// is present but all zeros; otherwise the instruction names the mint as its
/// one writable account and carries the authority and the ElGamal key of the
/// withdraw-withheld authority.
#[verifier::external_body]
pub(crate) fn build_initialize_confidential_fee_config(
    token_program: &Address,
    mint: &Address,
    authority: Option<Address>,
    withdraw_withheld_authority_elgamal_pubkey: &[u8; 32],
) -> (r: Result<RawInstruction, u64>)
    ensures
        r is Ok <==> (*token_program == TOKEN_2022_PROGRAM_ID && storable_key(authority)),
        r is Err ==> r->Err_0 == if *token_program != TOKEN_2022_PROGRAM_ID { INCORRECT_PROGRAM_ID } else { INVALID_ARGUMENT },
        r is Ok ==> is_instruction(r->Ok_0, *token_program, seq![writable(*mint, false)], initialize_fee_config_data(authority, *withdraw_withheld_authority_elgamal_pubkey)),
{
    let k = |a: &Address| Pubkey::new_from_array(*a);
    let ix = ct_fee::initialize_confidential_transfer_fee_config(&k(token_program), &k(mint),
        authority.map(Pubkey::new_from_array), &PodElGamalPubkey::from(*withdraw_withheld_authority_elgamal_pubkey));
    ix.map(|i| RawInstruction { program_id: i.program_id.to_bytes(), accounts: i.accounts.iter()
        .map(|m| AccountMetaView { key: m.pubkey.to_bytes(), is_signer: m.is_signer, is_writable: m.is_writable })
        .collect(), data: i.data }).map_err(u64::from)
}

/// Builds the confidential `ConfigureAccount` instruction with its pubkey
/// validity proof read from a context state account. Calls
/// `confidential_transfer::instruction::inner_configure_account` with no
/// multisig signers. Claimed, as its source shows: it fails with
/// `IncorrectProgramId` exactly when the program is not Token-2022;
/// otherwise its accounts are the token account (writable), the mint, the
/// proof context and the authority (signer), and its data carries the
/// decryptable zero balance, the counter limit and a zero proof offset.
#[verifier::external_body]
pub(crate) fn build_configure_account(
    token_program: &Address,
    token_account: &Address,
    mint: &Address,
    decryptable_zero_balance: &[u8; 36],
    maximum_pending_balance_credit_counter: u64,
    authority: &Address,
    proof_context: &Address,
) -> (r: Result<RawInstruction, u64>)
    ensures
        built_for_token_2022(r, *token_program,
            seq![writable(*token_account, false), readonly(*mint, false), readonly(*proof_context, false), readonly(*authority, true)],
            configure_account_data(*decryptable_zero_balance, maximum_pending_balance_credit_counter)),
{
    let k = |a: &Address| Pubkey::new_from_array(*a);
    let ix = ct::inner_configure_account(&k(token_program), &k(token_account), &k(mint),
        &(*decryptable_zero_balance).into(), maximum_pending_balance_credit_counter, &k(authority), &[],
        ProofLocation::ContextStateAccount(&k(proof_context)));
    ix.map(|i| RawInstruction { program_id: i.program_id.to_bytes(), accounts: i.accounts.iter()
        .map(|m| AccountMetaView { key: m.pubkey.to_bytes(), is_signer: m.is_signer, is_writable: m.is_writable })
        .collect(), data: i.data }).map_err(u64::from)
}

/// Builds the confidential `ApproveAccount` instruction. Calls
/// `confidential_transfer::instruction::approve_account` with no multisig
/// signers. Claimed, as its source shows: it fails with `IncorrectProgramId`
/// exactly when the program is not Token-2022; otherwise its accounts are
/// the token account (writable), the mint and the authority (signer).
#[verifier::external_body]
pub(crate) fn build_approve_account(
    token_program: &Address,
    token_account: &Address,
    mint: &Address,
    authority: &Address,
) -> (r: Result<RawInstruction, u64>)
    ensures
        built_for_token_2022(r, *token_program,
            seq![writable(*token_account, false), readonly(*mint, false), readonly(*authority, true)],
            approve_account_data()),
{
    let k = |a: &Address| Pubkey::new_from_array(*a);
    let ix = ct::approve_account(&k(token_program), &k(token_account), &k(mint), &k(authority), &[]);
    ix.map(|i| RawInstruction { program_id: i.program_id.to_bytes(), accounts: i.accounts.iter()
        .map(|m| AccountMetaView { key: m.pubkey.to_bytes(), is_signer: m.is_signer, is_writable: m.is_writable })
        .collect(), data: i.data }).map_err(u64::from)
}

/// Builds the confidential `Deposit` instruction. Calls
/// `confidential_transfer::instruction::deposit` with no multisig signers.
/// Claimed, as its source shows: it fails with `IncorrectProgramId` exactly
/// when the program is not Token-2022; otherwise its accounts are the token
/// account (writable), the mint and the authority (signer), and its data
/// carries the amount and the decimals.
#[verifier::external_body]
pub(crate) fn build_deposit(
    token_program: &Address,
    token_account: &Address,
    mint: &Address,
    amount: u64,
    decimals: u8,
    authority: &Address,
) -> (r: Result<RawInstruction, u64>)
    ensures
        built_for_token_2022(r, *token_program,
            seq![writable(*token_account, false), readonly(*mint, false), readonly(*authority, true)],
            deposit_data(amount, decimals)),
{
    let k = |a: &Address| Pubkey::new_from_array(*a);
    let ix = ct::deposit(&k(token_program), &k(token_account), &k(mint), amount, decimals, &k(authority), &[]);
    ix.map(|i| RawInstruction { program_id: i.program_id.to_bytes(), accounts: i.accounts.iter()
        .map(|m| AccountMetaView { key: m.pubkey.to_bytes(), is_signer: m.is_signer, is_writable: m.is_writable })
        .collect(), data: i.data }).map_err(u64::from)
}

/// Builds the confidential `Withdraw` instruction with both proofs read from
/// context state accounts. Calls
/// `confidential_transfer::instruction::inner_withdraw` with no multisig
/// signers. Claimed, as its source shows: it fails with `IncorrectProgramId`
/// exactly when the program is not Token-2022; otherwise its accounts are
/// the token account (writable), the mint, the equality proof context, the
/// range proof context and the authority (signer), and its data carries the
/// amount, the decimals, the new decryptable balance and zero proof offsets.
#[verifier::external_body]
pub(crate) fn build_withdraw(
    token_program: &Address,
    token_account: &Address,
    mint: &Address,
    amount: u64,
    decimals: u8,
    new_decryptable_available_balance: &[u8; 36],
    authority: &Address,
    equality_proof_context: &Address,
    range_proof_context: &Address,
) -> (r: Result<RawInstruction, u64>)
    ensures
        built_for_token_2022(r, *token_program,
            seq![writable(*token_account, false), readonly(*mint, false), readonly(*equality_proof_context, false),
                readonly(*range_proof_context, false), readonly(*authority, true)],
            withdraw_data(amount, decimals, *new_decryptable_available_balance)),
{
    let k = |a: &Address| Pubkey::new_from_array(*a);
    let ix = ct::inner_withdraw(&k(token_program), &k(token_account), &k(mint), amount, decimals,
        &(*new_decryptable_available_balance).into(), &k(authority), &[],
        ProofLocation::ContextStateAccount(&k(equality_proof_context)), ProofLocation::ContextStateAccount(&k(range_proof_context)));
    ix.map(|i| RawInstruction { program_id: i.program_id.to_bytes(), accounts: i.accounts.iter()
        .map(|m| AccountMetaView { key: m.pubkey.to_bytes(), is_signer: m.is_signer, is_writable: m.is_writable })
        .collect(), data: i.data }).map_err(u64::from)
}

/// Builds the confidential `Transfer` instruction with its three proofs read
/// from context state accounts. Calls
/// `confidential_transfer::instruction::inner_transfer` with no multisig
/// signers. Claimed, as its source shows: it fails with `IncorrectProgramId`
/// exactly when the program is not Token-2022; otherwise its accounts are
/// the source (writable), the mint, the destination (writable), the three
/// proof contexts and the authority (signer), and its data carries the new
/// source balance, the two auditor ciphertexts and zero proof offsets.
#[verifier::external_body]
pub(crate) fn build_transfer(
    token_program: &Address,
    source: &Address,
    mint: &Address,
    destination: &Address,
    new_source_decryptable_available_balance: &[u8; 36],
    auditor_ciphertext_lo: &[u8; 64],
    auditor_ciphertext_hi: &[u8; 64],
    authority: &Address,
    equality_proof_context: &Address,
    ciphertext_validity_proof_context: &Address,
    range_proof_context: &Address,
) -> (r: Result<RawInstruction, u64>)
    ensures
        built_for_token_2022(r, *token_program,
            seq![writable(*source, false), readonly(*mint, false), writable(*destination, false),
                readonly(*equality_proof_context, false), readonly(*ciphertext_validity_proof_context, false),
                readonly(*range_proof_context, false), readonly(*authority, true)],
            transfer_data(*new_source_decryptable_available_balance, *auditor_ciphertext_lo, *auditor_ciphertext_hi)),
{
    let k = |a: &Address| Pubkey::new_from_array(*a);
    let ix = ct::inner_transfer(&k(token_program), &k(source), &k(mint), &k(destination),
        &(*new_source_decryptable_available_balance).into(), &(*auditor_ciphertext_lo).into(), &(*auditor_ciphertext_hi).into(),
        &k(authority), &[], ProofLocation::ContextStateAccount(&k(equality_proof_context)),
        ProofLocation::ContextStateAccount(&k(ciphertext_validity_proof_context)), ProofLocation::ContextStateAccount(&k(range_proof_context)));
    ix.map(|i| RawInstruction { program_id: i.program_id.to_bytes(), accounts: i.accounts.iter()
        .map(|m| AccountMetaView { key: m.pubkey.to_bytes(), is_signer: m.is_signer, is_writable: m.is_writable })
        .collect(), data: i.data }).map_err(u64::from)
}

/// Builds the confidential `ApplyPendingBalance` instruction. Calls
/// `confidential_transfer::instruction::apply_pending_balance` with no
/// multisig signers. Claimed, as its source shows: it fails with
/// `IncorrectProgramId` exactly when the program is not Token-2022;
/// otherwise its accounts are the token account (writable) and the
/// authority (signer), and its data carries the expected credit counter and
/// the new decryptable balance.
#[verifier::external_body]
pub(crate) fn build_apply_pending_balance(
    token_program: &Address,
    token_account: &Address,
    expected_pending_balance_credit_counter: u64,
    new_decryptable_available_balance: &[u8; 36],
    authority: &Address,
) -> (r: Result<RawInstruction, u64>)
    ensures
        built_for_token_2022(r, *token_program,
            seq![writable(*token_account, false), readonly(*authority, true)],
            apply_pending_balance_data(expected_pending_balance_credit_counter, *new_decryptable_available_balance)),
{
    let k = |a: &Address| Pubkey::new_from_array(*a);
    let ix = ct::apply_pending_balance(&k(token_program), &k(token_account), expected_pending_balance_credit_counter,
        &(*new_decryptable_available_balance).into(), &k(authority), &[]);
    ix.map(|i| RawInstruction { program_id: i.program_id.to_bytes(), accounts: i.accounts.iter()
        .map(|m| AccountMetaView { key: m.pubkey.to_bytes(), is_signer: m.is_signer, is_writable: m.is_writable })
        .collect(), data: i.data }).map_err(u64::from)
}

} // verus!
