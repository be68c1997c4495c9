//! Properties of the program as a whole: what its transfers charge, which
//! mints it accepts, and how the handlers agree with one another.

use vstd::prelude::*;
use vstd::arithmetic::div_mod::lemma_div_is_ordered;
use crate::extension::{MintExtension, all_supported, is_supported_code, supported_codes};
use crate::fee::{FeeTier, TransferFeeSchedule, raw_fee, tier_fee, fee_due};
use crate::instructions::assert_supported_mint::AssertSupportedMint;
use crate::instructions::permanent_delegate::PermanentDelegateSeize;
use crate::instructions::mint_with_fee::{declarative_mint_extensions, fee_mint_extensions};
use crate::instructions::create_seizable_mint::seizable_mint_extensions;
use crate::instructions::confidential_fee_mint::confidential_fee_mint_extensions;
use crate::token::{mint_extension_type_codes, mint_transfer_fee_config, mint_unpack_result};
use crate::cpi::{AccountStateKind, CpiPlan, RawInstruction, TokenCpi};
use crate::error::{HandlerError, MintError};
use crate::instructions::mint_with_fee::CreateMintWithFee;
use crate::instructions::confidential_fee_mint::CreateConfidentialFeeMint;
use crate::instructions::create_seizable_mint::CreateSeizableMint;
use crate::token::mint_codes_read;

verus! {

/// The type tags of a list of extensions.
pub open spec fn codes_of(extensions: Seq<MintExtension>) -> Seq<u16> {
    extensions.map_values(|e: MintExtension| e.code())
}

/// A transfer never pays more than the maximum fee of the setting in force.
pub proof fn fee_never_exceeds_maximum(tier: FeeTier, amount: u64)
    ensures
        tier_fee(tier, amount) matches Some(fee) ==> fee <= tier.maximum_fee,
{
}

/// With a rate of at most 100%, the fee is always computed (never
/// overflows) and never exceeds the amount transferred.
pub proof fn fee_within_amount(tier: FeeTier, amount: u64)
    requires
        tier.basis_points <= crate::fee::MAX_FEE_BASIS_POINTS,
    ensures
        tier_fee(tier, amount) is Some,
        tier_fee(tier, amount)->Some_0 <= amount,
{
    let a = amount as int;
    let b = tier.basis_points as int;
    assert(a * b <= a * 10000) by (nonlinear_arith)
        requires b <= 10000, a >= 0;
    lemma_div_is_ordered(a * b + 9999, a * 10000 + 9999, 10000);
    assert((a * 10000 + 9999) / 10000 == a) by (nonlinear_arith)
        requires a >= 0;
    assert(raw_fee(tier, amount) <= a);
}

/// A larger transfer never pays a smaller fee under the same setting: if the
/// larger one's fee can be computed, so can the smaller one's, and it is no
/// larger.
pub proof fn fee_is_monotone(tier: FeeTier, smaller: u64, larger: u64)
    requires
        smaller <= larger,
        tier_fee(tier, larger) is Some,
    ensures
        tier_fee(tier, smaller) is Some,
        tier_fee(tier, smaller)->Some_0 <= tier_fee(tier, larger)->Some_0,
{
    if tier.basis_points != 0 && smaller != 0 {
        let b = tier.basis_points as int;
        assert(smaller * b <= larger * b) by (nonlinear_arith)
            requires smaller <= larger, b >= 0;
        lemma_div_is_ordered(smaller * b + 9999, larger * b + 9999, 10000);
    }
}

/// The fee setting in force switches from the older to the newer one
/// exactly at the newer setting's epoch.
pub proof fn newer_fee_applies_from_its_epoch(schedule: TransferFeeSchedule, epoch: u64, amount: u64)
    ensures
        epoch >= schedule.newer.epoch ==> schedule.fee_at(epoch, amount) == tier_fee(schedule.newer, amount),
        epoch < schedule.newer.epoch ==> schedule.fee_at(epoch, amount) == tier_fee(schedule.older, amount),
{
}

/// A mint without a transfer fee configuration is charged no fee.
pub proof fn no_fee_without_configuration(error: u64, epoch: u64, amount: u64)
    ensures
        fee_due(Err(error), epoch, amount) == Ok::<u64, crate::error::MintError>(0),
{
}

/// The checked transfer goes ahead only for a mint that unpacks, whose
/// extensions can all be listed and are all on the allowlist; and the fee it
/// carries is the mint's epoch fee, or nothing when the mint has no
/// transfer fee configuration.
pub proof fn checked_transfer_only_for_supported_mints(accounts: AssertSupportedMint, amount: u64, decimal: u8, epoch: u64)
    requires
        accounts.outcome(amount, decimal, epoch) is Ok,
    ensures
        mint_unpack_result(accounts.mint_data@) is Ok,
        mint_extension_type_codes(accounts.mint_data@) is Ok,
        all_supported(mint_extension_type_codes(accounts.mint_data@)->Ok_0),
        accounts.outcome(amount, decimal, epoch)->Ok_0 matches TokenCpi::TransferCheckedWithFee { fee, amount: a, .. }
            && a == amount
            && (mint_transfer_fee_config(accounts.mint_data@) matches Ok(s)
                ==> s.fee_at(epoch, amount) == Some(fee))
            && (mint_transfer_fee_config(accounts.mint_data@) is Err ==> fee == 0),
{
}

/// A mint carrying an extension off the allowlist is refused with
/// `UnsupportedExtension`, whatever the amount.
pub proof fn unsupported_extension_is_refused(accounts: AssertSupportedMint, amount: u64, decimal: u8, epoch: u64, i: int)
    requires
        mint_unpack_result(accounts.mint_data@) is Ok,
        mint_extension_type_codes(accounts.mint_data@) is Ok,
        0 <= i < mint_extension_type_codes(accounts.mint_data@)->Ok_0.len(),
        !is_supported_code(mint_extension_type_codes(accounts.mint_data@)->Ok_0[i]),
    ensures
        accounts.outcome(amount, decimal, epoch)
            == Err::<TokenCpi, crate::error::HandlerError>(crate::error::HandlerError::Mint(crate::error::MintError::UnsupportedExtension)),
{
}

/// A seizure goes ahead only for a mint with a transfer fee configuration.
pub proof fn seizure_needs_fee_configuration(accounts: PermanentDelegateSeize, amount: u64, decimals: u8, epoch: u64)
    requires
        accounts.outcome(amount, decimals, epoch) is Ok,
    ensures
        mint_unpack_result(accounts.mint_data@) is Ok,
        mint_transfer_fee_config(accounts.mint_data@) is Ok,
{
}

/// The checked transfer and the seizure charge the same fee for the same
/// mint, amount and epoch.
pub proof fn transfer_and_seizure_charge_alike(
    transfer: AssertSupportedMint,
    seizure: PermanentDelegateSeize,
    amount: u64,
    decimals: u8,
    epoch: u64,
)
    requires
        transfer.mint_data@ == seizure.mint_data@,
        transfer.outcome(amount, decimals, epoch) is Ok,
        seizure.outcome(amount, decimals, epoch) is Ok,
    ensures
        transfer.outcome(amount, decimals, epoch)->Ok_0->TransferCheckedWithFee_fee
            == seizure.outcome(amount, decimals, epoch)->Ok_0->TransferCheckedWithFee_fee,
{
}

/// The mints this program creates with a transfer fee, and declaratively,
/// carry only extensions on the allowlist.
pub proof fn created_fee_and_declarative_mints_are_supported()
    ensures
        all_supported(codes_of(fee_mint_extensions())),
        all_supported(codes_of(declarative_mint_extensions())),
{
    assert(supported_codes() == seq![3u16, 18u16, 1u16]);
    assert(codes_of(fee_mint_extensions()) == seq![3u16, 1u16]);
    assert(codes_of(declarative_mint_extensions()) == seq![3u16, 18u16]);
    assert(supported_codes()[0] == 3u16);
    assert(supported_codes()[1] == 18u16);
    assert(supported_codes()[2] == 1u16);
}

/// The seizable mint and the confidential fee mint carry extensions off the
/// allowlist, so the checked transfer refuses them.
pub proof fn created_seizable_and_confidential_mints_are_unsupported()
    ensures
        !all_supported(codes_of(seizable_mint_extensions())),
        !all_supported(codes_of(confidential_fee_mint_extensions())),
{
    assert(codes_of(seizable_mint_extensions())[2] == 6u16);
    assert(!supported_codes().contains(6u16)) by {
        assert(supported_codes() == seq![3u16, 18u16, 1u16]);
    }
    assert(codes_of(confidential_fee_mint_extensions())[1] == 16u16);
    assert(!supported_codes().contains(16u16)) by {
        assert(supported_codes() == seq![3u16, 18u16, 1u16]);
    }
}

/// The allowlist accepts exactly the tags of the close authority (3), the
/// metadata pointer (18) and the transfer fee configuration (1).
pub proof fn allowlist_is_exactly_three_tags(code: u16)
    ensures
        is_supported_code(code) <==> (code == 3 || code == 18 || code == 1),
{
    assert(supported_codes() == seq![3u16, 18u16, 1u16]);
    if code == 3 || code == 18 || code == 1 {
        if code == 3 { assert(supported_codes()[0] == code); }
        if code == 18 { assert(supported_codes()[1] == code); }
        if code == 1 { assert(supported_codes()[2] == code); }
    }
}

/// A mint carrying any extension tag other than 1, 3 and 18 is refused by
/// the checked transfer with `UnsupportedExtension`, whatever the amount,
/// decimals and epoch.
pub proof fn off_allowlist_tag_is_refused(accounts: AssertSupportedMint, amount: u64, decimal: u8, epoch: u64, i: int)
    requires
        mint_codes_read(accounts.mint_data@) is Ok,
        0 <= i < mint_codes_read(accounts.mint_data@)->Ok_0.len(),
        ({
            let c = mint_codes_read(accounts.mint_data@)->Ok_0[i];
            c != 1 && c != 3 && c != 18
        }),
    ensures
        accounts.outcome(amount, decimal, epoch)
            == Err::<TokenCpi, HandlerError>(HandlerError::Mint(MintError::UnsupportedExtension)),
{
    allowlist_is_exactly_three_tags(mint_codes_read(accounts.mint_data@)->Ok_0[i]);
}

/// A seizure goes ahead exactly when the mint's fee configuration reads and
/// its epoch fee can be computed, and then moves `amount` from source to
/// destination on the permanent delegate's authority, carrying that fee,
/// zero included.
pub proof fn seizure_goes_ahead_with_its_fee(
    accounts: PermanentDelegateSeize,
    config: Result<TransferFeeSchedule, u64>,
    amount: u64,
    decimals: u8,
    epoch: u64,
)
    ensures
        accounts.decide(config, amount, decimals, epoch) is Ok
            <==> (config is Ok && tier_fee(config->Ok_0.tier_at(epoch), amount) is Some),
        config is Ok && tier_fee(config->Ok_0.tier_at(epoch), amount) is Some ==>
            accounts.decide(config, amount, decimals, epoch) == Ok::<TokenCpi, HandlerError>(TokenCpi::TransferCheckedWithFee {
                program_id: accounts.token_program,
                token_program: accounts.token_program,
                source: accounts.source,
                mint: accounts.mint,
                destination: accounts.destination,
                authority: accounts.permanent_delegate,
                amount,
                decimals,
                fee: tier_fee(config->Ok_0.tier_at(epoch), amount)->Some_0,
            }),
{
}

/// The transfer fee call of a mint created with a fee names the payer as
/// both fee authorities and carries the rate and cap exactly as given; the
/// mint is initialized last with the payer as mint authority and no freeze
/// authority.
pub proof fn fee_mint_carries_fee_arguments(
    accounts: CreateMintWithFee,
    plan: CpiPlan,
    decimals: u8,
    basis_points: u16,
    maximum_fee: u64,
    lamports: u64,
    space: usize,
)
    requires
        plan.calls@ == accounts.calls(decimals, basis_points, maximum_fee, lamports, space),
    ensures
        plan.calls@.len() == 4,
        plan.calls@[0] == (TokenCpi::CreateAccount {
            program_id: accounts.token_program,
            from: accounts.payer,
            to: accounts.mint,
            lamports,
            space: space as u64,
            owner: accounts.token_program,
        }),
        plan.calls@[2] == (TokenCpi::InitializeTransferFee {
            program_id: accounts.token_program,
            token_program: accounts.token_program,
            mint: accounts.mint,
            transfer_fee_config_authority: Some(accounts.payer),
            withdraw_withheld_authority: Some(accounts.payer),
            basis_points,
            maximum_fee,
        }),
        plan.calls@[3] == (TokenCpi::InitializeMint2 {
            program_id: accounts.token_program,
            mint: accounts.mint,
            decimals,
            mint_authority: accounts.payer,
            freeze_authority: None,
        }),
{
}

/// Once its size is known, the confidential fee mint's plan creates the
/// account and then sets the transfer fee with the payer as both fee
/// authorities and the given rate and cap.
pub proof fn confidential_fee_mint_sets_fee_authorities(
    accounts: CreateConfidentialFeeMint,
    plan: CpiPlan,
    decimals: u8,
    basis_points: u16,
    maximum_fee: u64,
    lamports: u64,
    space: usize,
    init: Result<RawInstruction, u64>,
    fee_config: Result<RawInstruction, u64>,
)
    requires
        accounts.follows(plan, decimals, basis_points, maximum_fee, lamports, Ok(space), init, fee_config),
    ensures
        plan.calls@.len() >= 2,
        plan.calls@[0] == (TokenCpi::CreateAccount {
            program_id: accounts.system_program,
            from: accounts.payer,
            to: accounts.mint,
            lamports,
            space: space as u64,
            owner: accounts.token_program,
        }),
        plan.calls@[1] == (TokenCpi::InitializeTransferFee {
            program_id: accounts.token_program,
            token_program: accounts.token_program,
            mint: accounts.mint,
            transfer_fee_config_authority: Some(accounts.payer),
            withdraw_withheld_authority: Some(accounts.payer),
            basis_points,
            maximum_fee,
        }),
{
    if init is Ok {
        assert(plan.calls@[0] == plan.calls@.subrange(0, 2)[0]);
        assert(plan.calls@[1] == plan.calls@.subrange(0, 2)[1]);
    }
}

/// Once its size is known, the seizable mint's plan creates the account,
/// sets the close authority, points the metadata at the mint, makes new
/// accounts start frozen, sets the transfer fee with the payer as both fee
/// authorities and the given rate and cap, and names the permanent delegate.
pub proof fn seizable_mint_sets_fee_authorities(
    accounts: CreateSeizableMint,
    plan: CpiPlan,
    decimals: u8,
    basis_points: u16,
    maximum_fee: u64,
    lamports: u64,
    space: usize,
    init: Result<RawInstruction, u64>,
)
    requires
        accounts.follows(plan, decimals, basis_points, maximum_fee, lamports, Ok(space), init),
    ensures
        plan.calls@.len() >= 6,
        plan.calls@[3] == (TokenCpi::InitializeDefaultAccountState {
            program_id: accounts.token_program,
            token_program: accounts.token_program,
            mint: accounts.mint,
            state: AccountStateKind::Frozen,
        }),
        plan.calls@[4] == (TokenCpi::InitializeTransferFee {
            program_id: accounts.token_program,
            token_program: accounts.token_program,
            mint: accounts.mint,
            transfer_fee_config_authority: Some(accounts.payer),
            withdraw_withheld_authority: Some(accounts.payer),
            basis_points,
            maximum_fee,
        }),
        plan.calls@[5] == (TokenCpi::InitializePermanentDelegate {
            program_id: accounts.token_program,
            token_program: accounts.token_program,
            mint: accounts.mint,
            delegate: accounts.permanent_delegate,
        }),
{
    if init is Ok {
        assert(plan.calls@[3] == plan.calls@.subrange(0, 6)[3]);
        assert(plan.calls@[4] == plan.calls@.subrange(0, 6)[4]);
        assert(plan.calls@[5] == plan.calls@.subrange(0, 6)[5]);
    }
}

} // verus!
