//! Trusted wrappers over the Token-2022 interface crate: reading mint and
//! token account data, and its fee and account-size arithmetic.

use vstd::prelude::*;
use crate::extension::MintExtension;
use crate::fee::{FeeTier, TransferFeeSchedule};
use spl_token_2022_interface::extension::{
    transfer_fee::{TransferFee, TransferFeeConfig},
    BaseStateWithExtensions, ExtensionType, StateWithExtensions,
};
use spl_token_2022_interface::state::{Account, Mint};

verus! {

/// What `StateWithExtensions::<Mint>::unpack` gives for `data`: success, or
/// the code of its `ProgramError`.
pub uninterp spec fn mint_unpack_result(data: Seq<u8>) -> Result<(), u64>;

/// What `StateWithExtensions::<Account>::unpack` gives for `data`: success,
/// or the code of its `ProgramError`.
pub uninterp spec fn token_account_unpack_result(data: Seq<u8>) -> Result<(), u64>;

/// What `get_extension_types` gives for a mint unpacked from `data`: the
/// type tags of its extensions in the order they are stored, or the code of
/// its `ProgramError`.
pub uninterp spec fn mint_extension_type_codes(data: Seq<u8>) -> Result<Seq<u16>, u64>;

/// What `get_extension::<TransferFeeConfig>` gives for a mint unpacked from
/// `data`: the two fee settings, or the code of its `ProgramError`.
pub uninterp spec fn mint_transfer_fee_config(data: Seq<u8>) -> Result<TransferFeeSchedule, u64>;

/// What `ExtensionType::try_calculate_account_len::<Mint>` gives for the
/// extensions: the account size in bytes, or the code of its `ProgramError`.
pub uninterp spec fn mint_account_len(extensions: Seq<MintExtension>) -> Result<usize, u64>;

/// The tags read from a mint's data: the unpack error, if unpacking fails;
/// otherwise what `get_extension_types` gives.
pub open spec fn mint_codes_read(data: Seq<u8>) -> Result<Seq<u16>, u64> {
    match mint_unpack_result(data) {
        Err(e) => Err(e),
        Ok(_) => mint_extension_type_codes(data),
    }
}

/// The transfer fee configuration read from a mint's data: the unpack
/// error, if unpacking fails; otherwise what
/// `get_extension::<TransferFeeConfig>` gives.
pub open spec fn mint_fee_config_read(data: Seq<u8>) -> Result<TransferFeeSchedule, u64> {
    match mint_unpack_result(data) {
        Err(e) => Err(e),
        Ok(_) => mint_transfer_fee_config(data),
    }
}

/// A list of tags, or an error code, taken by its view.
pub open spec fn codes_view(r: Result<Vec<u16>, u64>) -> Result<Seq<u16>, u64> {
    match r {
        Ok(v) => Ok(v@),
        Err(e) => Err(e),
    }
}

/// Unpacks `data` as a Token-2022 mint, keeping only whether it succeeded.
/// Calls `StateWithExtensions::<Mint>::unpack`. Claimed: the outcome is the
/// named `mint_unpack_result`, and data shorter than a mint (82 bytes) or of
/// exactly a multisig's length (355 bytes) is refused as invalid account
/// data, as `check_min_len_and_not_multisig` does first.
#[verifier::external_body]
pub(crate) fn unpack_mint(data: &[u8]) -> (r: Result<(), u64>)
    ensures
        r == mint_unpack_result(data@),
        data@.len() < 82 || data@.len() == 355 ==> r is Err && r->Err_0 == crate::error::INVALID_ACCOUNT_DATA,
{
    StateWithExtensions::<Mint>::unpack(data).map(|_| ()).map_err(u64::from)
}

/// Unpacks `data` as a Token-2022 token account, keeping only whether it
/// succeeded. Calls `StateWithExtensions::<Account>::unpack`. Claimed: the
/// outcome is the named `token_account_unpack_result`, and data shorter
/// than an account (165 bytes) or of a multisig's length (355 bytes) is
/// refused as invalid account data.
#[verifier::external_body]
pub(crate) fn unpack_token_account(data: &[u8]) -> (r: Result<(), u64>)
    ensures
        r == token_account_unpack_result(data@),
        data@.len() < 165 || data@.len() == 355 ==> r is Err && r->Err_0 == crate::error::INVALID_ACCOUNT_DATA,
{
    StateWithExtensions::<Account>::unpack(data).map(|_| ()).map_err(u64::from)
}

/// Unpacks `data` as a mint and lists its extension types as tags. Calls
/// `StateWithExtensions::<Mint>::unpack`, then `get_extension_types`.
/// Claimed: an unpack failure is returned as it is; otherwise the outcome is
/// the named `mint_extension_type_codes`.
#[verifier::external_body]
pub(crate) fn read_mint_extension_types(data: &[u8]) -> (r: Result<Vec<u16>, u64>)
    ensures
        codes_view(r) == (match mint_unpack_result(data@) {
            Err(e) => Err(e),
            Ok(_) => mint_extension_type_codes(data@),
        }),
{
    let state = StateWithExtensions::<Mint>::unpack(data).map_err(u64::from)?;
    let types = state.get_extension_types().map_err(u64::from)?;
    Ok(types.into_iter().map(u16::from).collect())
}

/// Unpacks `data` as a mint and reads its transfer fee configuration. Calls
/// `StateWithExtensions::<Mint>::unpack`, then
/// `get_extension::<TransferFeeConfig>`, and keeps the older and newer fee
/// settings. Claimed: an unpack failure is returned as it is; otherwise the
/// outcome is the named `mint_transfer_fee_config`.
#[verifier::external_body]
pub(crate) fn read_mint_transfer_fee_config(data: &[u8]) -> (r: Result<TransferFeeSchedule, u64>)
    ensures
        r == (match mint_unpack_result(data@) {
            Err(e) => Err(e),
            Ok(_) => mint_transfer_fee_config(data@),
        }),
{
    let state = StateWithExtensions::<Mint>::unpack(data).map_err(u64::from)?;
    let c = state.get_extension::<TransferFeeConfig>().map_err(u64::from)?;
    let tier = |t: &TransferFee| FeeTier {
        epoch: u64::from(t.epoch),
        maximum_fee: u64::from(t.maximum_fee),
        basis_points: u16::from(t.transfer_fee_basis_points),
    };
    Ok(TransferFeeSchedule { older: tier(&c.older_transfer_fee), newer: tier(&c.newer_transfer_fee) })
}

/// The fee of one transfer under one fee setting. Calls
/// `TransferFee::calculate_fee`. Claimed, as its source computes it: zero
/// when the rate or the amount is zero; otherwise the amount times the rate
/// in basis points divided by 10 000 and rounded up, capped at the maximum
/// fee, and `None` when the rounded-up value does not fit in a `u64`.
#[verifier::external_body]
pub(crate) fn calculate_tier_fee(tier: &FeeTier, amount: u64) -> (r: Option<u64>)
    ensures
        r == crate::fee::tier_fee(*tier, amount),
{
    TransferFee {
        epoch: tier.epoch.into(),
        maximum_fee: tier.maximum_fee.into(),
        transfer_fee_basis_points: tier.basis_points.into(),
    }.calculate_fee(amount)
}

/// The account size of a mint with the given extensions. Calls
/// `ExtensionType::try_calculate_account_len::<Mint>`. Claimed: the outcome
/// is the named `mint_account_len`; with no extensions it is the bare mint
/// size, 82 bytes, and otherwise it is at least the 166 bytes that any
/// account with extensions takes.
#[verifier::external_body]
pub(crate) fn calculate_mint_account_len(extensions: &[MintExtension]) -> (r: Result<usize, u64>)
    ensures
        r == mint_account_len(extensions@),
        extensions@.len() == 0 ==> r is Ok && r->Ok_0 == 82,
        extensions@.len() > 0 && r is Ok ==> r->Ok_0 >= 166,
{
    let types: Vec<ExtensionType> = extensions.iter().map(|e| match e {
        MintExtension::TransferFeeConfig => ExtensionType::TransferFeeConfig,
        MintExtension::MintCloseAuthority => ExtensionType::MintCloseAuthority,
        MintExtension::ConfidentialTransferMint => ExtensionType::ConfidentialTransferMint,
        MintExtension::DefaultAccountState => ExtensionType::DefaultAccountState,
        MintExtension::PermanentDelegate => ExtensionType::PermanentDelegate,
        MintExtension::ConfidentialTransferFeeConfig => ExtensionType::ConfidentialTransferFeeConfig,
        MintExtension::MetadataPointer => ExtensionType::MetadataPointer,
    }).collect();
    ExtensionType::try_calculate_account_len::<Mint>(&types).map_err(u64::from)
}

} // verus!
