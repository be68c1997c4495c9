use vstd::prelude::*;

verus! {

/// Basis points in one whole (100%).
pub const ONE_IN_BASIS_POINTS: u64 = 10_000;

/// The largest transfer fee rate Token-2022 accepts when a fee is set.
pub const MAX_FEE_BASIS_POINTS: u16 = 10_000;

/// One transfer fee setting of a mint: from `epoch` on, a transfer pays
/// `basis_points` of its amount, rounded up, and at most `maximum_fee`.
#[derive(Clone, Copy, Debug, PartialEq, Eq)]
pub struct FeeTier {
    pub epoch: u64,
    pub maximum_fee: u64,
    pub basis_points: u16,
}

/// The transfer fee configuration of a mint: the setting in force before
/// `newer.epoch`, and the one in force from then on.
#[derive(Clone, Copy, Debug, PartialEq, Eq)]
pub struct TransferFeeSchedule {
    pub older: FeeTier,
    pub newer: FeeTier,
}

/// The fee rate applied to `amount`, rounded up, before the cap.
pub open spec fn raw_fee(tier: FeeTier, amount: u64) -> int {
    (amount * tier.basis_points + (ONE_IN_BASIS_POINTS - 1)) / (ONE_IN_BASIS_POINTS as int)
}

/// The fee a transfer of `amount` pays under `tier`: nothing when the rate or
/// the amount is zero; else the rounded-up rate, capped at the maximum fee;
/// `None` when the rounded-up rate does not fit in a `u64`.
pub open spec fn tier_fee(tier: FeeTier, amount: u64) -> Option<u64> {
    if tier.basis_points == 0 || amount == 0 {
        Some(0)
    } else if raw_fee(tier, amount) > u64::MAX {
        None
    } else if raw_fee(tier, amount) <= tier.maximum_fee {
        Some(raw_fee(tier, amount) as u64)
    } else {
        Some(tier.maximum_fee)
    }
}

impl TransferFeeSchedule {
    /// The setting in force at `epoch`.
    pub open spec fn tier_at(self, epoch: u64) -> FeeTier {
        if epoch >= self.newer.epoch {
            self.newer
        } else {
            self.older
        }
    }

    /// The fee a transfer of `amount` pays at `epoch`.
    pub open spec fn fee_at(self, epoch: u64, amount: u64) -> Option<u64> {
        tier_fee(self.tier_at(epoch), amount)
    }

    /// Returns the setting in force at `epoch`.
    pub fn epoch_tier(&self, epoch: u64) -> (t: FeeTier)
        ensures
            t == self.tier_at(epoch),
    {
        if epoch >= self.newer.epoch {
            self.newer
        } else {
            self.older
        }
    }

    /// Computes the fee a transfer of `amount` pays at `epoch`.
    pub fn calculate_epoch_fee(&self, epoch: u64, amount: u64) -> (r: Option<u64>)
        ensures
            r == self.fee_at(epoch, amount),
    {
        let tier = self.epoch_tier(epoch);
        crate::token::calculate_tier_fee(&tier, amount)
    }
}

/// The fee a transfer pays, given the outcome of reading the mint's transfer
/// fee configuration: with a configuration, its fee at `epoch`, and
/// `MathsOverflow` when that fee overflows; without one (any read error),
/// nothing.
pub open spec fn fee_due(config: Result<TransferFeeSchedule, u64>, epoch: u64, amount: u64) -> Result<u64, crate::error::MintError> {
    match config {
        Ok(schedule) => match schedule.fee_at(epoch, amount) {
            Some(fee) => Ok(fee),
            None => Err(crate::error::MintError::MathsOverflow),
        },
        Err(_) => Ok(0),
    }
}

/// Computes the fee due as `fee_due` states.
pub fn transfer_fee_due(config: Result<TransferFeeSchedule, u64>, epoch: u64, amount: u64) -> (r: Result<u64, crate::error::MintError>)
    ensures
        r == fee_due(config, epoch, amount),
{
    match config {
        Ok(schedule) => match schedule.calculate_epoch_fee(epoch, amount) {
            Some(fee) => Ok(fee),
            None => Err(crate::error::MintError::MathsOverflow),
        },
        Err(_) => Ok(0),
    }
}

} // verus!
