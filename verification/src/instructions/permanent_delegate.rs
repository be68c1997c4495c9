use vstd::prelude::*;
use crate::cpi::{Address, TokenCpi};
use crate::error::{HandlerError, MintError};
use crate::fee::TransferFeeSchedule;
use crate::token::{mint_fee_config_read, read_mint_transfer_fee_config};

verus! {

/// Accounts of a seizure: the mint's permanent delegate, the mint with its
/// data, the two token accounts, and the token program.
pub struct PermanentDelegateSeize {
    pub permanent_delegate: Address,
    pub mint: Address,
    pub mint_data: Vec<u8>,
    pub source: Address,
    pub destination: Address,
    pub token_program: Address,
}

impl PermanentDelegateSeize {
    /// What the seizure does, given what reading the mint's transfer fee
    /// configuration gave: a read error (the mint does not unpack or has no
    /// configuration) is returned; an overflowing epoch fee is refused with
    /// `MathsOverflow`; otherwise `amount` moves from source to destination
    /// with that fee, on the permanent delegate's authority.
    pub open spec fn decide(self, config: Result<TransferFeeSchedule, u64>, amount: u64, decimals: u8, epoch: u64) -> Result<TokenCpi, HandlerError> {
        match config {
            Err(e) => Err(HandlerError::Program(e)),
            Ok(schedule) => match schedule.fee_at(epoch, amount) {
                None => Err(HandlerError::Mint(MintError::MathsOverflow)),
                Some(fee) => Ok(TokenCpi::TransferCheckedWithFee {
                    program_id: self.token_program,
                    token_program: self.token_program,
                    source: self.source,
                    mint: self.mint,
                    destination: self.destination,
                    authority: self.permanent_delegate,
                    amount,
                    decimals,
                    fee,
                }),
            },
        }
    }

    /// What the seizure does at `epoch` with the mint's own data.
    pub open spec fn outcome(self, amount: u64, decimals: u8, epoch: u64) -> Result<TokenCpi, HandlerError> {
        self.decide(mint_fee_config_read(self.mint_data@), amount, decimals, epoch)
    }

    /// Decides the seizure as `decide` states, from what reading the mint
    /// gave.
    pub fn seizure_for(&self, config: Result<TransferFeeSchedule, u64>, amount: u64, decimals: u8, epoch: u64) -> (r: Result<TokenCpi, HandlerError>)
        ensures
            r == self.decide(config, amount, decimals, epoch),
            r is Ok <==> (config is Ok && config->Ok_0.fee_at(epoch, amount) is Some),
            r is Ok ==> r->Ok_0 == (TokenCpi::TransferCheckedWithFee {
                program_id: self.token_program,
                token_program: self.token_program,
                source: self.source,
                mint: self.mint,
                destination: self.destination,
                authority: self.permanent_delegate,
                amount,
                decimals,
                fee: config->Ok_0.fee_at(epoch, amount)->Some_0,
            }),
            config is Err ==> r == Err::<TokenCpi, HandlerError>(HandlerError::Program(config->Err_0)),
    {
        let schedule = match config {
            Ok(s) => s,
            Err(e) => return Err(HandlerError::Program(e)),
        };
        match schedule.calculate_epoch_fee(epoch, amount) {
            None => Err(HandlerError::Mint(MintError::MathsOverflow)),
            Some(fee) => Ok(TokenCpi::TransferCheckedWithFee {
                program_id: self.token_program,
                token_program: self.token_program,
                source: self.source,
                mint: self.mint,
                destination: self.destination,
                authority: self.permanent_delegate,
                amount,
                decimals,
                fee,
            }),
        }
    }

    /// Moves `amount` between two token accounts of the mint by the
    /// permanent delegate's authority, paying the mint's transfer fee at
    /// `epoch`. Returns the transfer to make.
    pub fn seize_tokens(&mut self, amount: u64, decimals: u8, epoch: u64) -> (r: Result<TokenCpi, HandlerError>)
        ensures
            *final(self) == *old(self),
            r == old(self).outcome(amount, decimals, epoch),
            r is Ok <==> (mint_fee_config_read(old(self).mint_data@) is Ok
                && mint_fee_config_read(old(self).mint_data@)->Ok_0.fee_at(epoch, amount) is Some),
    {
        let config = read_mint_transfer_fee_config(self.mint_data.as_slice());
        self.seizure_for(config, amount, decimals, epoch)
    }
}

} // verus!
