use vstd::prelude::*;
use crate::cpi::{Address, TokenCpi};
use crate::error::{HandlerError, MintError};
use crate::extension::{all_supported, check_supported_extensions};
use crate::fee::{fee_due, transfer_fee_due, TransferFeeSchedule};
use crate::token::{
    codes_view, mint_codes_read, mint_fee_config_read, read_mint_extension_types,
    read_mint_transfer_fee_config,
};

verus! {

/// Accounts of the checked transfer: the paying authority, the two token
/// accounts, the mint with its data, and the token program.
pub struct AssertSupportedMint {
    pub payer: Address,
    pub sender: Address,
    pub recipient: Address,
    pub mint: Address,
    pub mint_data: Vec<u8>,
    pub token_program: Address,
}

impl AssertSupportedMint {
    /// The transfer this handler makes for `amount` with `fee`.
    pub open spec fn transfer_call(self, amount: u64, decimals: u8, fee: u64) -> TokenCpi {
        TokenCpi::TransferCheckedWithFee {
            program_id: self.token_program,
            token_program: self.token_program,
            source: self.sender,
            mint: self.mint,
            destination: self.recipient,
            authority: self.payer,
            amount,
            decimals,
            fee,
        }
    }

    /// What the handler does, given what reading the mint gave: the mint's
    /// extension tags (or the error reading them) and its transfer fee
    /// configuration (or the error reading it). A read error of the tags is
    /// returned; a tag off the allowlist is refused with
    /// `UnsupportedExtension`; then the transfer carries the epoch fee
    /// (nothing without a configuration, `MathsOverflow` when it overflows).
    pub open spec fn decide(self, codes: Result<Seq<u16>, u64>, config: Result<TransferFeeSchedule, u64>,
        amount: u64, decimal: u8, epoch: u64) -> Result<TokenCpi, HandlerError>
    {
        match codes {
            Err(e) => Err(HandlerError::Program(e)),
            Ok(c) => if !all_supported(c) {
                Err(HandlerError::Mint(MintError::UnsupportedExtension))
            } else {
                match fee_due(config, epoch, amount) {
                    Err(m) => Err(HandlerError::Mint(m)),
                    Ok(fee) => Ok(self.transfer_call(amount, decimal, fee)),
                }
            },
        }
    }

    /// What the handler does at `epoch` with the mint's own data.
    pub open spec fn outcome(self, amount: u64, decimal: u8, epoch: u64) -> Result<TokenCpi, HandlerError> {
        self.decide(mint_codes_read(self.mint_data@), mint_fee_config_read(self.mint_data@), amount, decimal, epoch)
    }

    /// Decides the transfer as `decide` states, from what reading the mint
    /// gave.
    pub fn transfer_for(
        &self,
        codes: Result<Vec<u16>, u64>,
        config: Result<TransferFeeSchedule, u64>,
        amount: u64,
        decimal: u8,
        epoch: u64,
    ) -> (r: Result<TokenCpi, HandlerError>)
        ensures
            r == self.decide(codes_view(codes), config, amount, decimal, epoch),
    {
        let codes = match codes {
            Ok(codes) => codes,
            Err(e) => return Err(HandlerError::Program(e)),
        };
        if let Err(m) = check_supported_extensions(codes.as_slice()) {
            return Err(HandlerError::Mint(m));
        }
        match transfer_fee_due(config, epoch, amount) {
            Err(m) => Err(HandlerError::Mint(m)),
            Ok(fee) => Ok(TokenCpi::TransferCheckedWithFee {
                program_id: self.token_program,
                token_program: self.token_program,
                source: self.sender,
                mint: self.mint,
                destination: self.recipient,
                authority: self.payer,
                amount,
                decimals: decimal,
                fee,
            }),
        }
    }

    /// Transfers `amount` out of a mint after checking that it carries only
    /// supported extensions, charging the mint's transfer fee at `epoch`.
    /// Returns the transfer to make.
    pub fn assert_supported_mint(&mut self, amount: u64, decimal: u8, epoch: u64) -> (r: Result<TokenCpi, HandlerError>)
        ensures
            *final(self) == *old(self),
            r == old(self).outcome(amount, decimal, epoch),
    {
        let codes = read_mint_extension_types(self.mint_data.as_slice());
        let config = read_mint_transfer_fee_config(self.mint_data.as_slice());
        self.transfer_for(codes, config, amount, decimal, epoch)
    }
}

} // verus!
