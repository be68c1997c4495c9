use vstd::prelude::*;
use crate::cpi::{Address, CpiPlan, TokenCpi, create_mint_account_call};
use crate::error::HandlerError;
use crate::extension::MintExtension;
use crate::token::{calculate_mint_account_len, mint_account_len};

verus! {

/// Accounts of the declaratively created mint: the payer (also mint
/// authority, close authority, metadata pointer authority and metadata
/// address), the new mint, and the token and system programs.
pub struct CreateMintDeclarative {
    pub payer: Address,
    pub mint: Address,
    pub token_program: Address,
    pub system_program: Address,
}

/// The extensions of the declaratively created mint.
pub open spec fn declarative_mint_extensions() -> Seq<MintExtension> {
    seq![MintExtension::MintCloseAuthority, MintExtension::MetadataPointer]
}

impl CreateMintDeclarative {
    /// Lists the extensions the declarative mint is created with.
    pub fn extensions() -> (v: Vec<MintExtension>)
        ensures
            v@ == declarative_mint_extensions(),
    {
        let mut v = Vec::new();
        v.push(MintExtension::MintCloseAuthority);
        v.push(MintExtension::MetadataPointer);
        v
    }
}

/// Accounts of a mint created with a transfer fee: the payer (also every
/// authority), the new mint, and the token and system programs.
pub struct CreateMintWithFee {
    pub payer: Address,
    pub mint: Address,
    pub token_program: Address,
    pub system_program: Address,
}

/// The extensions of a mint created with a transfer fee.
pub open spec fn fee_mint_extensions() -> Seq<MintExtension> {
    seq![MintExtension::MintCloseAuthority, MintExtension::TransferFeeConfig]
}

/// The account size for `extensions`, or the token program's error.
pub open spec fn space_for(extensions: Seq<MintExtension>) -> Result<usize, HandlerError> {
    match mint_account_len(extensions) {
        Ok(n) => Ok(n),
        Err(e) => Err(HandlerError::Program(e)),
    }
}

/// Computes the account size for `extensions`.
pub fn account_space_for(extensions: &Vec<MintExtension>) -> (r: Result<usize, HandlerError>)
    ensures
        r == space_for(extensions@),
{
    match calculate_mint_account_len(extensions.as_slice()) {
        Ok(n) => Ok(n),
        Err(e) => Err(HandlerError::Program(e)),
    }
}

impl CreateMintWithFee {
    /// Lists the extensions of the new mint.
    pub fn extensions() -> (v: Vec<MintExtension>)
        ensures
            v@ == fee_mint_extensions(),
    {
        let mut v = Vec::new();
        v.push(MintExtension::MintCloseAuthority);
        v.push(MintExtension::TransferFeeConfig);
        v
    }

    /// The size of the new mint account, which the caller needs to fund it.
    pub fn account_space(&self) -> (r: Result<usize, HandlerError>)
        ensures
            r == space_for(fee_mint_extensions()),
    {
        let extensions = Self::extensions();
        account_space_for(&extensions)
    }

    /// The calls that create the mint, when its size is `space` and it is
    /// funded with `lamports`.
    pub open spec fn calls(self, decimals: u8, basis_points: u16, maximum_fee: u64, lamports: u64, space: usize) -> Seq<TokenCpi> {
        seq![
            create_mint_account_call(self.token_program, self.payer, self.mint, lamports, space, self.token_program),
            TokenCpi::InitializeMintCloseAuthority {
                program_id: self.token_program,
                token_program: self.token_program,
                mint: self.mint,
                close_authority: Some(self.payer),
            },
            TokenCpi::InitializeTransferFee {
                program_id: self.token_program,
                token_program: self.token_program,
                mint: self.mint,
                transfer_fee_config_authority: Some(self.payer),
                withdraw_withheld_authority: Some(self.payer),
                basis_points,
                maximum_fee,
            },
            TokenCpi::InitializeMint2 {
                program_id: self.token_program,
                mint: self.mint,
                decimals,
                mint_authority: self.payer,
                freeze_authority: None,
            },
        ]
    }

    /// The plan for a mint of `space` bytes (or the error computing it),
    /// funded with `lamports`: no calls and the error, or the account
    /// creation, the two extension initializations, and the mint
    /// initialization with the payer as mint authority and no freeze
    /// authority.
    pub fn plan_for(&self, decimals: u8, basis_points: u16, maximum_fee: u64, lamports: u64, space: Result<usize, HandlerError>) -> (plan: CpiPlan)
        ensures
            match space {
                Err(e) => plan.calls@.len() == 0 && plan.outcome is Err && plan.outcome->Err_0 == e,
                Ok(n) => plan.outcome is Ok && plan.calls@ == self.calls(decimals, basis_points, maximum_fee, lamports, n),
            },
            space is Ok ==> plan.calls@.len() == 4
                && plan.calls@[0] == (TokenCpi::CreateAccount {
                    program_id: self.token_program,
                    from: self.payer,
                    to: self.mint,
                    lamports,
                    space: space->Ok_0 as u64,
                    owner: self.token_program,
                })
                && plan.calls@[1] == (TokenCpi::InitializeMintCloseAuthority {
                    program_id: self.token_program,
                    token_program: self.token_program,
                    mint: self.mint,
                    close_authority: Some(self.payer),
                })
                && plan.calls@[2] == (TokenCpi::InitializeTransferFee {
                    program_id: self.token_program,
                    token_program: self.token_program,
                    mint: self.mint,
                    transfer_fee_config_authority: Some(self.payer),
                    withdraw_withheld_authority: Some(self.payer),
                    basis_points,
                    maximum_fee,
                })
                && plan.calls@[3] == (TokenCpi::InitializeMint2 {
                    program_id: self.token_program,
                    mint: self.mint,
                    decimals,
                    mint_authority: self.payer,
                    freeze_authority: None,
                }),
    {
        let space = match space {
            Ok(n) => n,
            Err(e) => return CpiPlan { calls: Vec::new(), outcome: Err(e) },
        };
        let mut calls: Vec<TokenCpi> = Vec::new();
        calls.push(TokenCpi::CreateAccount {
            program_id: self.token_program,
            from: self.payer,
            to: self.mint,
            lamports,
            space: space as u64,
            owner: self.token_program,
        });
        calls.push(TokenCpi::InitializeMintCloseAuthority {
            program_id: self.token_program,
            token_program: self.token_program,
            mint: self.mint,
            close_authority: Some(self.payer),
        });
        calls.push(TokenCpi::InitializeTransferFee {
            program_id: self.token_program,
            token_program: self.token_program,
            mint: self.mint,
            transfer_fee_config_authority: Some(self.payer),
            withdraw_withheld_authority: Some(self.payer),
            basis_points,
            maximum_fee,
        });
        calls.push(TokenCpi::InitializeMint2 {
            program_id: self.token_program,
            mint: self.mint,
            decimals,
            mint_authority: self.payer,
            freeze_authority: None,
        });
        CpiPlan { calls, outcome: Ok(()) }
    }

    /// Creates a mint with a close authority and a transfer fee of
    /// `basis_points`, capped at `maximum_fee`. `lamports` is the
    /// rent-exempt balance for `account_space()`. Returns the calls to make,
    /// as `plan_for` states for the computed size.
    pub fn create_mint_with_fee(&mut self, decimals: u8, basis_points: u16, maximum_fee: u64, lamports: u64) -> (plan: CpiPlan)
        ensures
            *final(self) == *old(self),
            match space_for(fee_mint_extensions()) {
                Err(e) => plan.calls@.len() == 0 && plan.outcome is Err && plan.outcome->Err_0 == e,
                Ok(space) => plan.outcome is Ok && plan.calls@ == old(self).calls(decimals, basis_points, maximum_fee, lamports, space),
            },
    {
        let space = self.account_space();
        self.plan_for(decimals, basis_points, maximum_fee, lamports, space)
    }
}

} // verus!
