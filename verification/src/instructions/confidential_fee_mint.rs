use vstd::prelude::*;
use crate::constants::TOKEN_2022_PROGRAM_ID;
use crate::confidential_ix::{
    build_confidential_initialize_mint, build_initialize_confidential_fee_config,
    initialize_fee_config_data, initialize_mint_data, storable_key,
};
use crate::cpi::{Address, CpiPlan, Invocation, RawInstruction, TokenCpi, create_mint_account_call, is_invocation, writable};
use crate::error::{HandlerError, INCORRECT_PROGRAM_ID, INVALID_ARGUMENT};
use crate::extension::MintExtension;
use crate::instructions::mint_with_fee::{account_space_for, space_for};

verus! {

/// Accounts of a confidential mint with a transfer fee: the payer (also
/// every authority), the new mint, and the token and system programs.
pub struct CreateConfidentialFeeMint {
    pub payer: Address,
    pub mint: Address,
    pub token_program: Address,
    pub system_program: Address,
}

/// The extensions of a confidential mint with a transfer fee.
pub open spec fn confidential_fee_mint_extensions() -> Seq<MintExtension> {
    seq![
        MintExtension::TransferFeeConfig,
        MintExtension::ConfidentialTransferFeeConfig,
        MintExtension::ConfidentialTransferMint,
    ]
}

/// The error a confidential mint initialization reports when the program
/// is not Token-2022 or the payer's key cannot stand as an authority.
pub open spec fn setup_error(token_program: Address, payer: Address) -> Option<u64> {
    if token_program != TOKEN_2022_PROGRAM_ID {
        Some(INCORRECT_PROGRAM_ID)
    } else if !storable_key(Some(payer)) {
        Some(INVALID_ARGUMENT)
    } else {
        None
    }
}

impl CreateConfidentialFeeMint {
    /// Lists the extensions of the new mint.
    pub fn extensions() -> (v: Vec<MintExtension>)
        ensures
            v@ == confidential_fee_mint_extensions(),
    {
        let mut v = Vec::new();
        v.push(MintExtension::TransferFeeConfig);
        v.push(MintExtension::ConfidentialTransferFeeConfig);
        v.push(MintExtension::ConfidentialTransferMint);
        v
    }

    /// The size of the new mint account, which the caller needs to fund it.
    pub fn account_space(&self) -> (r: Result<usize, HandlerError>)
        ensures
            r == space_for(confidential_fee_mint_extensions()),
    {
        let extensions = Self::extensions();
        account_space_for(&extensions)
    }

    /// The first two calls: the account creation and the transfer fee
    /// initialization.
    pub open spec fn opening_calls(self, basis_points: u16, maximum_fee: u64, lamports: u64, space: usize) -> Seq<TokenCpi> {
        seq![
            create_mint_account_call(self.system_program, self.payer, self.mint, lamports, space, self.token_program),
            TokenCpi::InitializeTransferFee {
                program_id: self.token_program,
                token_program: self.token_program,
                mint: self.mint,
                transfer_fee_config_authority: Some(self.payer),
                withdraw_withheld_authority: Some(self.payer),
                basis_points,
                maximum_fee,
            },
        ]
    }

    /// Whether `plan` is the whole setup: the two opening calls, the
    /// confidential transfer initialization (payer as authority, new
    /// accounts approved automatically, no auditor), the confidential fee
    /// initialization, and the mint initialization with the payer as mint
    /// authority and no freeze authority.
    pub open spec fn completes(self, plan: CpiPlan, decimals: u8, basis_points: u16, maximum_fee: u64,
        elgamal_pubkey: [u8; 32], lamports: u64, space: usize) -> bool
    {
        &&& plan.outcome is Ok
        &&& plan.calls@.len() == 5
        &&& plan.calls@.subrange(0, 2) == self.opening_calls(basis_points, maximum_fee, lamports, space)
        &&& is_invocation(plan.calls@[2], self.token_program, seq![writable(self.mint, false)],
                initialize_mint_data(Some(self.payer), true, None), seq![self.mint, self.token_program])
        &&& is_invocation(plan.calls@[3], self.token_program, seq![writable(self.mint, false)],
                initialize_fee_config_data(Some(self.payer), elgamal_pubkey), seq![self.mint, self.token_program])
        &&& plan.calls@[4] == (TokenCpi::InitializeMint2 {
                program_id: self.token_program,
                mint: self.mint,
                decimals,
                mint_authority: self.payer,
                freeze_authority: None,
            })
    }

    /// Whether `plan` follows the given size and built instructions: no
    /// calls and the error when the size could not be computed; else the two
    /// opening calls, then the confidential transfer initialization and the
    /// confidential fee initialization as built, each stopping the plan with
    /// its build error, and last the mint initialization with the payer as
    /// mint authority and no freeze authority.
    pub open spec fn follows(self, plan: CpiPlan, decimals: u8, basis_points: u16, maximum_fee: u64, lamports: u64,
        space: Result<usize, HandlerError>, init: Result<RawInstruction, u64>, fee_config: Result<RawInstruction, u64>) -> bool
    {
        match space {
            Err(e) => plan.calls@.len() == 0 && plan.outcome is Err && plan.outcome->Err_0 == e,
            Ok(n) => {
                let opening = self.opening_calls(basis_points, maximum_fee, lamports, n);
                let infos = seq![self.mint, self.token_program];
                match init {
                    Err(e) => plan.calls@ == opening && plan.outcome is Err && plan.outcome->Err_0 == HandlerError::Program(e),
                    Ok(i) => {
                        &&& plan.calls@.len() >= 3
                        &&& plan.calls@.subrange(0, 2) == opening
                        &&& is_invocation(plan.calls@[2], i.program_id, i.accounts@, i.data@, infos)
                        &&& match fee_config {
                            Err(e) => plan.calls@.len() == 3 && plan.outcome is Err && plan.outcome->Err_0 == HandlerError::Program(e),
                            Ok(f) => {
                                &&& plan.calls@.len() == 5
                                &&& plan.outcome is Ok
                                &&& is_invocation(plan.calls@[3], f.program_id, f.accounts@, f.data@, infos)
                                &&& plan.calls@[4] == (TokenCpi::InitializeMint2 {
                                        program_id: self.token_program,
                                        mint: self.mint,
                                        decimals,
                                        mint_authority: self.payer,
                                        freeze_authority: None,
                                    })
                            },
                        }
                    },
                }
            },
        }
    }

    /// The plan for the given size and built instructions, as `follows`
    /// states.
    pub fn plan_for(
        &self,
        decimals: u8,
        basis_points: u16,
        maximum_fee: u64,
        lamports: u64,
        space: Result<usize, HandlerError>,
        init: Result<RawInstruction, u64>,
        fee_config: Result<RawInstruction, u64>,
    ) -> (plan: CpiPlan)
        ensures
            self.follows(plan, decimals, basis_points, maximum_fee, lamports, space, init, fee_config),
            space is Ok ==> plan.calls@.len() >= 2
                && plan.calls@[0] == (TokenCpi::CreateAccount {
                    program_id: self.system_program,
                    from: self.payer,
                    to: self.mint,
                    lamports,
                    space: space->Ok_0 as u64,
                    owner: self.token_program,
                })
                && plan.calls@[1] == (TokenCpi::InitializeTransferFee {
                    program_id: self.token_program,
                    token_program: self.token_program,
                    mint: self.mint,
                    transfer_fee_config_authority: Some(self.payer),
                    withdraw_withheld_authority: Some(self.payer),
                    basis_points,
                    maximum_fee,
                }),
            space is Ok && init is Ok && fee_config is Ok ==> plan.outcome is Ok && plan.calls@.len() == 5
                && plan.calls@[4] == (TokenCpi::InitializeMint2 {
                    program_id: self.token_program,
                    mint: self.mint,
                    decimals,
                    mint_authority: self.payer,
                    freeze_authority: None,
                }),
    {
        let space = match space {
            Ok(n) => n,
            Err(e) => return CpiPlan { calls: Vec::new(), outcome: Err(e) },
        };
        let mut calls: Vec<TokenCpi> = Vec::new();
        calls.push(TokenCpi::CreateAccount {
            program_id: self.system_program,
            from: self.payer,
            to: self.mint,
            lamports,
            space: space as u64,
            owner: self.token_program,
        });
        calls.push(TokenCpi::InitializeTransferFee {
            program_id: self.token_program,
            token_program: self.token_program,
            mint: self.mint,
            transfer_fee_config_authority: Some(self.payer),
            withdraw_withheld_authority: Some(self.payer),
            basis_points,
            maximum_fee,
        });
        assert(calls@ == self.opening_calls(basis_points, maximum_fee, lamports, space));
        let init = match init {
            Ok(ix) => ix,
            Err(e) => return CpiPlan { calls, outcome: Err(HandlerError::Program(e)) },
        };
        let mut infos: Vec<Address> = Vec::new();
        infos.push(self.mint);
        infos.push(self.token_program);
        assert(infos@ == seq![self.mint, self.token_program]);
        calls.push(TokenCpi::Invoke(Invocation { instruction: init, account_infos: infos }));
        assert(calls@.subrange(0, 2) == self.opening_calls(basis_points, maximum_fee, lamports, space));
        let fee_config = match fee_config {
            Ok(ix) => ix,
            Err(e) => return CpiPlan { calls, outcome: Err(HandlerError::Program(e)) },
        };
        let mut infos2: Vec<Address> = Vec::new();
        infos2.push(self.mint);
        infos2.push(self.token_program);
        assert(infos2@ == seq![self.mint, self.token_program]);
        calls.push(TokenCpi::Invoke(Invocation { instruction: fee_config, account_infos: infos2 }));
        calls.push(TokenCpi::InitializeMint2 {
            program_id: self.token_program,
            mint: self.mint,
            decimals,
            mint_authority: self.payer,
            freeze_authority: None,
        });
        assert(calls@.subrange(0, 2) == self.opening_calls(basis_points, maximum_fee, lamports, space));
        CpiPlan { calls, outcome: Ok(()) }
    }

    /// Creates a mint with a transfer fee and confidential transfers with
    /// confidential fees. `lamports` is the rent-exempt balance for
    /// `account_space()`. Returns the calls to make: none, when the size
    /// cannot be computed; the two opening calls and then the setup error,
    /// when the program is not Token-2022 or the payer's key is all zeros;
    /// otherwise the whole setup.
    pub fn create_confidential_fee_mint(
        &mut self,
        decimals: u8,
        basis_points: u16,
        maximum_fee: u64,
        withdraw_withheld_authority_elgamal_pubkey: [u8; 32],
        lamports: u64,
    ) -> (plan: CpiPlan)
        ensures
            *final(self) == *old(self),
            match space_for(confidential_fee_mint_extensions()) {
                Err(e) => plan.calls@.len() == 0 && plan.outcome is Err && plan.outcome->Err_0 == e,
                Ok(space) => match setup_error(old(self).token_program, old(self).payer) {
                    Some(e) => plan.calls@ == old(self).opening_calls(basis_points, maximum_fee, lamports, space)
                        && plan.outcome is Err && plan.outcome->Err_0 == HandlerError::Program(e),
                    None => old(self).completes(plan, decimals, basis_points, maximum_fee,
                        withdraw_withheld_authority_elgamal_pubkey, lamports, space),
                },
            },
    {
        let space = self.account_space();
        let init = build_confidential_initialize_mint(&self.token_program, &self.mint, Some(self.payer), true, None);
        let fee_config = build_initialize_confidential_fee_config(
            &self.token_program,
            &self.mint,
            Some(self.payer),
            &withdraw_withheld_authority_elgamal_pubkey,
        );
        self.plan_for(decimals, basis_points, maximum_fee, lamports, space, init, fee_config)
    }
}

} // verus!
