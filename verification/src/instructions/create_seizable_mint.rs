use vstd::prelude::*;
use crate::confidential_ix::{build_confidential_initialize_mint, initialize_mint_data};
use crate::cpi::{AccountStateKind, Address, CpiPlan, Invocation, RawInstruction, TokenCpi, create_mint_account_call, is_invocation, writable};
use crate::error::HandlerError;
use crate::extension::MintExtension;
use crate::instructions::confidential_fee_mint::setup_error;
use crate::instructions::mint_with_fee::{account_space_for, space_for};

verus! {

/// Accounts of a seizable mint: the payer (also mint, freeze, close,
/// metadata pointer, transfer fee and confidential transfer authority), the
/// new mint, its permanent delegate, and the token and system programs.
pub struct CreateSeizableMint {
    pub payer: Address,
    pub mint: Address,
    pub permanent_delegate: Address,
    pub token_program: Address,
    pub system_program: Address,
}

/// The extensions of a seizable mint.
pub open spec fn seizable_mint_extensions() -> Seq<MintExtension> {
    seq![
        MintExtension::MintCloseAuthority,
        MintExtension::MetadataPointer,
        MintExtension::DefaultAccountState,
        MintExtension::TransferFeeConfig,
        MintExtension::PermanentDelegate,
        MintExtension::ConfidentialTransferMint,
    ]
}

impl CreateSeizableMint {
    /// Lists the extensions of the new mint.
    pub fn extensions() -> (v: Vec<MintExtension>)
        ensures
            v@ == seizable_mint_extensions(),
    {
        let mut v = Vec::new();
        v.push(MintExtension::MintCloseAuthority);
        v.push(MintExtension::MetadataPointer);
        v.push(MintExtension::DefaultAccountState);
        v.push(MintExtension::TransferFeeConfig);
        v.push(MintExtension::PermanentDelegate);
        v.push(MintExtension::ConfidentialTransferMint);
        v
    }

    /// The size of the new mint account, which the caller needs to fund it.
    pub fn account_space(&self) -> (r: Result<usize, HandlerError>)
        ensures
            r == space_for(seizable_mint_extensions()),
    {
        let extensions = Self::extensions();
        account_space_for(&extensions)
    }

    /// The calls before the confidential transfer initialization: the
    /// account creation, then the close authority, the metadata pointer (to
    /// the mint itself), new accounts frozen by default, the transfer fee,
    /// and the permanent delegate.
    pub open spec fn opening_calls(self, basis_points: u16, maximum_fee: u64, lamports: u64, space: usize) -> Seq<TokenCpi> {
        seq![
            create_mint_account_call(self.system_program, self.payer, self.mint, lamports, space, self.token_program),
            TokenCpi::InitializeMintCloseAuthority {
                program_id: self.token_program,
                token_program: self.token_program,
                mint: self.mint,
                close_authority: Some(self.payer),
            },
            TokenCpi::InitializeMetadataPointer {
                program_id: self.token_program,
                token_program: self.token_program,
                mint: self.mint,
                metadata_authority: Some(self.payer),
                metadata_address: Some(self.mint),
            },
            TokenCpi::InitializeDefaultAccountState {
                program_id: self.token_program,
                token_program: self.token_program,
                mint: self.mint,
                state: AccountStateKind::Frozen,
            },
            TokenCpi::InitializeTransferFee {
                program_id: self.token_program,
                token_program: self.token_program,
                mint: self.mint,
                transfer_fee_config_authority: Some(self.payer),
                withdraw_withheld_authority: Some(self.payer),
                basis_points,
                maximum_fee,
            },
            TokenCpi::InitializePermanentDelegate {
                program_id: self.token_program,
                token_program: self.token_program,
                mint: self.mint,
                delegate: self.permanent_delegate,
            },
        ]
    }

    /// Whether `plan` is the whole setup: the opening calls, the
    /// confidential transfer initialization (payer as authority, new
    /// accounts not approved automatically, no auditor), and the mint
    /// initialization with the payer as mint and freeze authority.
    pub open spec fn completes(self, plan: CpiPlan, decimals: u8, basis_points: u16, maximum_fee: u64,
        lamports: u64, space: usize) -> bool
    {
        &&& plan.outcome is Ok
        &&& plan.calls@.len() == 8
        &&& plan.calls@.subrange(0, 6) == self.opening_calls(basis_points, maximum_fee, lamports, space)
        &&& is_invocation(plan.calls@[6], self.token_program, seq![writable(self.mint, false)],
                initialize_mint_data(Some(self.payer), false, None), seq![self.mint, self.token_program])
        &&& plan.calls@[7] == (TokenCpi::InitializeMint2 {
                program_id: self.token_program,
                mint: self.mint,
                decimals,
                mint_authority: self.payer,
                freeze_authority: Some(self.payer),
            })
    }

    /// Whether `plan` follows the given size and built instruction: no
    /// calls and the error when the size could not be computed; else the
    /// opening calls, then the confidential transfer initialization as built
    /// (stopping the plan with its build error), and last the mint
    /// initialization with the payer as mint and freeze authority.
    pub open spec fn follows(self, plan: CpiPlan, decimals: u8, basis_points: u16, maximum_fee: u64, lamports: u64,
        space: Result<usize, HandlerError>, init: Result<RawInstruction, u64>) -> bool
    {
        match space {
            Err(e) => plan.calls@.len() == 0 && plan.outcome is Err && plan.outcome->Err_0 == e,
            Ok(n) => {
                let opening = self.opening_calls(basis_points, maximum_fee, lamports, n);
                match init {
                    Err(e) => plan.calls@ == opening && plan.outcome is Err && plan.outcome->Err_0 == HandlerError::Program(e),
                    Ok(i) => {
                        &&& plan.outcome is Ok
                        &&& plan.calls@.len() == 8
                        &&& plan.calls@.subrange(0, 6) == opening
                        &&& is_invocation(plan.calls@[6], i.program_id, i.accounts@, i.data@, seq![self.mint, self.token_program])
                        &&& plan.calls@[7] == (TokenCpi::InitializeMint2 {
                                program_id: self.token_program,
                                mint: self.mint,
                                decimals,
                                mint_authority: self.payer,
                                freeze_authority: Some(self.payer),
                            })
                    },
                }
            },
        }
    }

    /// The plan for the given size and built instruction, as `follows`
    /// states.
    pub fn plan_for(
        &self,
        decimals: u8,
        basis_points: u16,
        maximum_fee: u64,
        lamports: u64,
        space: Result<usize, HandlerError>,
        init: Result<RawInstruction, u64>,
    ) -> (plan: CpiPlan)
        ensures
            self.follows(plan, decimals, basis_points, maximum_fee, lamports, space, init),
            space is Ok ==> plan.calls@.len() >= 6
                && plan.calls@[0] == (TokenCpi::CreateAccount {
                    program_id: self.system_program,
                    from: self.payer,
                    to: self.mint,
                    lamports,
                    space: space->Ok_0 as u64,
                    owner: self.token_program,
                })
                && plan.calls@[1] == (TokenCpi::InitializeMintCloseAuthority {
                    program_id: self.token_program,
                    token_program: self.token_program,
                    mint: self.mint,
                    close_authority: Some(self.payer),
                })
                && plan.calls@[2] == (TokenCpi::InitializeMetadataPointer {
                    program_id: self.token_program,
                    token_program: self.token_program,
                    mint: self.mint,
                    metadata_authority: Some(self.payer),
                    metadata_address: Some(self.mint),
                })
                && plan.calls@[3] == (TokenCpi::InitializeDefaultAccountState {
                    program_id: self.token_program,
                    token_program: self.token_program,
                    mint: self.mint,
                    state: AccountStateKind::Frozen,
                })
                && plan.calls@[4] == (TokenCpi::InitializeTransferFee {
                    program_id: self.token_program,
                    token_program: self.token_program,
                    mint: self.mint,
                    transfer_fee_config_authority: Some(self.payer),
                    withdraw_withheld_authority: Some(self.payer),
                    basis_points,
                    maximum_fee,
                })
                && plan.calls@[5] == (TokenCpi::InitializePermanentDelegate {
                    program_id: self.token_program,
                    token_program: self.token_program,
                    mint: self.mint,
                    delegate: self.permanent_delegate,
                }),
            space is Ok && init is Ok ==> plan.outcome is Ok && plan.calls@.len() == 8
                && plan.calls@[7] == (TokenCpi::InitializeMint2 {
                    program_id: self.token_program,
                    mint: self.mint,
                    decimals,
                    mint_authority: self.payer,
                    freeze_authority: Some(self.payer),
                }),
    {
        let space = match space {
            Ok(n) => n,
            Err(e) => return CpiPlan { calls: Vec::new(), outcome: Err(e) },
        };
        let mut calls: Vec<TokenCpi> = Vec::new();
        calls.push(TokenCpi::CreateAccount {
            program_id: self.system_program,
            from: self.payer,
            to: self.mint,
            lamports,
            space: space as u64,
            owner: self.token_program,
        });
        calls.push(TokenCpi::InitializeMintCloseAuthority {
            program_id: self.token_program,
            token_program: self.token_program,
            mint: self.mint,
            close_authority: Some(self.payer),
        });
        calls.push(TokenCpi::InitializeMetadataPointer {
            program_id: self.token_program,
            token_program: self.token_program,
            mint: self.mint,
            metadata_authority: Some(self.payer),
            metadata_address: Some(self.mint),
        });
        calls.push(TokenCpi::InitializeDefaultAccountState {
            program_id: self.token_program,
            token_program: self.token_program,
            mint: self.mint,
            state: AccountStateKind::Frozen,
        });
        calls.push(TokenCpi::InitializeTransferFee {
            program_id: self.token_program,
            token_program: self.token_program,
            mint: self.mint,
            transfer_fee_config_authority: Some(self.payer),
            withdraw_withheld_authority: Some(self.payer),
            basis_points,
            maximum_fee,
        });
        calls.push(TokenCpi::InitializePermanentDelegate {
            program_id: self.token_program,
            token_program: self.token_program,
            mint: self.mint,
            delegate: self.permanent_delegate,
        });
        assert(calls@ == self.opening_calls(basis_points, maximum_fee, lamports, space));
        let init = match init {
            Ok(ix) => ix,
            Err(e) => return CpiPlan { calls, outcome: Err(HandlerError::Program(e)) },
        };
        let mut infos: Vec<Address> = Vec::new();
        infos.push(self.mint);
        infos.push(self.token_program);
        assert(infos@ == seq![self.mint, self.token_program]);
        calls.push(TokenCpi::Invoke(Invocation { instruction: init, account_infos: infos }));
        calls.push(TokenCpi::InitializeMint2 {
            program_id: self.token_program,
            mint: self.mint,
            decimals,
            mint_authority: self.payer,
            freeze_authority: Some(self.payer),
        });
        assert(calls@.subrange(0, 6) == self.opening_calls(basis_points, maximum_fee, lamports, space));
        CpiPlan { calls, outcome: Ok(()) }
    }

    /// Creates a mint whose tokens its permanent delegate can seize, whose
    /// new accounts start frozen, with a transfer fee and confidential
    /// transfers. `lamports` is the rent-exempt balance for
    /// `account_space()`. Returns the calls to make: none, when the size
    /// cannot be computed; the opening calls and then the setup error, when
    /// the program is not Token-2022 or the payer's key is all zeros;
    /// otherwise the whole setup.
    pub fn create_seizable_mint(&mut self, decimals: u8, basis_points: u16, maximum_fee: u64, lamports: u64) -> (plan: CpiPlan)
        ensures
            *final(self) == *old(self),
            match space_for(seizable_mint_extensions()) {
                Err(e) => plan.calls@.len() == 0 && plan.outcome is Err && plan.outcome->Err_0 == e,
                Ok(space) => match setup_error(old(self).token_program, old(self).payer) {
                    Some(e) => plan.calls@ == old(self).opening_calls(basis_points, maximum_fee, lamports, space)
                        && plan.outcome is Err && plan.outcome->Err_0 == HandlerError::Program(e),
                    None => old(self).completes(plan, decimals, basis_points, maximum_fee, lamports, space),
                },
            },
    {
        let space = self.account_space();
        let init = build_confidential_initialize_mint(&self.token_program, &self.mint, Some(self.payer), false, None);
        self.plan_for(decimals, basis_points, maximum_fee, lamports, space, init)
    }
}

} // verus!
