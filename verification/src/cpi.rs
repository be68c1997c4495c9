use vstd::prelude::*;

verus! {

/// A 32-byte account address.
pub type Address = [u8; 32];

/// One account of an instruction, as `AccountMeta` describes it.
#[derive(Clone, Copy, Debug, PartialEq, Eq)]
pub struct AccountMetaView {
    pub key: Address,
    pub is_signer: bool,
    pub is_writable: bool,
}

/// A writable account.
pub open spec fn writable(key: Address, is_signer: bool) -> AccountMetaView {
    AccountMetaView { key, is_signer, is_writable: true }
}

/// A read-only account.
pub open spec fn readonly(key: Address, is_signer: bool) -> AccountMetaView {
    AccountMetaView { key, is_signer, is_writable: false }
}

/// An instruction for another program: its id, its accounts and its data.
#[derive(Clone, Debug, PartialEq, Eq)]
pub struct RawInstruction {
    pub program_id: Address,
    pub accounts: Vec<AccountMetaView>,
    pub data: Vec<u8>,
}

/// An instruction to invoke, with the accounts to hand to the invocation in
/// the order this program hands them.
#[derive(Clone, Debug, PartialEq, Eq)]
pub struct Invocation {
    pub instruction: RawInstruction,
    pub account_infos: Vec<Address>,
}

/// The state that new token accounts of a mint start in.
#[derive(Clone, Copy, Debug, PartialEq, Eq)]
pub enum AccountStateKind {
    Uninitialized,
    Initialized,
    Frozen,
}

/// A cross-program call this program makes. `program_id` is the program
/// that the call's context names; the other fields are the accounts and
/// arguments of the call.
#[derive(Clone, Debug, PartialEq, Eq)]
pub enum TokenCpi {
    /// System program `create_account`.
    CreateAccount {
        program_id: Address,
        from: Address,
        to: Address,
        lamports: u64,
        space: u64,
        owner: Address,
    },
    /// Token-2022 `InitializeMintCloseAuthority`.
    InitializeMintCloseAuthority {
        program_id: Address,
        token_program: Address,
        mint: Address,
        close_authority: Option<Address>,
    },
    /// Token-2022 `InitializeTransferFeeConfig`.
    InitializeTransferFee {
        program_id: Address,
        token_program: Address,
        mint: Address,
        transfer_fee_config_authority: Option<Address>,
        withdraw_withheld_authority: Option<Address>,
        basis_points: u16,
        maximum_fee: u64,
    },
    /// Token-2022 metadata pointer `Initialize`.
    InitializeMetadataPointer {
        program_id: Address,
        token_program: Address,
        mint: Address,
        metadata_authority: Option<Address>,
        metadata_address: Option<Address>,
    },
    /// Token-2022 default account state `Initialize`.
    InitializeDefaultAccountState {
        program_id: Address,
        token_program: Address,
        mint: Address,
        state: AccountStateKind,
    },
    /// Token-2022 `InitializePermanentDelegate`.
    InitializePermanentDelegate {
        program_id: Address,
        token_program: Address,
        mint: Address,
        delegate: Address,
    },
    /// Token-2022 `InitializeMint2`.
    InitializeMint2 {
        program_id: Address,
        mint: Address,
        decimals: u8,
        mint_authority: Address,
        freeze_authority: Option<Address>,
    },
    /// Token-2022 `Approve`.
    Approve {
        program_id: Address,
        to: Address,
        delegate: Address,
        authority: Address,
        amount: u64,
    },
    /// Token-2022 `TransferCheckedWithFee`.
    TransferCheckedWithFee {
        program_id: Address,
        token_program: Address,
        source: Address,
        mint: Address,
        destination: Address,
        authority: Address,
        amount: u64,
        decimals: u8,
        fee: u64,
    },
    /// A prepared instruction, invoked as it is.
    Invoke(Invocation),
}

/// What a handler does: make `calls` in order, stopping at the first that
/// fails, and then, when all succeeded, end with `outcome`.
#[derive(Debug, PartialEq, Eq)]
pub struct CpiPlan {
    pub calls: Vec<TokenCpi>,
    pub outcome: Result<(), crate::error::HandlerError>,
}

} // verus!

verus! {

/// Whether `call` invokes the instruction for `program` with these accounts
/// and data, handing over `infos`.
pub open spec fn is_invocation(
    call: TokenCpi,
    program: Address,
    accounts: Seq<AccountMetaView>,
    data: Seq<u8>,
    infos: Seq<Address>,
) -> bool {
    &&& call is Invoke
    &&& invocation_is(call->Invoke_0, program, accounts, data, infos)
}

/// Whether `inv` is the instruction for `program` with these accounts and
/// data, handing over `infos`.
pub open spec fn invocation_is(
    inv: Invocation,
    program: Address,
    accounts: Seq<AccountMetaView>,
    data: Seq<u8>,
    infos: Seq<Address>,
) -> bool {
    &&& crate::confidential_ix::is_instruction(inv.instruction, program, accounts, data)
    &&& inv.account_infos@ == infos
}

/// The system call that creates a mint account of `space` bytes funded
/// with `lamports`, owned by the token program.
pub open spec fn create_mint_account_call(
    program_id: Address,
    payer: Address,
    mint: Address,
    lamports: u64,
    space: usize,
    token_program: Address,
) -> TokenCpi {
    TokenCpi::CreateAccount { program_id, from: payer, to: mint, lamports, space: space as u64, owner: token_program }
}

} // verus!
