use vstd::prelude::*;
use crate::constants::TOKEN_2022_PROGRAM_ID;
use crate::confidential_ix::{
    apply_pending_balance_data, approve_account_data, build_apply_pending_balance, build_approve_account,
    build_configure_account, build_deposit, build_transfer, build_withdraw, configure_account_data,
    deposit_data, transfer_data, withdraw_data,
};
use crate::cpi::{Address, Invocation, RawInstruction, invocation_is, readonly, writable};
use crate::error::{HandlerError, INCORRECT_PROGRAM_ID};
use crate::token::{mint_unpack_result, token_account_unpack_result, unpack_mint, unpack_token_account};

verus! {

/// Whether `data` reads as a Token-2022 mint, or the error it gives.
pub open spec fn mint_check(data: Seq<u8>) -> Result<(), HandlerError> {
    match mint_unpack_result(data) {
        Ok(_) => Ok(()),
        Err(e) => Err(HandlerError::Program(e)),
    }
}

/// Whether `data` reads as a Token-2022 token account, or the error it
/// gives.
pub open spec fn account_check(data: Seq<u8>) -> Result<(), HandlerError> {
    match token_account_unpack_result(data) {
        Ok(_) => Ok(()),
        Err(e) => Err(HandlerError::Program(e)),
    }
}

/// Whether the instructions can be built for `token_program`: only for
/// Token-2022.
pub open spec fn program_check(token_program: Address) -> Result<(), HandlerError> {
    if token_program == TOKEN_2022_PROGRAM_ID {
        Ok(())
    } else {
        Err(HandlerError::Program(INCORRECT_PROGRAM_ID))
    }
}

/// The first of two checks that fails, or success.
pub open spec fn first_failure(first: Result<(), HandlerError>, second: Result<(), HandlerError>) -> Result<(), HandlerError> {
    if first is Err { first } else { second }
}

/// Whether a handler that returns one invocation behaved as stated: it
/// fails exactly when `status` does, with its error, and otherwise returns
/// the instruction for the token program with these accounts and data,
/// handing over `infos`.
pub open spec fn invokes(
    r: Result<Invocation, HandlerError>,
    status: Result<(), HandlerError>,
    token_program: Address,
    accounts: Seq<crate::cpi::AccountMetaView>,
    data: Seq<u8>,
    infos: Seq<Address>,
) -> bool {
    &&& (r is Ok <==> status is Ok)
    &&& r is Err ==> r->Err_0 == status->Err_0
    &&& r is Ok ==> invocation_is(r->Ok_0, token_program, accounts, data, infos)
}

/// The invocation of a handler, given the outcome of its account checks
/// and of building its instruction: the check error, if any; else the build
/// error; else the built instruction with `infos`.
pub fn invocation_after_checks(
    status: Result<(), HandlerError>,
    ix: Result<RawInstruction, u64>,
    infos: Vec<Address>,
) -> (r: Result<Invocation, HandlerError>)
    ensures
        status is Err ==> r == Err::<Invocation, HandlerError>(status->Err_0),
        status is Ok && ix is Err ==> r == Err::<Invocation, HandlerError>(HandlerError::Program(ix->Err_0)),
        status is Ok && ix is Ok ==> r is Ok && r->Ok_0.instruction == ix->Ok_0 && r->Ok_0.account_infos@ == infos@,
{
    if let Err(e) = status {
        return Err(e);
    }
    match ix {
        Ok(ix) => Ok(Invocation { instruction: ix, account_infos: infos }),
        Err(e) => Err(HandlerError::Program(e)),
    }
}

/// The two invocations of an apply-then-withdraw, given the outcome of the
/// account checks, of preparing the apply and of building the withdrawal:
/// the first error among them, or the apply followed by the withdrawal
/// handing over `infos`.
pub fn steps_after_checks(
    status: Result<(), HandlerError>,
    apply: Result<Invocation, HandlerError>,
    withdraw: Result<RawInstruction, u64>,
    infos: Vec<Address>,
) -> (r: Result<Vec<Invocation>, HandlerError>)
    ensures
        status is Err ==> r == Err::<Vec<Invocation>, HandlerError>(status->Err_0),
        status is Ok && apply is Err ==> r == Err::<Vec<Invocation>, HandlerError>(apply->Err_0),
        status is Ok && apply is Ok && withdraw is Err ==> r == Err::<Vec<Invocation>, HandlerError>(HandlerError::Program(withdraw->Err_0)),
        status is Ok && apply is Ok && withdraw is Ok ==> {
            &&& r is Ok
            &&& r->Ok_0@.len() == 2
            &&& r->Ok_0@[0] == apply->Ok_0
            &&& r->Ok_0@[1].instruction == withdraw->Ok_0
            &&& r->Ok_0@[1].account_infos@ == infos@
        },
{
    if let Err(e) = status {
        return Err(e);
    }
    let apply = match apply {
        Ok(inv) => inv,
        Err(e) => return Err(e),
    };
    let ix = match withdraw {
        Ok(ix) => ix,
        Err(e) => return Err(HandlerError::Program(e)),
    };
    let mut steps: Vec<Invocation> = Vec::new();
    steps.push(apply);
    steps.push(Invocation { instruction: ix, account_infos: infos });
    Ok(steps)
}

/// Checks that `mint_data` reads as a Token-2022 mint.
pub fn read_mint(mint_data: &Vec<u8>) -> (r: Result<(), HandlerError>)
    ensures
        r == mint_check(mint_data@),
{
    match unpack_mint(mint_data.as_slice()) {
        Ok(()) => Ok(()),
        Err(e) => Err(HandlerError::Program(e)),
    }
}

/// Checks that `token_account_data` reads as a Token-2022 token account.
pub fn read_token_account(token_account_data: &Vec<u8>) -> (r: Result<(), HandlerError>)
    ensures
        r == account_check(token_account_data@),
{
    match unpack_token_account(token_account_data.as_slice()) {
        Ok(()) => Ok(()),
        Err(e) => Err(HandlerError::Program(e)),
    }
}

/// Credits the pending confidential balance of a token account to its
/// available balance: checks the account, then builds the instruction
/// with the expected credit counter and the new decryptable balance.
pub fn apply_pending_balance(
    token_program: &Address,
    token_account: &Address,
    token_account_data: &Vec<u8>,
    authority: &Address,
    expected_pending_balance_credit_counter: u64,
    new_decryptable_available_balance: [u8; 36],
) -> (r: Result<Invocation, HandlerError>)
    ensures
        invokes(r, first_failure(account_check(token_account_data@), program_check(*token_program)), *token_program,
            seq![writable(*token_account, false), readonly(*authority, true)],
            apply_pending_balance_data(expected_pending_balance_credit_counter, new_decryptable_available_balance),
            seq![*token_account, *authority, *token_program]),
{
    let status = read_token_account(token_account_data);
    let ix = build_apply_pending_balance(
        token_program,
        token_account,
        expected_pending_balance_credit_counter,
        &new_decryptable_available_balance,
        authority,
    );
    let mut infos: Vec<Address> = Vec::new();
    infos.push(*token_account);
    infos.push(*authority);
    infos.push(*token_program);
    assert(infos@ == seq![*token_account, *authority, *token_program]);
    invocation_after_checks(status, ix, infos)
}

/// Accounts of the confidential account configuration: the token account
/// and mint with their data, the pubkey validity proof context, the
/// authority, and the token program.
pub struct ConfigureConfidentialAccount {
    pub token_account: Address,
    pub token_account_data: Vec<u8>,
    pub mint: Address,
    pub mint_data: Vec<u8>,
    pub pubkey_validity_proof_context: Address,
    pub authority: Address,
    pub token_program: Address,
}

impl ConfigureConfidentialAccount {
    /// Configures a token account for confidential transfers with a
    /// decryptable zero balance and a limit on pending credits, the
    /// ElGamal key having been proven valid in the proof context. Checks
    /// the token account, then the mint, then builds the instruction.
    pub fn configure_account(
        &mut self,
        decryptable_zero_balance: [u8; 36],
        maximum_pending_balance_credit_counter: u64,
    ) -> (r: Result<Invocation, HandlerError>)
        ensures
            *final(self) == *old(self),
            invokes(r,
                first_failure(account_check(old(self).token_account_data@), first_failure(mint_check(old(self).mint_data@), program_check(old(self).token_program))),
                old(self).token_program,
                seq![writable(old(self).token_account, false), readonly(old(self).mint, false),
                    readonly(old(self).pubkey_validity_proof_context, false), readonly(old(self).authority, true)],
                configure_account_data(decryptable_zero_balance, maximum_pending_balance_credit_counter),
                seq![old(self).token_account, old(self).mint, old(self).pubkey_validity_proof_context,
                    old(self).authority, old(self).token_program]),
    {
        let status = match read_token_account(&self.token_account_data) {
            Err(e) => Err(e),
            Ok(()) => read_mint(&self.mint_data),
        };
        let ix = build_configure_account(
            &self.token_program,
            &self.token_account,
            &self.mint,
            &decryptable_zero_balance,
            maximum_pending_balance_credit_counter,
            &self.authority,
            &self.pubkey_validity_proof_context,
        );
        let mut infos: Vec<Address> = Vec::new();
        infos.push(self.token_account);
        infos.push(self.mint);
        infos.push(self.pubkey_validity_proof_context);
        infos.push(self.authority);
        infos.push(self.token_program);
        assert(infos@ == seq![self.token_account, self.mint, self.pubkey_validity_proof_context, self.authority, self.token_program]);
        invocation_after_checks(status, ix, infos)
    }
}

/// Accounts of the confidential account approval: the token account and
/// mint with their data, the mint's confidential transfer authority, and
/// the token program.
pub struct ApproveConfidentialAccount {
    pub token_account: Address,
    pub token_account_data: Vec<u8>,
    pub mint: Address,
    pub mint_data: Vec<u8>,
    pub confidential_authority: Address,
    pub token_program: Address,
}

impl ApproveConfidentialAccount {
    /// Approves a configured token account for confidential transfers.
    /// Checks the token account, then the mint, then builds the
    /// instruction.
    pub fn approve_account(&mut self) -> (r: Result<Invocation, HandlerError>)
        ensures
            *final(self) == *old(self),
            invokes(r,
                first_failure(account_check(old(self).token_account_data@), first_failure(mint_check(old(self).mint_data@), program_check(old(self).token_program))),
                old(self).token_program,
                seq![writable(old(self).token_account, false), readonly(old(self).mint, false),
                    readonly(old(self).confidential_authority, true)],
                approve_account_data(),
                seq![old(self).token_account, old(self).mint, old(self).confidential_authority, old(self).token_program]),
    {
        let status = match read_token_account(&self.token_account_data) {
            Err(e) => Err(e),
            Ok(()) => read_mint(&self.mint_data),
        };
        let ix = build_approve_account(&self.token_program, &self.token_account, &self.mint, &self.confidential_authority);
        let mut infos: Vec<Address> = Vec::new();
        infos.push(self.token_account);
        infos.push(self.mint);
        infos.push(self.confidential_authority);
        infos.push(self.token_program);
        assert(infos@ == seq![self.token_account, self.mint, self.confidential_authority, self.token_program]);
        invocation_after_checks(status, ix, infos)
    }
}

/// Accounts of the deposit and apply lifecycle: the token account and mint
/// with their data, the account's owner, and the token program.
pub struct ConfidentialLifecycle {
    pub token_account: Address,
    pub token_account_data: Vec<u8>,
    pub mint: Address,
    pub mint_data: Vec<u8>,
    pub authority: Address,
    pub token_program: Address,
}

impl ConfidentialLifecycle {
    /// Moves `amount` of the account's public balance into its pending
    /// confidential balance. Checks the token account, then the mint, then
    /// builds the instruction.
    pub fn deposit_confidential(&mut self, amount: u64, decimals: u8) -> (r: Result<Invocation, HandlerError>)
        ensures
            *final(self) == *old(self),
            invokes(r,
                first_failure(account_check(old(self).token_account_data@), first_failure(mint_check(old(self).mint_data@), program_check(old(self).token_program))),
                old(self).token_program,
                seq![writable(old(self).token_account, false), readonly(old(self).mint, false), readonly(old(self).authority, true)],
                deposit_data(amount, decimals),
                seq![old(self).token_account, old(self).mint, old(self).authority, old(self).token_program]),
    {
        let status = match read_token_account(&self.token_account_data) {
            Err(e) => Err(e),
            Ok(()) => read_mint(&self.mint_data),
        };
        let ix = build_deposit(&self.token_program, &self.token_account, &self.mint, amount, decimals, &self.authority);
        let mut infos: Vec<Address> = Vec::new();
        infos.push(self.token_account);
        infos.push(self.mint);
        infos.push(self.authority);
        infos.push(self.token_program);
        assert(infos@ == seq![self.token_account, self.mint, self.authority, self.token_program]);
        invocation_after_checks(status, ix, infos)
    }

    /// Credits the pending balance to the available balance, as the free
    /// `apply_pending_balance` does for this account and owner.
    pub fn apply_pending_balance(
        &mut self,
        expected_pending_balance_credit_counter: u64,
        new_decryptable_available_balance: [u8; 36],
    ) -> (r: Result<Invocation, HandlerError>)
        ensures
            *final(self) == *old(self),
            invokes(r, first_failure(account_check(old(self).token_account_data@), program_check(old(self).token_program)),
                old(self).token_program,
                seq![writable(old(self).token_account, false), readonly(old(self).authority, true)],
                apply_pending_balance_data(expected_pending_balance_credit_counter, new_decryptable_available_balance),
                seq![old(self).token_account, old(self).authority, old(self).token_program]),
    {
        apply_pending_balance(
            &self.token_program,
            &self.token_account,
            &self.token_account_data,
            &self.authority,
            expected_pending_balance_credit_counter,
            new_decryptable_available_balance,
        )
    }
}

/// Accounts of a confidential transfer: source and destination token
/// accounts and the mint with their data, the three proof contexts, the
/// source's owner, and the token program.
pub struct ConfidentialTransfer {
    pub source: Address,
    pub source_data: Vec<u8>,
    pub mint: Address,
    pub mint_data: Vec<u8>,
    pub destination: Address,
    pub destination_data: Vec<u8>,
    pub equality_proof_context: Address,
    pub ciphertext_validity_proof_context: Address,
    pub range_proof_context: Address,
    pub authority: Address,
    pub token_program: Address,
}

impl ConfidentialTransfer {
    /// The checks of a transfer, in order: source, destination, mint, and
    /// the token program.
    pub open spec fn status(self) -> Result<(), HandlerError> {
        first_failure(account_check(self.source_data@), first_failure(account_check(self.destination_data@),
            first_failure(mint_check(self.mint_data@), program_check(self.token_program))))
    }

    /// Transfers a confidential amount, the proofs being in the three
    /// contexts and the amount encrypted for the auditor in two halves.
    /// Checks the source, the destination and the mint, then builds the
    /// instruction.
    pub fn transfer_confidential(
        &mut self,
        new_source_decryptable_available_balance: [u8; 36],
        transfer_amount_auditor_ciphertext_lo: [u8; 64],
        transfer_amount_auditor_ciphertext_hi: [u8; 64],
    ) -> (r: Result<Invocation, HandlerError>)
        ensures
            *final(self) == *old(self),
            invokes(r, old(self).status(), old(self).token_program,
                seq![writable(old(self).source, false), readonly(old(self).mint, false), writable(old(self).destination, false),
                    readonly(old(self).equality_proof_context, false), readonly(old(self).ciphertext_validity_proof_context, false),
                    readonly(old(self).range_proof_context, false), readonly(old(self).authority, true)],
                transfer_data(new_source_decryptable_available_balance, transfer_amount_auditor_ciphertext_lo,
                    transfer_amount_auditor_ciphertext_hi),
                seq![old(self).source, old(self).mint, old(self).destination, old(self).equality_proof_context,
                    old(self).ciphertext_validity_proof_context, old(self).range_proof_context, old(self).authority,
                    old(self).token_program]),
    {
        let status = match read_token_account(&self.source_data) {
            Err(e) => Err(e),
            Ok(()) => match read_token_account(&self.destination_data) {
            Err(e) => Err(e),
            Ok(()) => read_mint(&self.mint_data),
        },
        };
        let ix = build_transfer(
            &self.token_program,
            &self.source,
            &self.mint,
            &self.destination,
            &new_source_decryptable_available_balance,
            &transfer_amount_auditor_ciphertext_lo,
            &transfer_amount_auditor_ciphertext_hi,
            &self.authority,
            &self.equality_proof_context,
            &self.ciphertext_validity_proof_context,
            &self.range_proof_context,
        );
        let mut infos: Vec<Address> = Vec::new();
        infos.push(self.source);
        infos.push(self.mint);
        infos.push(self.destination);
        infos.push(self.equality_proof_context);
        infos.push(self.ciphertext_validity_proof_context);
        infos.push(self.range_proof_context);
        infos.push(self.authority);
        infos.push(self.token_program);
        assert(infos@ == seq![self.source, self.mint, self.destination, self.equality_proof_context, self.ciphertext_validity_proof_context, self.range_proof_context, self.authority, self.token_program]);
        invocation_after_checks(status, ix, infos)
    }
}

/// Accounts of an apply-then-withdraw: the token account and mint with
/// their data, the two proof contexts, the owner, and the token program.
pub struct ConfidentialWithdraw {
    pub token_account: Address,
    pub token_account_data: Vec<u8>,
    pub mint: Address,
    pub mint_data: Vec<u8>,
    pub equality_proof_context: Address,
    pub range_proof_context: Address,
    pub authority: Address,
    pub token_program: Address,
}

impl ConfidentialWithdraw {
    /// Credits the pending balance, then withdraws `amount` from the
    /// confidential balance back to the public balance. Checks the token
    /// account and the mint, then returns the two invocations in order:
    /// the apply, then the withdrawal.
    pub fn apply_then_withdraw_confidential(
        &mut self,
        expected_pending_balance_credit_counter: u64,
        applied_decryptable_available_balance: [u8; 36],
        amount: u64,
        decimals: u8,
        post_withdraw_decryptable_available_balance: [u8; 36],
    ) -> (r: Result<Vec<Invocation>, HandlerError>)
        ensures
            *final(self) == *old(self),
            ({
                let s = old(self);
                let status = first_failure(account_check(s.token_account_data@), first_failure(mint_check(s.mint_data@), program_check(s.token_program)));
                &&& (r is Ok <==> status is Ok)
                &&& r is Err ==> r->Err_0 == status->Err_0
                &&& r is Ok ==> {
                    &&& r->Ok_0@.len() == 2
                    &&& invocation_is(r->Ok_0@[0], s.token_program,
                            seq![writable(s.token_account, false), readonly(s.authority, true)],
                            apply_pending_balance_data(expected_pending_balance_credit_counter, applied_decryptable_available_balance),
                            seq![s.token_account, s.authority, s.token_program])
                    &&& invocation_is(r->Ok_0@[1], s.token_program,
                            seq![writable(s.token_account, false), readonly(s.mint, false), readonly(s.equality_proof_context, false),
                                readonly(s.range_proof_context, false), readonly(s.authority, true)],
                            withdraw_data(amount, decimals, post_withdraw_decryptable_available_balance),
                            seq![s.token_account, s.mint, s.equality_proof_context, s.range_proof_context, s.authority, s.token_program])
                }
            }),
    {
        let status = match read_token_account(&self.token_account_data) {
            Err(e) => Err(e),
            Ok(()) => read_mint(&self.mint_data),
        };
        let apply = apply_pending_balance(
            &self.token_program,
            &self.token_account,
            &self.token_account_data,
            &self.authority,
            expected_pending_balance_credit_counter,
            applied_decryptable_available_balance,
        );
        let ix = build_withdraw(
            &self.token_program,
            &self.token_account,
            &self.mint,
            amount,
            decimals,
            &post_withdraw_decryptable_available_balance,
            &self.authority,
            &self.equality_proof_context,
            &self.range_proof_context,
        );
        let mut infos: Vec<Address> = Vec::new();
        infos.push(self.token_account);
        infos.push(self.mint);
        infos.push(self.equality_proof_context);
        infos.push(self.range_proof_context);
        infos.push(self.authority);
        infos.push(self.token_program);
        assert(infos@ == seq![self.token_account, self.mint, self.equality_proof_context, self.range_proof_context, self.authority, self.token_program]);
        steps_after_checks(status, apply, ix, infos)
    }
}

} // verus!
