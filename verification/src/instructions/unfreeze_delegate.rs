use vstd::prelude::*;
use crate::cpi::{Address, TokenCpi};

verus! {

/// Accounts of a delegation: the token account's owner, the token account,
/// the delegate, and the token program.
pub struct UnfreezeDelegate {
    pub owner: Address,
    pub token_account: Address,
    pub delegate: Address,
    pub token_program: Address,
}

impl UnfreezeDelegate {
    /// Lets `delegate` move up to `amount` out of the token account on the
    /// owner's authority. Returns the approval to make.
    pub fn delegate_to_program(&mut self, amount: u64) -> (r: TokenCpi)
        ensures
            *final(self) == *old(self),
            r == (TokenCpi::Approve {
                program_id: old(self).token_program,
                to: old(self).token_account,
                delegate: old(self).delegate,
                authority: old(self).owner,
                amount,
            }),
    {
        TokenCpi::Approve {
            program_id: self.token_program,
            to: self.token_account,
            delegate: self.delegate,
            authority: self.owner,
            amount,
        }
    }
}

} // verus!
