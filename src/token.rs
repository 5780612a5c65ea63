use vstd::prelude::*;

use crate::pubkey::Pubkey;

verus! {

/// A call into the token ledger that an operation asks for. The caller makes
/// the calls in order, and only after the operation has succeeded as a whole.
#[derive(Clone, Copy, Debug)]
pub enum TokenOp {
    /// Move `amount` units from account `from` to account `to`, signed by `authority`.
    Transfer { from: Pubkey, to: Pubkey, authority: Pubkey, amount: u64 },
    /// Create `amount` units of token `mint` in account `to`, signed by `authority`.
    MintTo { mint: Pubkey, to: Pubkey, authority: Pubkey, amount: u64 },
    /// Destroy `amount` units of token `mint` held in account `from`, signed by `authority`.
    Burn { mint: Pubkey, from: Pubkey, authority: Pubkey, amount: u64 },
}

} // verus!
