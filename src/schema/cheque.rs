use vstd::prelude::*;

use crate::pubkey::Pubkey;

verus! {

/// The new balance after adding `amount` to `balance`, or `None` on overflow.
pub open spec fn added(balance: u64, amount: u64) -> Option<u64> {
    if balance + amount > u64::MAX {
        None
    } else {
        Some((balance + amount) as u64)
    }
}

/// The new balance after taking `amount` from `balance`, or `None` when the
/// balance does not hold that much.
pub open spec fn subtracted(balance: u64, amount: u64) -> Option<u64> {
    if amount > balance {
        None
    } else {
        Some((balance - amount) as u64)
    }
}

/// Adding an amount and then taking the same amount back restores the balance.
pub proof fn lemma_add_then_sub_restores(balance: u64, amount: u64)
    ensures
        added(balance, amount) matches Some(total) ==> subtracted(total, amount) == Some(balance),
{
}

/// Taking more than the balance fails.
pub proof fn lemma_sub_beyond_balance_fails(balance: u64, amount: u64)
    requires
        amount > balance,
    ensures
        subtracted(balance, amount) is None,
{
}

/// The stable units that one owner has printed through one certificate and
/// not yet burned.
#[derive(Clone, Copy, Debug)]
pub struct Cheque {
    pub amount: u64,
    pub printer: Pubkey,
    pub secure_token: Pubkey,
    pub authority: Pubkey,
}

impl Cheque {
    /// Bytes that a stored cheque takes, discriminator included.
    pub const LEN: usize = 8 + 8 + 32 + 32 + 32;

    /// Adds `amount` to the cheque and returns the new balance; on overflow
    /// returns `None` and leaves the cheque as it was.
    pub fn add(&mut self, amount: u64) -> (r: Option<u64>)
        ensures
            r == added(old(self).amount, amount),
            r matches Some(n) ==> *final(self) == (Cheque { amount: n, ..*old(self) }),
            r is None ==> *final(self) == *old(self),
    {
        let total = self.amount.checked_add(amount)?;
        self.amount = total;
        Some(total)
    }

    /// Takes `amount` from the cheque and returns the new balance; when the
    /// cheque holds less, returns `None` and leaves it as it was.
    pub fn sub(&mut self, amount: u64) -> (r: Option<u64>)
        ensures
            r == subtracted(old(self).amount, amount),
            r matches Some(n) ==> *final(self) == (Cheque { amount: n, ..*old(self) }),
            r is None ==> *final(self) == *old(self),
    {
        if self.amount < amount {
            return None;
        }
        let rest = self.amount.checked_sub(amount)?;
        self.amount = rest;
        Some(rest)
    }
}

} // verus!
