use vstd::prelude::*;

use crate::pubkey::Pubkey;

verus! {

/// Binds a stable token to the authority that administers it.
#[derive(Clone, Copy, Debug)]
pub struct Printer {
    pub stable_token: Pubkey,
    pub authority: Pubkey,
}

impl Printer {
    /// Bytes that a stored printer takes, discriminator included.
    pub const LEN: usize = 8 + 32 + 32;
}

} // verus!
