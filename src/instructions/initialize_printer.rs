use vstd::prelude::*;

use crate::errors::ErrorCode;
use crate::pubkey::Pubkey;
use crate::schema::printer::Printer;

verus! {

/// The accounts that create a printer for a new stable token.
#[derive(Clone, Copy, Debug)]
pub struct InitializeStableToken {
    /// The new stable token, whose mint authority is the treasurer.
    pub stable_token: Pubkey,
    /// The creator, who signs and becomes the printer's authority.
    pub authority: Pubkey,
    /// The custodial signer of the printer's pool.
    pub treasurer: Pubkey,
    pub printer: Printer,
}

/// `r` and `after` are what the operation makes of `before`.
pub open spec fn performed(
    before: InitializeStableToken,
    after: InitializeStableToken,
    _decimals: u8,
    r: Result<(), ErrorCode>,
) -> bool {
    &&& r is Ok
    &&& after == (InitializeStableToken {
        printer: Printer { stable_token: before.stable_token, authority: before.authority },
        ..before
    })
}

/// Records the stable token and its authority in the new printer. The token's
/// `_decimals` are fixed when its mint is created and are no concern of the
/// printer.
pub fn exec(ctx: &mut InitializeStableToken, _decimals: u8) -> (r: Result<(), ErrorCode>)
    ensures
        performed(*old(ctx), *final(ctx), _decimals, r),
{
    ctx.printer.stable_token = ctx.stable_token;
    ctx.printer.authority = ctx.authority;
    Ok(())
}

} // verus!
