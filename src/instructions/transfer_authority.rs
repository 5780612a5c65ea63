use vstd::prelude::*;

use crate::errors::ErrorCode;
use crate::pubkey::Pubkey;
use crate::schema::printer::Printer;

verus! {

/// The accounts that hand a printer to a new authority.
#[derive(Clone, Copy, Debug)]
pub struct TransferAuthority {
    /// The signer, who must be the printer's current authority.
    pub authority: Pubkey,
    pub new_authority: Pubkey,
    pub printer: Printer,
}

/// `r` and `after` are what the operation makes of `before`.
pub open spec fn performed(
    before: TransferAuthority,
    after: TransferAuthority,
    r: Result<(), ErrorCode>,
) -> bool {
    if before.printer.authority != before.authority {
        r == Err::<(), ErrorCode>(ErrorCode::Unauthorized) && after == before
    } else {
        r is Ok && after == (TransferAuthority {
            printer: Printer { authority: before.new_authority, ..before.printer },
            ..before
        })
    }
}

/// Makes `new_authority` the printer's authority; only the current
/// authority may do so.
pub fn exec(ctx: &mut TransferAuthority) -> (r: Result<(), ErrorCode>)
    ensures
        performed(*old(ctx), *final(ctx), r),
{
    if !(ctx.printer.authority == ctx.authority) {
        return Err(ErrorCode::Unauthorized);
    }
    ctx.printer.authority = ctx.new_authority;
    Ok(())
}

} // verus!
