use vstd::prelude::*;

use crate::errors::ErrorCode;
use crate::pubkey::Pubkey;
use crate::schema::cheque::Cheque;
use crate::schema::printer::Printer;

verus! {

/// The accounts that open a caller's cheque for a secure token under a printer.
#[derive(Clone, Copy, Debug)]
pub struct InitializeCheque {
    pub stable_token: Pubkey,
    pub secure_token: Pubkey,
    /// The caller, who signs and owns the cheque.
    pub authority: Pubkey,
    pub printer_key: Pubkey,
    pub printer: Printer,
    pub cheque: Cheque,
}

/// `r` and `after` are what the operation makes of `before`.
pub open spec fn performed(
    before: InitializeCheque,
    after: InitializeCheque,
    r: Result<(), ErrorCode>,
) -> bool {
    &&& r is Ok
    &&& after == (InitializeCheque {
        cheque: Cheque {
            amount: 0,
            printer: before.printer_key,
            secure_token: before.secure_token,
            authority: before.authority,
        },
        ..before
    })
}

/// Opens an empty cheque owned by the caller; any caller may open their own.
pub fn exec(ctx: &mut InitializeCheque) -> (r: Result<(), ErrorCode>)
    ensures
        performed(*old(ctx), *final(ctx), r),
{
    ctx.cheque = Cheque {
        amount: 0,
        printer: ctx.printer_key,
        secure_token: ctx.secure_token,
        authority: ctx.authority,
    };
    Ok(())
}

} // verus!
