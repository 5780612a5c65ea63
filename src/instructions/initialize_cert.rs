use vstd::prelude::*;

use crate::errors::ErrorCode;
use crate::pubkey::Pubkey;
use crate::schema::cert::{Cert, CertState};
use crate::schema::printer::Printer;

verus! {

/// The accounts that create the certificate of a secure token under a printer.
#[derive(Clone, Copy, Debug)]
pub struct InitializeCert {
    pub stable_token: Pubkey,
    pub secure_token: Pubkey,
    /// The signer, who must be the printer's authority.
    pub authority: Pubkey,
    pub printer_key: Pubkey,
    pub printer: Printer,
    pub cert: Cert,
    /// The fee recipient's account of secure tokens.
    pub taxman: Pubkey,
    /// The owner of the taxman account.
    pub taxman_authority: Pubkey,
}

/// The certificate that the creation writes.
pub open spec fn created(ctx: InitializeCert, price: u64, fee: u64) -> Cert {
    Cert {
        printer: ctx.printer_key,
        secure_token: ctx.secure_token,
        price,
        fee,
        taxman: ctx.taxman,
        state: CertState::Active,
    }
}

/// `r` and `after` are what the operation makes of `before`.
pub open spec fn performed(
    before: InitializeCert,
    after: InitializeCert,
    price: u64,
    fee: u64,
    r: Result<(), ErrorCode>,
) -> bool {
    if before.printer.authority != before.authority {
        r == Err::<(), ErrorCode>(ErrorCode::Unauthorized) && after == before
    } else {
        r is Ok && after == (InitializeCert { cert: created(before, price, fee), ..before })
    }
}

/// Writes a new certificate with the given price and fee, in the `Active`
/// state; only the printer's authority may do so.
pub fn exec(ctx: &mut InitializeCert, price: u64, fee: u64) -> (r: Result<(), ErrorCode>)
    ensures
        performed(*old(ctx), *final(ctx), price, fee, r),
{
    if !(ctx.printer.authority == ctx.authority) {
        return Err(ErrorCode::Unauthorized);
    }
    ctx.cert = Cert {
        printer: ctx.printer_key,
        secure_token: ctx.secure_token,
        price,
        fee,
        taxman: ctx.taxman,
        state: CertState::Active,
    };
    Ok(())
}

} // verus!
