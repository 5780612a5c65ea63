use vstd::prelude::*;

use crate::errors::ErrorCode;
use crate::instructions::{cert_admin_error, check_cert_admin, refusal};
use crate::pubkey::Pubkey;
use crate::schema::cert::Cert;
use crate::schema::printer::Printer;

verus! {

/// The accounts that change a certificate's fee.
#[derive(Clone, Copy, Debug)]
pub struct SetCertFee {
    pub stable_token: Pubkey,
    pub secure_token: Pubkey,
    /// The signer, who must be the printer's authority.
    pub authority: Pubkey,
    pub printer_key: Pubkey,
    pub printer: Printer,
    pub cert: Cert,
}

impl SetCertFee {
    /// Why the signer may not change the certificate, if they may not.
    pub open spec fn accounts_error(self) -> Option<ErrorCode> {
        cert_admin_error(self.authority, self.secure_token, self.printer_key, self.printer, self.cert)
    }
}

/// `r` and `after` are what the operation makes of `before`.
pub open spec fn performed(
    before: SetCertFee,
    after: SetCertFee,
    fee: u64,
    r: Result<(), ErrorCode>,
) -> bool {
    &&& r == refusal(before.accounts_error())
    &&& r is Err ==> after == before
    &&& r is Ok ==> after == (SetCertFee { cert: Cert { fee, ..before.cert }, ..before })
}

/// Sets the certificate's fee, leaving every other field as it was.
pub fn exec(ctx: &mut SetCertFee, fee: u64) -> (r: Result<(), ErrorCode>)
    ensures
        performed(*old(ctx), *final(ctx), fee, r),
{
    check_cert_admin(&ctx.authority, &ctx.secure_token, &ctx.printer_key, &ctx.printer, &ctx.cert)?;
    ctx.cert.fee = fee;
    Ok(())
}

} // verus!
