use vstd::prelude::*;

use crate::errors::ErrorCode;
use crate::instructions::{cert_admin_error, check_cert_admin, refusal};
use crate::pubkey::Pubkey;
use crate::schema::cert::{Cert, CertState};
use crate::schema::printer::Printer;

verus! {

/// The accounts that change a certificate's state.
#[derive(Clone, Copy, Debug)]
pub struct SetCertState {
    pub stable_token: Pubkey,
    pub secure_token: Pubkey,
    /// The signer, who must be the printer's authority.
    pub authority: Pubkey,
    pub printer_key: Pubkey,
    pub printer: Printer,
    pub cert: Cert,
}

impl SetCertState {
    /// Why the signer may not change the certificate, if they may not.
    pub open spec fn accounts_error(self) -> Option<ErrorCode> {
        cert_admin_error(self.authority, self.secure_token, self.printer_key, self.printer, self.cert)
    }
}

/// `r` and `after` are what the operation makes of `before`.
pub open spec fn performed(
    before: SetCertState,
    after: SetCertState,
    state: CertState,
    r: Result<(), ErrorCode>,
) -> bool {
    if before.accounts_error() is Some {
        r == refusal(before.accounts_error()) && after == before
    } else if state is Uninitialized {
        r == Err::<(), ErrorCode>(ErrorCode::UninitializedCert) && after == before
    } else {
        r is Ok && after == (SetCertState { cert: Cert { state, ..before.cert }, ..before })
    }
}

/// Moves the certificate to `state`. The accounts are checked first; then
/// `Uninitialized` is refused whatever the current state, and any other state
/// is entered directly.
pub fn exec(ctx: &mut SetCertState, state: CertState) -> (r: Result<(), ErrorCode>)
    ensures
        performed(*old(ctx), *final(ctx), state, r),
{
    check_cert_admin(&ctx.authority, &ctx.secure_token, &ctx.printer_key, &ctx.printer, &ctx.cert)?;
    ctx.cert.set_state(state)
}

} // verus!
