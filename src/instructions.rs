use vstd::prelude::*;

use crate::errors::ErrorCode;
use crate::pubkey::Pubkey;
use crate::schema::cert::Cert;
use crate::schema::printer::Printer;

pub mod burn;
pub mod initialize_cert;
pub mod initialize_cheque;
pub mod initialize_printer;
pub mod print;
pub mod set_cert_fee;
pub mod set_cert_state;
pub mod set_cert_taxman;
pub mod transfer_authority;

verus! {

/// Why an administrative change to a certificate is refused, if it is: the
/// certificate must belong to the printer and to the secure token named, and
/// the signer must be the printer's authority.
pub open spec fn cert_admin_error(
    authority: Pubkey,
    secure_token: Pubkey,
    printer_key: Pubkey,
    printer: Printer,
    cert: Cert,
) -> Option<ErrorCode> {
    if cert.printer != printer_key || cert.secure_token != secure_token {
        Some(ErrorCode::MismatchedAccount)
    } else if printer.authority != authority {
        Some(ErrorCode::Unauthorized)
    } else {
        None
    }
}

/// `Err` of the error, or `Ok(())` when there is none.
pub open spec fn refusal(e: Option<ErrorCode>) -> Result<(), ErrorCode> {
    match e {
        Some(e) => Err(e),
        None => Ok(()),
    }
}

/// Checks that the signer may change the certificate.
pub fn check_cert_admin(
    authority: &Pubkey,
    secure_token: &Pubkey,
    printer_key: &Pubkey,
    printer: &Printer,
    cert: &Cert,
) -> (r: Result<(), ErrorCode>)
    ensures
        r == refusal(cert_admin_error(*authority, *secure_token, *printer_key, *printer, *cert)),
{
    if !(cert.printer == *printer_key) || !(cert.secure_token == *secure_token) {
        return Err(ErrorCode::MismatchedAccount);
    }
    if !(printer.authority == *authority) {
        return Err(ErrorCode::Unauthorized);
    }
    Ok(())
}

} // verus!
