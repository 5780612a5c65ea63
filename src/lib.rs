//! Accounting and authorization core of a collateralized stable-token printer.
//!
//! A printer binds a stable token to an authority. Each certificate fixes the
//! price and the redemption fee of one collateral ("secure") token, and gates
//! printing and burning by its state. Each cheque records how many stable
//! units one owner has printed through one certificate and not yet burned.
//! Conversions follow the price/fee model: a burn pays out collateral at the
//! certificate's price, less a fee that goes to the certificate's taxman.
//!
//! The operations below check their accounts, decide, and update the records
//! they are handed. The token calls that an operation needs come back as a list
//! of `TokenOp`s, which the caller makes only once the operation has succeeded.
use vstd::prelude::*;

pub mod errors;
pub mod instructions;
pub mod pubkey;
pub mod schema;
pub mod token;

pub use errors::ErrorCode;
pub use instructions::burn::Burn;
pub use instructions::initialize_cert::InitializeCert;
pub use instructions::initialize_cheque::InitializeCheque;
pub use instructions::initialize_printer::InitializeStableToken;
pub use instructions::print::Print;
pub use instructions::set_cert_fee::SetCertFee;
pub use instructions::set_cert_state::SetCertState;
pub use instructions::set_cert_taxman::SetCertTaxman;
pub use instructions::transfer_authority::TransferAuthority;
pub use pubkey::Pubkey;
pub use schema::cert::{Cert, CertState, PRECISION};
pub use schema::cheque::Cheque;
pub use schema::printer::Printer;
pub use token::TokenOp;

verus! {

/// Creates a printer for a new stable token of `decimals` decimal places.
pub fn initialize_printer(ctx: &mut InitializeStableToken, decimals: u8) -> (r: Result<
    (),
    ErrorCode,
>)
    ensures
        instructions::initialize_printer::performed(*old(ctx), *final(ctx), decimals, r),
{
    instructions::initialize_printer::exec(ctx, decimals)
}

/// Creates the certificate of a secure token with a price and a fee, both
/// scaled by `PRECISION`.
pub fn initialize_cert(ctx: &mut InitializeCert, price: u64, fee: u64) -> (r: Result<
    (),
    ErrorCode,
>)
    ensures
        instructions::initialize_cert::performed(*old(ctx), *final(ctx), price, fee, r),
{
    instructions::initialize_cert::exec(ctx, price, fee)
}

/// Opens the caller's empty cheque.
pub fn initialize_cheque(ctx: &mut InitializeCheque) -> (r: Result<(), ErrorCode>)
    ensures
        instructions::initialize_cheque::performed(*old(ctx), *final(ctx), r),
{
    instructions::initialize_cheque::exec(ctx)
}

/// Prints stable tokens for `amount` secure tokens.
pub fn print(ctx: &mut Print, amount: u64) -> (r: Result<Vec<TokenOp>, ErrorCode>)
    ensures
        instructions::print::performed(*old(ctx), *final(ctx), amount, r),
{
    instructions::print::exec(ctx, amount)
}

/// Burns `amount` stable tokens for secure tokens, less the fee.
pub fn burn(ctx: &mut Burn, amount: u64) -> (r: Result<Vec<TokenOp>, ErrorCode>)
    ensures
        instructions::burn::performed(*old(ctx), *final(ctx), amount, r),
{
    instructions::burn::exec(ctx, amount)
}

/// Moves a certificate to another state.
pub fn set_cert_state(ctx: &mut SetCertState, state: CertState) -> (r: Result<(), ErrorCode>)
    ensures
        instructions::set_cert_state::performed(*old(ctx), *final(ctx), state, r),
{
    instructions::set_cert_state::exec(ctx, state)
}

/// Changes a certificate's fee.
pub fn set_cert_fee(ctx: &mut SetCertFee, fee: u64) -> (r: Result<(), ErrorCode>)
    ensures
        instructions::set_cert_fee::performed(*old(ctx), *final(ctx), fee, r),
{
    instructions::set_cert_fee::exec(ctx, fee)
}

/// Changes where a certificate's fees go.
pub fn set_cert_taxman(ctx: &mut SetCertTaxman) -> (r: Result<(), ErrorCode>)
    ensures
        instructions::set_cert_taxman::performed(*old(ctx), *final(ctx), r),
{
    instructions::set_cert_taxman::exec(ctx)
}

/// Hands a printer to a new authority.
pub fn transfer_authority(ctx: &mut TransferAuthority) -> (r: Result<(), ErrorCode>)
    ensures
        instructions::transfer_authority::performed(*old(ctx), *final(ctx), r),
{
    instructions::transfer_authority::exec(ctx)
}

} // verus!
