use vstd::prelude::*;

use crate::errors::ErrorCode;
use crate::pubkey::Pubkey;
use crate::schema::cert::{printed_for, Cert};
use crate::schema::cheque::{added, Cheque};
use crate::schema::printer::Printer;
use crate::token::TokenOp;

verus! {

/// The accounts of a print: the caller stakes secure tokens into the treasury
/// and receives freshly minted stable tokens.
#[derive(Clone, Copy, Debug)]
pub struct Print {
    pub stable_token: Pubkey,
    pub secure_token: Pubkey,
    /// The caller, who signs.
    pub authority: Pubkey,
    /// The custodial signer of the printer's pool.
    pub treasurer: Pubkey,
    /// The pool's account of secure tokens.
    pub treasury: Pubkey,
    /// The caller's account of secure tokens.
    pub src_associated_token_account: Pubkey,
    /// The caller's account of stable tokens.
    pub dst_associated_token_account: Pubkey,
    pub printer_key: Pubkey,
    pub printer: Printer,
    pub cert: Cert,
    pub cheque: Cheque,
}

impl Print {
    /// Why the accounts cannot take part in a print, if they cannot.
    pub open spec fn accounts_error(self) -> Option<ErrorCode> {
        if self.printer.stable_token != self.stable_token || self.cert.printer != self.printer_key
            || self.cert.secure_token != self.secure_token || self.cheque.printer
            != self.printer_key || self.cheque.secure_token != self.secure_token {
            Some(ErrorCode::MismatchedAccount)
        } else if self.cheque.authority != self.authority {
            Some(ErrorCode::Unauthorized)
        } else {
            None
        }
    }
}

/// What printing for `amount` secure tokens comes to: the cheque's new
/// balance and the token calls, or the error.
pub open spec fn outcome(ctx: Print, amount: u64) -> Result<(u64, Seq<TokenOp>), ErrorCode> {
    if ctx.accounts_error() is Some {
        Err(ctx.accounts_error()->0)
    } else if !ctx.cert.state.allows_print() {
        Err(ErrorCode::NotPrintable)
    } else {
        match printed_for(ctx.cert.price, amount) {
            None => Err(ErrorCode::Overflow),
            Some(printed) => match added(ctx.cheque.amount, printed) {
                None => Err(ErrorCode::Overflow),
                Some(balance) => Ok(
                    (
                        balance,
                        seq![
                            TokenOp::Transfer {
                                from: ctx.src_associated_token_account,
                                to: ctx.treasury,
                                authority: ctx.authority,
                                amount,
                            },
                            TokenOp::MintTo {
                                mint: ctx.stable_token,
                                to: ctx.dst_associated_token_account,
                                authority: ctx.treasurer,
                                amount: printed,
                            },
                        ],
                    ),
                ),
            },
        }
    }
}

/// `r` and `after` are what a print of `amount` makes of `before`: on
/// success only the cheque's balance changes; on failure nothing does.
pub open spec fn performed(
    before: Print,
    after: Print,
    amount: u64,
    r: Result<Vec<TokenOp>, ErrorCode>,
) -> bool {
    match outcome(before, amount) {
        Ok((balance, ops)) => r matches Ok(v) && v@ == ops && after == (Print {
            cheque: Cheque { amount: balance, ..before.cheque },
            ..before
        }),
        Err(e) => r matches Err(f) && f == e && after == before,
    }
}

/// Prints stable tokens for `amount` secure tokens: checks the accounts and
/// the certificate's state, converts at the certificate's price, records the
/// printed units in the cheque, and returns the transfer into the pool and
/// the mint to the caller.
pub fn exec(ctx: &mut Print, amount: u64) -> (r: Result<Vec<TokenOp>, ErrorCode>)
    ensures
        performed(*old(ctx), *final(ctx), amount, r),
{
    if !(ctx.printer.stable_token == ctx.stable_token) || !(ctx.cert.printer == ctx.printer_key)
        || !(ctx.cert.secure_token == ctx.secure_token) || !(ctx.cheque.printer == ctx.printer_key)
        || !(ctx.cheque.secure_token == ctx.secure_token) {
        return Err(ErrorCode::MismatchedAccount);
    }
    if !(ctx.cheque.authority == ctx.authority) {
        return Err(ErrorCode::Unauthorized);
    }
    if !ctx.cert.is_printable() {
        return Err(ErrorCode::NotPrintable);
    }
    let printed = match ctx.cert.printable_amount(amount) {
        Some(p) => p,
        None => return Err(ErrorCode::Overflow),
    };
    if ctx.cheque.add(printed).is_none() {
        return Err(ErrorCode::Overflow);
    }
    let mut ops: Vec<TokenOp> = Vec::new();
    ops.push(
        TokenOp::Transfer {
            from: ctx.src_associated_token_account,
            to: ctx.treasury,
            authority: ctx.authority,
            amount,
        },
    );
    ops.push(
        TokenOp::MintTo {
            mint: ctx.stable_token,
            to: ctx.dst_associated_token_account,
            authority: ctx.treasurer,
            amount: printed,
        },
    );
    assert(ops@ =~= outcome(*old(ctx), amount)->Ok_0.1);
    Ok(ops)
}

} // verus!
