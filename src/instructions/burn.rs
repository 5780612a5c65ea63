use vstd::prelude::*;

use crate::errors::ErrorCode;
use crate::pubkey::Pubkey;
use crate::schema::cert::{redeemed_for, Cert};
use crate::schema::cheque::{subtracted, Cheque};
use crate::schema::printer::Printer;
use crate::token::TokenOp;

verus! {

/// The accounts of a burn: the caller destroys stable tokens and is paid
/// secure tokens out of the treasury, less a fee for the taxman.
#[derive(Clone, Copy, Debug)]
pub struct Burn {
    pub stable_token: Pubkey,
    pub secure_token: Pubkey,
    /// The caller, who signs.
    pub authority: Pubkey,
    /// The custodial signer of the printer's pool.
    pub treasurer: Pubkey,
    /// The pool's account of secure tokens.
    pub treasury: Pubkey,
    /// The caller's account of stable tokens.
    pub src_associated_token_account: Pubkey,
    /// The caller's account of secure tokens.
    pub dst_associated_token_account: Pubkey,
    pub printer_key: Pubkey,
    pub printer: Printer,
    pub cert: Cert,
    pub cheque: Cheque,
    /// The fee recipient's account of secure tokens.
    pub taxman: Pubkey,
}

impl Burn {
    /// Why the accounts cannot take part in a burn, if they cannot.
    pub open spec fn accounts_error(self) -> Option<ErrorCode> {
        if self.printer.stable_token != self.stable_token || self.cert.printer != self.printer_key
            || self.cert.secure_token != self.secure_token || self.cert.taxman != self.taxman
            || self.cheque.printer != self.printer_key || self.cheque.secure_token
            != self.secure_token {
            Some(ErrorCode::MismatchedAccount)
        } else if self.cheque.authority != self.authority {
            Some(ErrorCode::Unauthorized)
        } else {
            None
        }
    }
}

/// What burning `amount` stable tokens comes to: the cheque's new balance and
/// the token calls, or the error.
pub open spec fn outcome(ctx: Burn, amount: u64) -> Result<(u64, Seq<TokenOp>), ErrorCode> {
    if ctx.accounts_error() is Some {
        Err(ctx.accounts_error()->0)
    } else if !ctx.cert.state.allows_burn() {
        Err(ErrorCode::NotBurnable)
    } else {
        match subtracted(ctx.cheque.amount, amount) {
            None => Err(ErrorCode::InsufficientLedger),
            Some(balance) => match redeemed_for(ctx.cert.price, ctx.cert.fee, amount) {
                None => Err(ErrorCode::Overflow),
                Some((net, charged)) => Ok(
                    (
                        balance,
                        seq![
                            TokenOp::Burn {
                                mint: ctx.stable_token,
                                from: ctx.src_associated_token_account,
                                authority: ctx.authority,
                                amount,
                            },
                            TokenOp::Transfer {
                                from: ctx.treasury,
                                to: ctx.taxman,
                                authority: ctx.treasurer,
                                amount: charged,
                            },
                            TokenOp::Transfer {
                                from: ctx.treasury,
                                to: ctx.dst_associated_token_account,
                                authority: ctx.treasurer,
                                amount: net,
                            },
                        ],
                    ),
                ),
            },
        }
    }
}

/// `r` and `after` are what a burn of `amount` makes of `before`: on success
/// only the cheque's balance changes; on failure nothing does.
pub open spec fn performed(
    before: Burn,
    after: Burn,
    amount: u64,
    r: Result<Vec<TokenOp>, ErrorCode>,
) -> bool {
    match outcome(before, amount) {
        Ok((balance, ops)) => r matches Ok(v) && v@ == ops && after == (Burn {
            cheque: Cheque { amount: balance, ..before.cheque },
            ..before
        }),
        Err(e) => r matches Err(f) && f == e && after == before,
    }
}

/// Burns `amount` stable tokens: checks the accounts and the certificate's
/// state, takes the amount off the cheque, converts at the certificate's price
/// and fee, and returns the burn, the fee transfer to the taxman and the
/// transfer of the rest to the caller. Every check comes before any change, so
/// a refused burn changes nothing.
pub fn exec(ctx: &mut Burn, amount: u64) -> (r: Result<Vec<TokenOp>, ErrorCode>)
    ensures
        performed(*old(ctx), *final(ctx), amount, r),
{
    if !(ctx.printer.stable_token == ctx.stable_token) || !(ctx.cert.printer == ctx.printer_key)
        || !(ctx.cert.secure_token == ctx.secure_token) || !(ctx.cert.taxman == ctx.taxman)
        || !(ctx.cheque.printer == ctx.printer_key) || !(ctx.cheque.secure_token
        == ctx.secure_token) {
        return Err(ErrorCode::MismatchedAccount);
    }
    if !(ctx.cheque.authority == ctx.authority) {
        return Err(ErrorCode::Unauthorized);
    }
    if !ctx.cert.is_burnable() {
        return Err(ErrorCode::NotBurnable);
    }
    if ctx.cheque.amount < amount {
        return Err(ErrorCode::InsufficientLedger);
    }
    let (burnable, chargeable) = match ctx.cert.burnable_amount(amount) {
        Some(split) => split,
        None => return Err(ErrorCode::Overflow),
    };
    if ctx.cheque.sub(amount).is_none() {
        return Err(ErrorCode::InsufficientLedger);
    }
    let mut ops: Vec<TokenOp> = Vec::new();
    ops.push(
        TokenOp::Burn {
            mint: ctx.stable_token,
            from: ctx.src_associated_token_account,
            authority: ctx.authority,
            amount,
        },
    );
    ops.push(
        TokenOp::Transfer {
            from: ctx.treasury,
            to: ctx.taxman,
            authority: ctx.treasurer,
            amount: chargeable,
        },
    );
    ops.push(
        TokenOp::Transfer {
            from: ctx.treasury,
            to: ctx.dst_associated_token_account,
            authority: ctx.treasurer,
            amount: burnable,
        },
    );
    assert(ops@ =~= outcome(*old(ctx), amount)->Ok_0.1);
    Ok(ops)
}

} // verus!
