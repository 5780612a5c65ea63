use vstd::prelude::*;

use crate::errors::ErrorCode;
use crate::pubkey::Pubkey;

verus! {

/// Fixed-point scale of a certificate's price and fee: 10^6 stands for 1.
pub const PRECISION: u64 = 1_000_000;

/// Lifecycle of a certificate, gating printing and burning.
#[derive(Clone, Copy, Debug, PartialEq, Eq, Structural)]
pub enum CertState {
    Uninitialized,
    Active,
    PrintOnly,
    BurnOnly,
    Paused,
}

impl CertState {
    /// Printing is allowed in these states.
    pub open spec fn allows_print(self) -> bool {
        self is Active || self is PrintOnly
    }

    /// Burning is allowed in these states.
    pub open spec fn allows_burn(self) -> bool {
        self is Active || self is BurnOnly
    }
}

impl Default for CertState {
    fn default() -> (r: CertState)
        ensures
            r == CertState::Uninitialized,
    {
        CertState::Uninitialized
    }
}

/// The stable units printed for `staked` collateral units at `price`:
/// `floor(staked * price / PRECISION)`, or `None` when the price is zero or
/// the result does not fit in 64 bits.
pub open spec fn printed_for(price: u64, staked: u64) -> Option<u64> {
    let v = staked * price / (PRECISION as int);
    if price == 0 || v > u64::MAX {
        None
    } else {
        Some(v as u64)
    }
}

/// The gross collateral that `unstaked` stable units stand for at `price`:
/// `floor(unstaked * PRECISION / price)`.
pub open spec fn gross_for(price: u64, unstaked: u64) -> int
    recommends
        price > 0,
{
    unstaked * PRECISION / (price as int)
}

/// The fee kept out of a gross redemption: `floor(gross * fee / PRECISION)`.
pub open spec fn fee_for(fee: u64, gross: int) -> int {
    gross * fee / (PRECISION as int)
}

/// What burning `unstaked` stable units pays out at `price` and `fee`:
/// `(net, fee_amount)` with `net = gross - fee_amount`, or `None` when the
/// price is zero, a value does not fit in 64 bits, or the fee exceeds the
/// gross amount.
pub open spec fn redeemed_for(price: u64, fee: u64, unstaked: u64) -> Option<(u64, u64)> {
    if price == 0 {
        None
    } else {
        let gross = gross_for(price, unstaked);
        let charged = fee_for(fee, gross);
        if gross > u64::MAX || charged > u64::MAX || charged > gross {
            None
        } else {
            Some(((gross - charged) as u64, charged as u64))
        }
    }
}

/// The gross collateral of a burn never exceeds the collateral that was
/// staked to print the burned units.
proof fn lemma_gross_of_printed_at_most_staked(price: u64, staked: u64, printed: u64)
    requires
        price > 0,
        printed == staked * price / (PRECISION as int),
    ensures
        gross_for(price, printed) <= staked,
{
    assert(printed * PRECISION <= staked * price) by (nonlinear_arith)
        requires
            printed == staked * price / (PRECISION as int),
            staked * price >= 0,
    ;
    assert((printed * PRECISION) / (price as int) <= staked) by (nonlinear_arith)
        requires
            printed * PRECISION <= staked * price,
            price > 0,
    ;
}

/// Printing for `staked` collateral units and then burning every printed unit
/// never pays out more than `staked`; with a zero fee nothing is charged.
pub proof fn lemma_print_then_burn_never_gains(price: u64, fee: u64, staked: u64)
    requires
        price > 0,
    ensures
        printed_for(price, staked) matches Some(printed) ==> (redeemed_for(price, fee, printed)
            matches Some(out) ==> out.0 <= staked && (fee == 0 ==> out.1 == 0)),
{
    if let Some(printed) = printed_for(price, staked) {
        lemma_gross_of_printed_at_most_staked(price, staked, printed);
    }
}

/// Once `staked * fee` reaches `PRECISION`, a positive fee makes printing then
/// burning strictly lossy: the burner gets back less than `staked`.
pub proof fn lemma_print_then_burn_charges_fee(price: u64, fee: u64, staked: u64)
    requires
        price > 0,
        fee > 0,
        staked * fee >= PRECISION,
    ensures
        printed_for(price, staked) matches Some(printed) ==> (redeemed_for(price, fee, printed)
            matches Some(out) ==> out.0 < staked),
{
    if let Some(printed) = printed_for(price, staked) {
        lemma_gross_of_printed_at_most_staked(price, staked, printed);
        let gross = gross_for(price, printed);
        if gross == staked {
            assert(fee_for(fee, gross) >= 1) by (nonlinear_arith)
                requires
                    gross * fee >= PRECISION,
                    fee_for(fee, gross) == gross * fee / (PRECISION as int),
            ;
        }
    }
}

/// A conversion whose exact result does not fit in 64 bits fails rather than
/// wrapping; one that succeeds returns the exact floor values.
pub proof fn lemma_conversions_never_wrap(price: u64, fee: u64, amount: u64)
    ensures
        amount * price / (PRECISION as int) > u64::MAX ==> printed_for(price, amount) is None,
        printed_for(price, amount) matches Some(v) ==> v == amount * price / (PRECISION as int),
        price > 0 && gross_for(price, amount) > u64::MAX ==> redeemed_for(price, fee, amount) is None,
        redeemed_for(price, fee, amount) matches Some(out) ==> {
            &&& out.1 == fee_for(fee, gross_for(price, amount))
            &&& out.0 + out.1 == gross_for(price, amount)
        },
{
}

/// A zero price makes every conversion fail instead of returning an amount.
pub proof fn lemma_zero_price_converts_nothing(fee: u64, amount: u64)
    ensures
        printed_for(0, amount) is None,
        redeemed_for(0, fee, amount) is None,
{
}

/// Relies on num_traits::ToPrimitive::to_u128 for u64: every u64 fits.
#[verifier::external_body]
fn widen(x: u64) -> (r: Option<u128>)
    ensures
        r == Some(x as u128),
{
    num_traits::ToPrimitive::to_u128(&x)
}

/// Relies on num_traits::ToPrimitive::to_u64 for u128: `Some` exactly when
/// the value fits.
#[verifier::external_body]
fn narrow(x: u128) -> (r: Option<u64>)
    ensures
        r == (if x <= u64::MAX {
            Some(x as u64)
        } else {
            None
        }),
{
    num_traits::ToPrimitive::to_u64(&x)
}

/// The exchange configuration of one collateral token under one printer.
///
/// One stable unit is worth `price / PRECISION` collateral units.
#[derive(Clone, Copy, Debug)]
pub struct Cert {
    pub printer: Pubkey,
    pub secure_token: Pubkey,
    pub price: u64,
    pub fee: u64,
    pub taxman: Pubkey,
    pub state: CertState,
}

impl Cert {
    /// Bytes that a stored certificate takes, discriminator included.
    pub const LEN: usize = 8 + 32 + 32 + 8 + 8 + 32 + 1;

    /// Whether the certificate's state allows printing.
    pub fn is_printable(&self) -> (r: bool)
        ensures
            r == self.state.allows_print(),
    {
        match self.state {
            CertState::Active | CertState::PrintOnly => true,
            _ => false,
        }
    }

    /// Whether the certificate's state allows burning.
    pub fn is_burnable(&self) -> (r: bool)
        ensures
            r == self.state.allows_burn(),
    {
        match self.state {
            CertState::Active | CertState::BurnOnly => true,
            _ => false,
        }
    }

    /// The stable units printed for `staked_amount` collateral units.
    pub fn printable_amount(&self, staked_amount: u64) -> (r: Option<u64>)
        ensures
            r == printed_for(self.price, staked_amount),
    {
        if self.price == 0 {
            return None;
        }
        let staked = widen(staked_amount)?;
        let price = widen(self.price)?;
        assert(staked * price <= u64::MAX * u64::MAX) by (nonlinear_arith)
            requires
                staked <= u64::MAX,
                price <= u64::MAX,
        ;
        let product = staked.checked_mul(price)?;
        let quotient = product.checked_div(PRECISION as u128)?;
        narrow(quotient)
    }

    /// What burning `unstaked_amount` stable units pays out: the collateral
    /// for the burner and the fee for the taxman.
    pub fn burnable_amount(&self, unstaked_amount: u64) -> (r: Option<(u64, u64)>)
        ensures
            r == redeemed_for(self.price, self.fee, unstaked_amount),
    {
        if self.price == 0 {
            return None;
        }
        let unstaked = widen(unstaked_amount)?;
        let price = widen(self.price)?;
        let fee = widen(self.fee)?;
        assert(unstaked * PRECISION <= u64::MAX * u64::MAX) by (nonlinear_arith)
            requires
                unstaked <= u64::MAX,
        ;
        let amount = narrow(unstaked.checked_mul(PRECISION as u128)?.checked_div(price)?)?;
        let wide_amount = widen(amount)?;
        assert(wide_amount * fee <= u64::MAX * u64::MAX) by (nonlinear_arith)
            requires
                wide_amount <= u64::MAX,
                fee <= u64::MAX,
        ;
        let chargeable = narrow(wide_amount.checked_mul(fee)?.checked_div(PRECISION as u128)?)?;
        let burnable = amount.checked_sub(chargeable)?;
        Some((burnable, chargeable))
    }

    /// Moves the certificate to `state`; any state but `Uninitialized` may be
    /// entered from any other, and nothing else changes.
    pub fn set_state(&mut self, state: CertState) -> (r: Result<(), ErrorCode>)
        ensures
            state is Uninitialized ==> r == Err::<(), ErrorCode>(ErrorCode::UninitializedCert)
                && *final(self) == *old(self),
            !(state is Uninitialized) ==> r is Ok && *final(self) == (Cert { state, ..*old(self) }),
    {
        if state == CertState::Uninitialized {
            return Err(ErrorCode::UninitializedCert);
        }
        self.state = state;
        Ok(())
    }
}

} // verus!
