use project_kylan::{Cert, CertState, Pubkey, PRECISION};

fn key(b: u8) -> Pubkey {
    Pubkey::new_from_array([b; 32])
}

fn cert(price: u64, fee: u64, state: CertState) -> Cert {
    Cert {
        printer: key(1),
        secure_token: key(2),
        price,
        fee,
        taxman: key(3),
        state,
    }
}

#[test]
fn printable_amount_scales_by_price() {
    let c = cert(2_000_000, 50_000, CertState::Active);
    assert_eq!(c.printable_amount(100), Some(200));
    let c = cert(1_500_000, 0, CertState::Active);
    assert_eq!(c.printable_amount(3), Some(4));
    assert_eq!(c.printable_amount(0), Some(0));
}

#[test]
fn burnable_amount_splits_fee() {
    let c = cert(2_000_000, 50_000, CertState::Active);
    assert_eq!(c.burnable_amount(200), Some((95, 5)));
    let c = cert(1_000_000, 0, CertState::Active);
    assert_eq!(c.burnable_amount(7), Some((7, 0)));
    let c = cert(3_000_000, 100_000, CertState::Active);
    // gross = 33, fee = floor(3.3) = 3
    assert_eq!(c.burnable_amount(100), Some((30, 3)));
}

#[test]
fn burnable_amount_refuses_fee_above_gross() {
    let c = cert(1_000_000, 2 * PRECISION, CertState::Active);
    assert_eq!(c.burnable_amount(10), None);
    let c = cert(1_000_000, PRECISION, CertState::Active);
    assert_eq!(c.burnable_amount(10), Some((0, 10)));
}

#[test]
fn conversions_overflow_near_the_top() {
    let c = cert(u64::MAX, u64::MAX, CertState::Active);
    assert_eq!(c.printable_amount(u64::MAX), None);
    let c = cert(2_000_000, 0, CertState::Active);
    assert_eq!(c.printable_amount(u64::MAX), None);
    assert_eq!(c.printable_amount(u64::MAX / 2), Some(u64::MAX / 2 * 2));
    let c = cert(1, 0, CertState::Active);
    assert_eq!(c.burnable_amount(u64::MAX), None);
    let c = cert(1_000_000, u64::MAX, CertState::Active);
    assert_eq!(c.burnable_amount(u64::MAX), None);
    let c = cert(1_000_000, 0, CertState::Active);
    assert_eq!(c.burnable_amount(u64::MAX), Some((u64::MAX, 0)));
}

#[test]
fn zero_price_converts_nothing() {
    let c = cert(0, 50_000, CertState::Active);
    assert_eq!(c.printable_amount(0), None);
    assert_eq!(c.printable_amount(100), None);
    assert_eq!(c.burnable_amount(0), None);
    assert_eq!(c.burnable_amount(100), None);
}

#[test]
fn print_then_burn_never_gains() {
    let cases: [(u64, u64, u64); 6] = [
        (2_000_000, 50_000, 100),
        (1_500_000, 0, 1),
        (3_000_000, 0, 1),
        (1_000_000, 1, 5),
        (700_000, 10_000, 123_456),
        (1_000_000, 0, 987_654),
    ];
    for (price, fee, staked) in cases {
        let c = cert(price, fee, CertState::Active);
        let printed = c.printable_amount(staked).unwrap();
        let (net, charged) = c.burnable_amount(printed).unwrap();
        assert!(net <= staked);
        if fee == 0 {
            assert_eq!(charged, 0);
        }
        if fee > 0 && staked * fee >= PRECISION {
            assert!(net < staked);
        }
    }
    // at price 1.5 a single unit prints one stable unit that redeems for none
    let c = cert(1_500_000, 0, CertState::Active);
    assert_eq!(c.burnable_amount(c.printable_amount(1).unwrap()), Some((0, 0)));
}

#[test]
fn state_predicates_match_table() {
    let table = [
        (CertState::Uninitialized, false, false),
        (CertState::Active, true, true),
        (CertState::PrintOnly, true, false),
        (CertState::BurnOnly, false, true),
        (CertState::Paused, false, false),
    ];
    for (state, printable, burnable) in table {
        let c = cert(1_000_000, 0, state);
        assert_eq!(c.is_printable(), printable);
        assert_eq!(c.is_burnable(), burnable);
    }
}

#[test]
fn default_state_is_uninitialized() {
    assert_eq!(CertState::default(), CertState::Uninitialized);
}

#[test]
fn set_state_refuses_uninitialized_from_every_state() {
    for from in [
        CertState::Uninitialized,
        CertState::Active,
        CertState::PrintOnly,
        CertState::BurnOnly,
        CertState::Paused,
    ] {
        let mut c = cert(1_000_000, 0, from);
        assert_eq!(
            c.set_state(CertState::Uninitialized),
            Err(project_kylan::ErrorCode::UninitializedCert)
        );
        assert_eq!(c.state, from);
        for to in [CertState::Active, CertState::PrintOnly, CertState::BurnOnly, CertState::Paused] {
            let mut d = cert(1_000_000, 0, from);
            assert_eq!(d.set_state(to), Ok(()));
            assert_eq!(d.state, to);
            assert_eq!(d.price, 1_000_000);
        }
    }
}
