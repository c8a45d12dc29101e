use native_amm::curve::{
    xy_deposit_amounts_from_l, xy_withdraw_amounts_from_l, ConstantProduct, LiquidityPair,
    DEFAULT_PRECISION,
};
use native_amm::error::AmmError;

fn pool(x: u64, y: u64, fee: u16) -> ConstantProduct {
    ConstantProduct::init(x, y, 0, fee, None).unwrap()
}

#[test]
fn init_rejects_empty_reserves() {
    assert_eq!(ConstantProduct::init(0, 5, 0, 30, None), Err(AmmError::ArithmeticFailure));
    assert_eq!(ConstantProduct::init(5, 0, 0, 30, None), Err(AmmError::ArithmeticFailure));
}

#[test]
fn init_defaults_baseline_and_precision() {
    let c = ConstantProduct::init(300, 700, 0, 25, None).unwrap();
    assert_eq!(c.l, 700);
    assert_eq!(c.precision, 1_000_000);
    let c = ConstantProduct::init(900, 700, 0, 25, Some(3)).unwrap();
    assert_eq!(c.l, 900);
    assert_eq!(c.precision, 1_000);
    let c = ConstantProduct::init(900, 700, 42, 25, Some(9)).unwrap();
    assert_eq!(c.l, 42);
    assert_eq!(c.precision, 1_000_000_000);
}

#[test]
fn init_rejects_precision_beyond_u32() {
    assert_eq!(ConstantProduct::init(1, 1, 1, 0, Some(10)), Err(AmmError::ArithmeticFailure));
}

// 100 * 9970 / 10000 = 99 moves the curve; 1_000_000 / 1099 = 909 (rounded down)
// stays in Y, so 1000 - 909 = 91 is delivered and 1 is kept as fee.
#[test]
fn swap_x_for_y_scenario() {
    let mut c = pool(1000, 1000, 30);
    assert_eq!(c.swap(LiquidityPair::X, 100, 1), Ok((100, 1, 91)));
    assert_eq!((c.x, c.y), (1099, 909));
}

#[test]
fn swap_y_for_x_is_symmetric() {
    let mut c = pool(1000, 1000, 30);
    assert_eq!(c.swap(LiquidityPair::Y, 100, 1), Ok((100, 1, 91)));
    assert_eq!((c.x, c.y), (909, 1099));
}

#[test]
fn swap_keeps_invariant_within_one_unit() {
    let cases: [(u64, u64, u16, u64); 4] =
        [(1000, 1000, 30, 100), (5_000_000, 7, 0, 123_456), (3, 9_999_999, 9_999, 77), (10, 10, 100, 1)];
    for (x, y, fee, a) in cases {
        let mut c = pool(x, y, fee);
        let k = x as u128 * y as u128;
        c.swap(LiquidityPair::X, a, 0).unwrap();
        assert!(c.x as u128 * c.y as u128 <= k);
        assert!(c.x as u128 * (c.y as u128 + 1) > k);
    }
}

#[test]
fn swap_slippage_leaves_reserves() {
    let mut c = pool(1000, 1000, 30);
    assert_eq!(c.swap(LiquidityPair::X, 100, 92), Err(AmmError::SlippageExceeded));
    assert_eq!((c.x, c.y), (1000, 1000));
}

#[test]
fn swap_overflow_and_bad_fee_fail() {
    let mut c = pool(u64::MAX, 1, 0);
    assert_eq!(c.swap(LiquidityPair::X, 10, 0), Err(AmmError::ArithmeticFailure));
    let mut c = ConstantProduct { x: 10, y: 10, l: 10, fee: 10_001, precision: 1 };
    assert_eq!(c.swap(LiquidityPair::X, 10, 0), Err(AmmError::ArithmeticFailure));
}

#[test]
fn reserve_helpers() {
    assert_eq!(ConstantProduct::k_from_xy(1000, 1000), Ok(1_000_000));
    assert_eq!(ConstantProduct::k_from_xy(0, 1000), Err(AmmError::ArithmeticFailure));
    assert_eq!(ConstantProduct::k_from_xy(u64::MAX, u64::MAX), Ok(u64::MAX as u128 * u64::MAX as u128));
    assert_eq!(ConstantProduct::x2_from_y_swap_amount(1000, 1000, 99), Ok(909));
    assert_eq!(ConstantProduct::y2_from_x_swap_amount(1000, 2000, 1000), Ok(1000));
    assert_eq!(ConstantProduct::delta_x_from_y_swap_amount(1000, 1000, 99), Ok(91));
    assert_eq!(ConstantProduct::delta_y_from_x_swap_amount(1000, 2000, 1000), Ok(1000));
    assert_eq!(ConstantProduct::delta_y_from_x_swap_amount(1000, 0, 1), Err(AmmError::ArithmeticFailure));
}

#[test]
fn deposit_amounts_are_proportional() {
    assert_eq!(xy_deposit_amounts_from_l(1000, 2000, 1000, 10, DEFAULT_PRECISION), Ok((10, 20)));
    // ratio = (3 + 1) * 1_000_000 / 3 = 1_333_333
    assert_eq!(xy_deposit_amounts_from_l(3000, 6000, 3, 1, DEFAULT_PRECISION), Ok((999, 1999)));
    for (x, y, l, a) in [(1000u64, 2000u64, 1000u64, 10u64), (123_456, 654_321, 777, 55), (10, 10, 3, 1)] {
        let (dx, dy) = xy_deposit_amounts_from_l(x, y, l, a, DEFAULT_PRECISION).unwrap();
        let p = DEFAULT_PRECISION as u128;
        for (r, d) in [(x as u128, dx as u128), (y as u128, dy as u128)] {
            let exact = r * a as u128;
            assert!(d * l as u128 <= exact);
            assert!((exact - d * l as u128) * p < (r + p) * l as u128);
        }
    }
}

#[test]
fn deposit_amounts_fail_without_supply_or_on_overflow() {
    assert_eq!(xy_deposit_amounts_from_l(10, 10, 0, 1, DEFAULT_PRECISION), Err(AmmError::ArithmeticFailure));
    assert_eq!(xy_deposit_amounts_from_l(10, 10, 1, 1, 0), Err(AmmError::ArithmeticFailure));
    assert_eq!(
        xy_deposit_amounts_from_l(u64::MAX, 1, 1, u64::MAX, DEFAULT_PRECISION),
        Err(AmmError::ArithmeticFailure)
    );
}

#[test]
fn withdraw_amounts() {
    assert_eq!(xy_withdraw_amounts_from_l(1000, 2000, 1000, 500, DEFAULT_PRECISION), Ok((500, 1000)));
    assert_eq!(xy_withdraw_amounts_from_l(1000, 2000, 1000, 1000, DEFAULT_PRECISION), Ok((1000, 2000)));
    assert_eq!(xy_withdraw_amounts_from_l(1000, 2000, 1000, 1001, DEFAULT_PRECISION), Err(AmmError::ArithmeticFailure));
    assert_eq!(xy_withdraw_amounts_from_l(1000, 2000, 0, 0, DEFAULT_PRECISION), Err(AmmError::ArithmeticFailure));
}

// The remaining fraction 1000/1010 is rounded down, so the user gets the rounding back:
// depositing 10 units costs (10, 20) and burning them at once returns (11, 21).
#[test]
fn deposit_then_withdraw_rounding() {
    let (dx, dy) = xy_deposit_amounts_from_l(1000, 2000, 1000, 10, DEFAULT_PRECISION).unwrap();
    assert_eq!((dx, dy), (10, 20));
    let (wx, wy) = xy_withdraw_amounts_from_l(1000 + dx, 2000 + dy, 1010, 10, DEFAULT_PRECISION).unwrap();
    assert_eq!((wx, wy), (11, 21));
    // The excess stays within (x + x2) / precision + 2 units.
    assert!((wx - dx) as u128 * 1_000_000 < 1000 + 1010 + 2 * 1_000_000);
    assert!((wy - dy) as u128 * 1_000_000 < 2000 + 2020 + 2 * 1_000_000);
}
