use vstd::prelude::*;

use crate::error::AmmError;

verus! {

/// Basis points in one whole: a fee of `fee_bps` keeps `10_000 - fee_bps` of every unit paid.
pub const FEE_DENOMINATOR: u16 = 10_000;

/// The scaling factor the curve uses when none is given: six decimal digits.
pub const DEFAULT_PRECISION: u32 = 1_000_000;

/// The constant-product invariant of two reserves.
pub open spec fn invariant_k(x: int, y: int) -> int {
    x * y
}

/// Ten to the power `e`.
pub open spec fn pow10(e: nat) -> int
    decreases e,
{
    if e == 0 {
        1
    } else {
        10 * pow10((e - 1) as nat)
    }
}

/// The scaling factor chosen by an optional number of decimal digits.
pub open spec fn scale_of(precision: Option<u8>) -> int {
    match precision {
        Some(p) => pow10(p as nat),
        None => DEFAULT_PRECISION as int,
    }
}

/// What is left of `a` once a fee of `fee` basis points is taken, rounded down.
pub open spec fn after_fee(a: int, fee: int) -> int {
    a * (FEE_DENOMINATOR - fee) / FEE_DENOMINATOR as int
}

/// The output reserve once `paid` is added to the input reserve `in_r`, read off the
/// invariant computed before the trade and rounded down.
pub open spec fn out_reserve(in_r: int, out_r: int, paid: int) -> int {
    invariant_k(in_r, out_r) / (in_r + paid)
}

/// Which asset a trader pays in.
#[derive(Clone, Copy, Debug, PartialEq, Eq, Structural)]
pub enum LiquidityPair {
    /// Pay asset X, receive asset Y.
    X,
    /// Pay asset Y, receive asset X.
    Y,
}

/// A constant-product curve over reserves `x` and `y`, with liquidity baseline `l`,
/// a fee in basis points and a scaling factor for proportional quotes.
#[derive(Clone, Copy, Debug, PartialEq, Eq, Structural)]
pub struct ConstantProduct {
    pub x: u64,
    pub y: u64,
    pub l: u64,
    pub fee: u16,
    pub precision: u32,
}

proof fn lemma_pow10_grows(a: nat, b: nat)
    requires
        a <= b,
    ensures
        1 <= pow10(a) <= pow10(b),
    decreases b,
{
    if b > a {
        lemma_pow10_grows(a, (b - 1) as nat);
    } else if a > 0 {
        lemma_pow10_grows((a - 1) as nat, (a - 1) as nat);
    }
}

/// Floor division by a positive divisor brackets the dividend.
proof fn lemma_floor_div(k: int, d: int)
    requires
        d > 0,
        k >= 0,
    ensures
        d * (k / d) <= k < d * (k / d + 1),
        k / d >= 0,
{
    assert(d * (k / d) <= k < d * (k / d + 1) && k / d >= 0) by (nonlinear_arith)
        requires
            d > 0,
            k >= 0,
    ;
}

/// The output reserve never grows, and it brackets the old invariant.
proof fn lemma_out_reserve(in_r: int, out_r: int, paid: int)
    requires
        in_r > 0,
        out_r >= 0,
        paid >= 0,
    ensures
        0 <= out_reserve(in_r, out_r, paid) <= out_r,
        (in_r + paid) * out_reserve(in_r, out_r, paid) <= invariant_k(in_r, out_r),
        invariant_k(in_r, out_r) < (in_r + paid) * (out_reserve(in_r, out_r, paid) + 1),
{
    let d = in_r + paid;
    let k = in_r * out_r;
    let q = k / d;
    lemma_floor_div(k, d);
    assert(k <= d * out_r) by (nonlinear_arith)
        requires
            k == in_r * out_r,
            d == in_r + paid,
            paid >= 0,
            out_r >= 0,
    ;
    assert(q <= out_r) by (nonlinear_arith)
        requires
            d * q <= k,
            k <= d * out_r,
            d > 0,
    ;
}

impl ConstantProduct {
    /// The reserve of the asset paid in.
    pub open spec fn reserve_in(self, p: LiquidityPair) -> u64 {
        match p {
            LiquidityPair::X => self.x,
            LiquidityPair::Y => self.y,
        }
    }

    /// The reserve of the asset paid out.
    pub open spec fn reserve_out(self, p: LiquidityPair) -> u64 {
        match p {
            LiquidityPair::X => self.y,
            LiquidityPair::Y => self.x,
        }
    }

    /// The part of a payment `a` that moves the curve.
    pub open spec fn paid_in(self, a: u64) -> int {
        after_fee(a as int, self.fee as int)
    }

    /// A swap of `a` in direction `p` involves no overflow, no division by zero and
    /// no fee above one whole.
    pub open spec fn swap_computable(self, p: LiquidityPair, a: u64) -> bool {
        &&& self.fee <= FEE_DENOMINATOR
        &&& self.x != 0
        &&& self.y != 0
        &&& self.reserve_in(p) + self.paid_in(a) <= u64::MAX
    }

    /// The amount delivered to the trader for a payment `a` in direction `p`.
    pub open spec fn delivered(self, p: LiquidityPair, a: u64) -> int {
        self.reserve_out(p) - out_reserve(
            self.reserve_in(p) as int,
            self.reserve_out(p) as int,
            self.paid_in(a),
        )
    }

    /// The curve once a payment `a` in direction `p` is committed.
    pub open spec fn after_swap(self, p: LiquidityPair, a: u64) -> ConstantProduct {
        let paid = self.paid_in(a);
        match p {
            LiquidityPair::X => ConstantProduct {
                x: (self.x + paid) as u64,
                y: out_reserve(self.x as int, self.y as int, paid) as u64,
                l: self.l,
                fee: self.fee,
                precision: self.precision,
            },
            LiquidityPair::Y => ConstantProduct {
                x: out_reserve(self.y as int, self.x as int, paid) as u64,
                y: (self.y + paid) as u64,
                l: self.l,
                fee: self.fee,
                precision: self.precision,
            },
        }
    }

    /// Builds a curve over non-zero reserves. A baseline `l` of zero is replaced by the
    /// larger reserve; `precision` gives the number of decimal digits of the scaling
    /// factor, six when absent.
    pub fn init(x: u64, y: u64, l: u64, fee: u16, precision: Option<u8>) -> (r: Result<
        ConstantProduct,
        AmmError,
    >)
        ensures
            r == if x == 0 || y == 0 || scale_of(precision) > u32::MAX {
                Err::<ConstantProduct, AmmError>(AmmError::ArithmeticFailure)
            } else {
                Ok::<ConstantProduct, AmmError>(
                    ConstantProduct {
                        x,
                        y,
                        l: if l > 0 {
                            l
                        } else if x >= y {
                            x
                        } else {
                            y
                        },
                        fee,
                        precision: scale_of(precision) as u32,
                    },
                )
            },
    {
        if x == 0 || y == 0 {
            return Err(AmmError::ArithmeticFailure);
        }
        let scale: u32 = match precision {
            Some(p) => {
                let mut s: u32 = 1;
                let mut i: u8 = 0;
                while i < p
                    invariant
                        precision == Some(p),
                        i <= p,
                        s == pow10(i as nat),
                    decreases p - i,
                {
                    match s.checked_mul(10) {
                        Some(v) => {
                            s = v;
                        },
                        None => {
                            proof {
                                assert(pow10((i + 1) as nat) == 10 * pow10(i as nat));
                                lemma_pow10_grows((i + 1) as nat, p as nat);
                            }
                            return Err(AmmError::ArithmeticFailure);
                        },
                    }
                    i = i + 1;
                }
                s
            },
            None => DEFAULT_PRECISION,
        };
        let l = if l > 0 {
            l
        } else if x >= y {
            x
        } else {
            y
        };
        Ok(ConstantProduct { x, y, l, fee, precision: scale })
    }

    /// Swaps a payment `a` in direction `p` for the counter-asset, refusing to deliver
    /// less than `min`. Returns the amount paid, the fee kept and the amount delivered;
    /// the reserves change only when the swap succeeds.
    pub fn swap(&mut self, p: LiquidityPair, a: u64, min: u64) -> (r: Result<
        (u64, u64, u64),
        AmmError,
    >)
        ensures
            !old(self).swap_computable(p, a) ==> r == Err::<(u64, u64, u64), AmmError>(
                AmmError::ArithmeticFailure,
            ),
            old(self).swap_computable(p, a) && old(self).delivered(p, a) < min ==> r == Err::<
                (u64, u64, u64),
                AmmError,
            >(AmmError::SlippageExceeded),
            old(self).swap_computable(p, a) && old(self).delivered(p, a) >= min ==> r == Ok::<
                (u64, u64, u64),
                AmmError,
            >((a, (a - old(self).paid_in(a)) as u64, old(self).delivered(p, a) as u64)),
            r is Err ==> *final(self) == *old(self),
            r is Ok ==> *final(self) == old(self).after_swap(p, a),
    {
        if self.fee > FEE_DENOMINATOR {
            return Err(AmmError::ArithmeticFailure);
        }
        let keep: u16 = FEE_DENOMINATOR - self.fee;
        assert((a as int) * (keep as int) <= (a as int) * 10000) by (nonlinear_arith)
            requires
                keep <= 10000,
                a >= 0,
        ;
        assert((a as int) * 10000 <= u64::MAX as int * 10000) by (nonlinear_arith)
            requires
                a <= u64::MAX,
        ;
        let a2_wide: u128 = (a as u128) * (keep as u128) / (FEE_DENOMINATOR as u128);
        assert(a2_wide <= a) by (nonlinear_arith)
            requires
                a2_wide == (a as int) * (keep as int) / 10000,
                (a as int) * (keep as int) <= (a as int) * 10000,
                a >= 0,
                keep >= 0,
        ;
        let a2 = a2_wide as u64;
        assert(a2 == self.paid_in(a));
        let (new_x, new_y, withdraw) = match p {
            LiquidityPair::X => {
                let x2 = match self.x.checked_add(a2) {
                    Some(v) => v,
                    None => {
                        return Err(AmmError::ArithmeticFailure);
                    },
                };
                let y2 = match Self::y2_from_x_swap_amount(self.x, self.y, a2) {
                    Ok(v) => v,
                    Err(e) => {
                        return Err(e);
                    },
                };
                (x2, y2, self.y - y2)
            },
            LiquidityPair::Y => {
                let y2 = match self.y.checked_add(a2) {
                    Some(v) => v,
                    None => {
                        return Err(AmmError::ArithmeticFailure);
                    },
                };
                let x2 = match Self::x2_from_y_swap_amount(self.x, self.y, a2) {
                    Ok(v) => v,
                    Err(e) => {
                        return Err(e);
                    },
                };
                (x2, y2, self.x - x2)
            },
        };
        if withdraw < min {
            return Err(AmmError::SlippageExceeded);
        }
        let fee = a - a2;
        self.x = new_x;
        self.y = new_y;
        Ok((a, fee, withdraw))
    }

    /// The new reserve of Y once `a` of X is added to the pool.
    pub fn y2_from_x_swap_amount(x: u64, y: u64, a: u64) -> (r: Result<u64, AmmError>)
        ensures
            r == if x == 0 || y == 0 {
                Err::<u64, AmmError>(AmmError::ArithmeticFailure)
            } else {
                Ok::<u64, AmmError>(out_reserve(x as int, y as int, a as int) as u64)
            },
            x != 0 && y != 0 ==> 0 <= out_reserve(x as int, y as int, a as int) <= y,
    {
        Self::x2_from_y_swap_amount(y, x, a)
    }

    /// The new reserve of X once `a` of Y is added to the pool: the invariant `x * y`
    /// divided by `y + a`, rounded down.
    pub fn x2_from_y_swap_amount(x: u64, y: u64, a: u64) -> (r: Result<u64, AmmError>)
        ensures
            r == if x == 0 || y == 0 {
                Err::<u64, AmmError>(AmmError::ArithmeticFailure)
            } else {
                Ok::<u64, AmmError>(out_reserve(y as int, x as int, a as int) as u64)
            },
            x != 0 && y != 0 ==> 0 <= out_reserve(y as int, x as int, a as int) <= x,
    {
        let k = match k_from_xy(x, y) {
            Ok(k) => k,
            Err(e) => {
                return Err(e);
            },
        };
        let d: u128 = (y as u128) + (a as u128);
        let q = k / d;
        proof {
            assert(invariant_k(x as int, y as int) == invariant_k(y as int, x as int)) by (
            nonlinear_arith);
            lemma_out_reserve(y as int, x as int, a as int);
        }
        Ok(q as u64)
    }

    /// The amount of X delivered for `a` of Y.
    pub fn delta_x_from_y_swap_amount(x: u64, y: u64, a: u64) -> (r: Result<u64, AmmError>)
        ensures
            r == if x == 0 || y == 0 {
                Err::<u64, AmmError>(AmmError::ArithmeticFailure)
            } else {
                Ok::<u64, AmmError>((x - out_reserve(y as int, x as int, a as int)) as u64)
            },
    {
        match Self::x2_from_y_swap_amount(x, y, a) {
            Ok(x2) => Ok(x - x2),
            Err(e) => Err(e),
        }
    }

    /// The amount of Y delivered for `a` of X.
    pub fn delta_y_from_x_swap_amount(x: u64, y: u64, a: u64) -> (r: Result<u64, AmmError>)
        ensures
            r == if x == 0 || y == 0 {
                Err::<u64, AmmError>(AmmError::ArithmeticFailure)
            } else {
                Ok::<u64, AmmError>((y - out_reserve(x as int, y as int, a as int)) as u64)
            },
    {
        Self::delta_x_from_y_swap_amount(y, x, a)
    }

    /// The product `x * y` of two non-zero reserves, computed without overflow.
    pub fn k_from_xy(x: u64, y: u64) -> (r: Result<u128, AmmError>)
        ensures
            r == if x == 0 || y == 0 {
                Err::<u128, AmmError>(AmmError::ArithmeticFailure)
            } else {
                Ok::<u128, AmmError>(invariant_k(x as int, y as int) as u128)
            },
    {
        k_from_xy(x, y)
    }
}

/// The product `x * y` of two non-zero reserves, computed without overflow.
fn k_from_xy(x: u64, y: u64) -> (r: Result<u128, AmmError>)
    ensures
        r == if x == 0 || y == 0 {
            Err::<u128, AmmError>(AmmError::ArithmeticFailure)
        } else {
            Ok::<u128, AmmError>(invariant_k(x as int, y as int) as u128)
        },
        r matches Ok(k) ==> k == x as int * y as int,
{
    if x == 0 || y == 0 {
        return Err(AmmError::ArithmeticFailure);
    }
    assert(x as int * y as int <= u64::MAX as int * u64::MAX as int) by (nonlinear_arith);
    Ok((x as u128) * (y as u128))
}

/// The growth factor of the liquidity, `(l + a) / l`, scaled by `precision` and rounded down.
pub open spec fn deposit_ratio(l: int, a: int, precision: int) -> int {
    (l + a) * precision / l
}

/// What a reserve `r` must receive for `a` new liquidity units over a baseline `l`:
/// the reserve grown by the scaled ratio, rounded down, less the reserve itself.
pub open spec fn deposit_share(r: int, l: int, a: int, precision: int) -> int {
    r * deposit_ratio(l, a, precision) / precision - r
}

/// The fraction of the liquidity that remains once `a` of `l` units are burnt, scaled
/// by `precision` and rounded down.
pub open spec fn withdraw_ratio(l: int, a: int, precision: int) -> int {
    (l - a) * precision / l
}

/// What leaves a reserve `r` when `a` of `l` liquidity units are burnt: the reserve
/// less its remaining fraction, rounded down.
pub open spec fn withdraw_share(r: int, l: int, a: int, precision: int) -> int {
    r - r * withdraw_ratio(l, a, precision) / precision
}

/// The outcome of quoting a deposit of `a` liquidity units.
pub open spec fn deposit_quote(x: u64, y: u64, l: u64, a: u64, precision: u32) -> Result<
    (u64, u64),
    AmmError,
> {
    let dx = deposit_share(x as int, l as int, a as int, precision as int);
    let dy = deposit_share(y as int, l as int, a as int, precision as int);
    if l > 0 && precision > 0 && dx <= u64::MAX && dy <= u64::MAX {
        Ok((dx as u64, dy as u64))
    } else {
        Err(AmmError::ArithmeticFailure)
    }
}

/// The outcome of quoting a withdrawal of `a` liquidity units.
pub open spec fn withdraw_quote(x: u64, y: u64, l: u64, a: u64, precision: u32) -> Result<
    (u64, u64),
    AmmError,
> {
    if l > 0 && precision > 0 && a <= l {
        Ok(
            (
                withdraw_share(x as int, l as int, a as int, precision as int) as u64,
                withdraw_share(y as int, l as int, a as int, precision as int) as u64,
            ),
        )
    } else {
        Err(AmmError::ArithmeticFailure)
    }
}

/// A reserve grown by a ratio of at least one whole, less the reserve itself.
fn grown_share(r: u64, ratio: u128, precision: u32) -> (o: Result<u64, AmmError>)
    requires
        precision > 0,
        ratio >= precision,
    ensures
        o == if (r as int) * (ratio as int) / (precision as int) - r <= u64::MAX {
            Ok::<u64, AmmError>(((r as int) * (ratio as int) / (precision as int) - r) as u64)
        } else {
            Err::<u64, AmmError>(AmmError::ArithmeticFailure)
        },
{
    let prod = match (r as u128).checked_mul(ratio) {
        Some(v) => v,
        None => {
            assert((r as int) * (ratio as int) / (precision as int) - r > u64::MAX) by (nonlinear_arith)
                requires
                    r * ratio > u128::MAX,
                    0 < precision <= u32::MAX,
                    r <= u64::MAX,
            ;
            return Err(AmmError::ArithmeticFailure);
        },
    };
    let q = prod / (precision as u128);
    assert(q >= r) by (nonlinear_arith)
        requires
            q == (r as int) * (ratio as int) / (precision as int),
            ratio >= precision,
            precision > 0,
            r >= 0,
    ;
    let diff = q - (r as u128);
    if diff > u64::MAX as u128 {
        return Err(AmmError::ArithmeticFailure);
    }
    Ok(diff as u64)
}

/// A reserve less its remaining fraction under a ratio of at most one whole.
fn shrunk_share(r: u64, ratio: u128, precision: u32) -> (o: u64)
    requires
        precision > 0,
        ratio <= precision,
    ensures
        o == r - (r as int) * (ratio as int) / (precision as int),
{
    assert(r * ratio <= r * precision) by (nonlinear_arith)
        requires
            ratio <= precision,
            r >= 0,
    ;
    assert(r * precision <= u64::MAX * u32::MAX) by (nonlinear_arith)
        requires
            r <= u64::MAX,
            precision <= u32::MAX,
    ;
    let q = (r as u128) * ratio / (precision as u128);
    assert(q <= r) by (nonlinear_arith)
        requires
            q == (r as int) * (ratio as int) / (precision as int),
            r * ratio <= r * precision,
            precision > 0,
    ;
    r - q as u64
}

/// The amounts of X and Y a depositor pays to receive `a` liquidity units when `l`
/// units are outstanding over reserves `x` and `y`.
pub fn xy_deposit_amounts_from_l(x: u64, y: u64, l: u64, a: u64, precision: u32) -> (r: Result<
    (u64, u64),
    AmmError,
>)
    ensures
        r == deposit_quote(x, y, l, a, precision),
{
    if l == 0 || precision == 0 {
        return Err(AmmError::ArithmeticFailure);
    }
    assert((l + a) * precision <= (2 * u64::MAX) * u32::MAX) by (nonlinear_arith)
        requires
            l <= u64::MAX,
            a <= u64::MAX,
            precision <= u32::MAX,
    ;
    let ratio: u128 = ((l as u128) + (a as u128)) * (precision as u128) / (l as u128);
    assert(ratio >= precision) by (nonlinear_arith)
        requires
            ratio == (l + a) * precision / (l as int),
            l > 0,
            a >= 0,
            precision > 0,
    ;
    let dx = match grown_share(x, ratio, precision) {
        Ok(v) => v,
        Err(e) => {
            return Err(e);
        },
    };
    let dy = match grown_share(y, ratio, precision) {
        Ok(v) => v,
        Err(e) => {
            return Err(e);
        },
    };
    Ok((dx, dy))
}

/// The amounts of X and Y paid out for burning `a` of the `l` outstanding liquidity
/// units over reserves `x` and `y`.
pub fn xy_withdraw_amounts_from_l(x: u64, y: u64, l: u64, a: u64, precision: u32) -> (r: Result<
    (u64, u64),
    AmmError,
>)
    ensures
        r == withdraw_quote(x, y, l, a, precision),
        r matches Ok((wx, wy)) ==> wx <= x && wy <= y,
{
    if l == 0 || precision == 0 || a > l {
        return Err(AmmError::ArithmeticFailure);
    }
    assert((l - a) * precision <= u64::MAX * u32::MAX) by (nonlinear_arith)
        requires
            0 <= l - a <= u64::MAX,
            precision <= u32::MAX,
    ;
    let ratio: u128 = ((l - a) as u128) * (precision as u128) / (l as u128);
    assert(ratio <= precision) by (nonlinear_arith)
        requires
            ratio == (l - a) * precision / (l as int),
            l > 0,
            0 <= l - a <= l,
            precision > 0,
    ;
    Ok((shrunk_share(x, ratio, precision), shrunk_share(y, ratio, precision)))
}

/// A successful swap keeps the curve within one unit of its invariant: the product of
/// the committed reserves never exceeds the invariant before the trade, and one more
/// unit of the asset paid out would lift it above.
pub proof fn lemma_swap_invariant(c: ConstantProduct, p: LiquidityPair, a: u64)
    requires
        c.swap_computable(p, a),
    ensures
        c.after_swap(p, a).x * c.after_swap(p, a).y <= invariant_k(c.x as int, c.y as int),
        p == LiquidityPair::X ==> invariant_k(c.x as int, c.y as int) < c.after_swap(p, a).x * (
        c.after_swap(p, a).y + 1),
        p == LiquidityPair::Y ==> invariant_k(c.x as int, c.y as int) < (c.after_swap(p, a).x + 1)
            * c.after_swap(p, a).y,
        c.after_swap(p, a).reserve_in(p) <= c.reserve_in(p) + a,
{
    let paid = c.paid_in(a);
    assert(0 <= paid <= a) by (nonlinear_arith)
        requires
            paid == a * (10000 - c.fee) / 10000,
            c.fee <= 10000,
            a >= 0,
    ;
    match p {
        LiquidityPair::X => {
            lemma_out_reserve(c.x as int, c.y as int, paid);
        },
        LiquidityPair::Y => {
            lemma_out_reserve(c.y as int, c.x as int, paid);
            let o = out_reserve(c.y as int, c.x as int, paid);
            assert(o * (c.y + paid) == (c.y + paid) * o && (o + 1) * (c.y + paid) == (c.y + paid)
                * (o + 1) && invariant_k(c.x as int, c.y as int) == invariant_k(
                c.y as int,
                c.x as int,
            )) by (nonlinear_arith);
        },
    }
}

/// Each amount a depositor pays is its reserve's exact share `r * a / l` rounded down,
/// short of it by less than `r / precision + 1` units: never more than the share, and
/// the shortfall is bounded by the truncation of the ratio and of the product.
pub proof fn lemma_deposit_proportional(x: u64, y: u64, l: u64, a: u64, precision: u32)
    requires
        l > 0,
        precision > 0,
    ensures
        deposit_share(x as int, l as int, a as int, precision as int) * l <= x * a,
        (x * a - deposit_share(x as int, l as int, a as int, precision as int) * l) * precision < (x
            + precision) * l,
        deposit_share(y as int, l as int, a as int, precision as int) * l <= y * a,
        (y * a - deposit_share(y as int, l as int, a as int, precision as int) * l) * precision < (y
            + precision) * l,
{
    lemma_deposit_share_bounds(x as int, l as int, a as int, precision as int);
    lemma_deposit_share_bounds(y as int, l as int, a as int, precision as int);
}

proof fn lemma_deposit_share_bounds(r: int, l: int, a: int, p: int)
    requires
        l > 0,
        p > 0,
        r >= 0,
        a >= 0,
    ensures
        deposit_share(r, l, a, p) >= 0,
        deposit_share(r, l, a, p) * l <= r * a,
        (r * a - deposit_share(r, l, a, p) * l) * p < (r + p) * l,
{
    let t = (l + a) * p;
    let q = deposit_ratio(l, a, p);
    lemma_floor_div(t, l);
    assert(r * q >= 0) by (nonlinear_arith)
        requires
            r >= 0,
            q >= 0,
    ;
    let m = r * q;
    let n = m / p;
    lemma_floor_div(m, p);
    assert(q >= p) by (nonlinear_arith)
        requires
            q == t / l,
            t == (l + a) * p,
            l > 0,
            a >= 0,
            p > 0,
    ;
    assert(n >= r) by (nonlinear_arith)
        requires
            n == m / p,
            m == r * q,
            q >= p,
            p > 0,
            r >= 0,
    ;
    // n * p <= r * q and l * q <= (l + a) * p give n * l <= r * (l + a).
    assert(n * l <= r * (l + a)) by (nonlinear_arith)
        requires
            p * n <= m,
            m == r * q,
            l * q <= t,
            t == (l + a) * p,
            r >= 0,
            l > 0,
            p > 0,
    ;
    assert((n - r) * l <= r * a) by (nonlinear_arith)
        requires
            n * l <= r * (l + a),
    ;
    assert((r * a - (n - r) * l) * p < (r + p) * l) by (nonlinear_arith)
        requires
            m < p * (n + 1),
            m == r * q,
            t < l * (q + 1),
            t == (l + a) * p,
            r >= 0,
            l > 0,
            p > 0,
    ;
}

/// Each amount paid out on a withdrawal is at least its reserve's exact share
/// `r * a / l`, and exceeds it by less than `r / precision + 1` units.
pub proof fn lemma_withdraw_proportional(x: u64, y: u64, l: u64, a: u64, precision: u32)
    requires
        l > 0,
        precision > 0,
        a <= l,
    ensures
        withdraw_share(x as int, l as int, a as int, precision as int) * l >= x * a,
        (withdraw_share(x as int, l as int, a as int, precision as int) * l - x * a) * precision < (x
            + precision) * l,
        withdraw_share(y as int, l as int, a as int, precision as int) * l >= y * a,
        (withdraw_share(y as int, l as int, a as int, precision as int) * l - y * a) * precision < (y
            + precision) * l,
{
    lemma_withdraw_share_bounds(x as int, l as int, a as int, precision as int);
    lemma_withdraw_share_bounds(y as int, l as int, a as int, precision as int);
}

proof fn lemma_withdraw_share_bounds(r: int, l: int, a: int, p: int)
    requires
        l > 0,
        p > 0,
        r >= 0,
        0 <= a <= l,
    ensures
        withdraw_share(r, l, a, p) * l >= r * a,
        (withdraw_share(r, l, a, p) * l - r * a) * p < (r + p) * l,
{
    let t = (l - a) * p;
    assert(t >= 0) by (nonlinear_arith)
        requires
            t == (l - a) * p,
            l - a >= 0,
            p > 0,
    ;
    let q = withdraw_ratio(l, a, p);
    lemma_floor_div(t, l);
    assert(r * q >= 0) by (nonlinear_arith)
        requires
            r >= 0,
            q >= 0,
    ;
    let m = r * q;
    let n = m / p;
    lemma_floor_div(m, p);
    assert(n * l <= r * (l - a)) by (nonlinear_arith)
        requires
            p * n <= m,
            m == r * q,
            l * q <= t,
            t == (l - a) * p,
            r >= 0,
            l > 0,
            p > 0,
    ;
    assert((r - n) * l >= r * a) by (nonlinear_arith)
        requires
            n * l <= r * (l - a),
    ;
    assert(((r - n) * l - r * a) * p < (r + p) * l) by (nonlinear_arith)
        requires
            m < p * (n + 1),
            m == r * q,
            t < l * (q + 1),
            t == (l - a) * p,
            r >= 0,
            l > 0,
            p > 0,
    ;
}

/// Depositing `a` liquidity units and burning them again at once pays back at most
/// `(x + x2) / precision + 2` units more of a reserve than the deposit took, where `x`
/// and `x2` are the reserve before and after the deposit: the rounding of the two
/// quotes can favour the user, by no more than that.
pub proof fn lemma_deposit_withdraw_round_trip(x: u64, l: u64, a: u64, precision: u32)
    requires
        l > 0,
        precision > 0,
    ensures
        ({
            let dx = deposit_share(x as int, l as int, a as int, precision as int);
            let wx = withdraw_share(x + dx, l + a, a as int, precision as int);
            (wx - dx) * precision < x + (x + dx) + 2 * precision
        }),
{
    let r = x as int;
    let p = precision as int;
    let dx = deposit_share(r, l as int, a as int, p);
    lemma_deposit_share_bounds(r, l as int, a as int, p);
    let big_x = r + dx;
    let big_l = l + a;
    lemma_withdraw_share_bounds(big_x, big_l, a as int, p);
    let wx = withdraw_share(big_x, big_l, a as int, p);
    assert((wx - dx) * p * big_l == (wx * big_l - big_x * a) * p + (r * a - dx * l) * p) by (
    nonlinear_arith)
        requires
            big_x == r + dx,
            big_l == l + a,
    ;
    assert((r + p) * l <= (r + p) * big_l) by (nonlinear_arith)
        requires
            big_l == l + a,
            a >= 0,
            r >= 0,
            p > 0,
    ;
    assert((wx - dx) * p < big_x + r + 2 * p) by (nonlinear_arith)
        requires
            (wx - dx) * p * big_l < (big_x + p) * big_l + (r + p) * big_l,
            big_l > 0,
    ;
}

} // verus!
