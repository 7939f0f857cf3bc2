//! Basis-point arithmetic on 128-bit amounts.
//!
//! A basis point is one hundredth of a percent. Shares are rounded down
//! (towards negative infinity), and are computed without ever leaving the
//! range of the machine integers, whatever the operands.

use vstd::prelude::*;

verus! {

/// One hundred percent, in basis points.
pub const BASIS_POINTS_SCALE: i128 = 10_000;

/// The largest relative change of a parameter in one update, in basis points
/// of its current value.
pub const MAX_CHANGE_BPS: i128 = 1_000;

/// Absolute value of a mathematical integer.
pub open spec fn abs(x: int) -> int {
    if x < 0 {
        -x
    } else {
        x
    }
}

/// Whether moving a parameter from `current` to `proposed` stays within the
/// allowed relative change: the distance between the two is at most
/// `MAX_CHANGE_BPS` basis points of the current value.
pub open spec fn within_change_limit(current: int, proposed: int) -> bool {
    abs(proposed - current) * BASIS_POINTS_SCALE <= abs(current) * MAX_CHANGE_BPS
}

/// The share of `amount` that `bps` basis points stand for, rounded down.
pub open spec fn basis_point_share(amount: int, bps: int) -> int {
    (amount * bps) / (BASIS_POINTS_SCALE as int)
}

/// Whether a mathematical integer is the value of some `i128`.
pub open spec fn fits_i128(x: int) -> bool {
    i128::MIN <= x <= i128::MAX
}

/// Decides `within_change_limit`.
pub fn check_change_limit(current: i128, proposed: i128) -> (ok: bool)
    ensures
        ok == within_change_limit(current as int, proposed as int),
{
    let max_delta: i128 = if current >= 0 {
        current / 10
    } else {
        let below: i128 = -(current + 1);
        if below % 10 == 9 {
            below / 10 + 1
        } else {
            below / 10
        }
    };
    assert(max_delta == abs(current as int) / 10);
    let above_floor: bool = match current.checked_sub(max_delta) {
        Some(lowest) => lowest <= proposed,
        None => true,
    };
    let below_ceiling: bool = match current.checked_add(max_delta) {
        Some(highest) => proposed <= highest,
        None => true,
    };
    above_floor && below_ceiling
}

/// The absolute value of `x`, which always fits in the unsigned type.
fn magnitude(x: i128) -> (m: u128)
    ensures
        m == abs(x as int),
{
    if x >= 0 {
        x as u128
    } else {
        let below: i128 = -(x + 1);
        below as u128 + 1
    }
}

/// Splitting both factors at the scale gives the quotient and the remainder
/// of their product from small pieces.
proof fn lemma_split_product(x: int, y: int)
    requires
        x >= 0,
        y >= 0,
    ensures
        (x * y) / 10_000 == (x / 10_000) * y + (x % 10_000) * (y / 10_000) + ((x % 10_000) * (y
            % 10_000)) / 10_000,
        (x * y) % 10_000 == ((x % 10_000) * (y % 10_000)) % 10_000,
{
    let q = x / 10_000;
    let r = x % 10_000;
    let a = y / 10_000;
    let c = y % 10_000;
    assert(x * y == 10_000 * (q * y + r * a) + r * c) by (nonlinear_arith)
        requires
            x == 10_000 * q + r,
            y == 10_000 * a + c,
    ;
    assert(r * c >= 0) by (nonlinear_arith)
        requires
            r >= 0,
            c >= 0,
    ;
}

/// The product of two integers from the product of their absolute values.
proof fn lemma_product_sign(x: int, y: int)
    ensures
        (x < 0) != (y < 0) ==> x * y == -(abs(x) * abs(y)),
        (x < 0) == (y < 0) ==> x * y == abs(x) * abs(y),
        abs(x) * abs(y) >= 0,
{
    assert(x * y == -((-x) * y) && x * y == -(x * (-y)) && x * y == (-x) * (-y))
        by (nonlinear_arith);
    assert(abs(x) * abs(y) >= 0) by (nonlinear_arith)
        requires
            abs(x) >= 0,
            abs(y) >= 0,
    ;
}

/// `basis_point_share(amount, bps)`, or `None` where that number is not an
/// `i128`.
pub fn scale_by_basis_points(amount: i128, bps: i128) -> (share: Option<i128>)
    ensures
        fits_i128(basis_point_share(amount as int, bps as int)) ==> share == Some(
            basis_point_share(amount as int, bps as int) as i128,
        ),
        !fits_i128(basis_point_share(amount as int, bps as int)) ==> share.is_none(),
{
    let x: u128 = magnitude(amount);
    let y: u128 = magnitude(bps);
    let negative: bool = (amount < 0) != (bps < 0);
    let q: u128 = x / 10_000;
    let r: u128 = x % 10_000;
    let a: u128 = y / 10_000;
    let c: u128 = y % 10_000;
    proof {
        lemma_split_product(x as int, y as int);
        lemma_product_sign(amount as int, bps as int);
        assert(q * y >= 0 && r * a >= 0 && r * a <= 9_999 * a && r * c <= 9_999 * 9_999) by (nonlinear_arith)
            requires
                0 <= q,
                0 <= y,
                0 <= r <= 9_999,
                0 <= a,
                0 <= c <= 9_999,
        ;
    }
    let whole: u128 = match q.checked_mul(y) {
        Some(v) => v,
        None => {
            return None;
        },
    };
    let part: u128 = r * a;
    let low: u128 = r * c;
    let sum: u128 = match whole.checked_add(part) {
        Some(v) => v,
        None => {
            return None;
        },
    };
    let floor: u128 = match sum.checked_add(low / 10_000) {
        Some(v) => v,
        None => {
            return None;
        },
    };
    assert(floor == (x * y) / 10_000);
    let limit: u128 = 0x8000_0000_0000_0000_0000_0000_0000_0000;
    if !negative {
        if floor < limit {
            Some(floor as i128)
        } else {
            None
        }
    } else {
        let ceil: u128 = if low % 10_000 != 0 {
            match floor.checked_add(1) {
                Some(v) => v,
                None => {
                    return None;
                },
            }
        } else {
            floor
        };
        if ceil < limit {
            Some(-(ceil as i128))
        } else if ceil == limit {
            Some(i128::MIN)
        } else {
            None
        }
    }
}

} // verus!
