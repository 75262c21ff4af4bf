use vstd::prelude::*;
use vstd::arithmetic::div_mod::{
    lemma_div_is_ordered,
    lemma_div_multiples_vanish,
    lemma_div_pos_is_pos,
    lemma_fundamental_div_mod,
    lemma_fundamental_div_mod_converse,
    lemma_mod_pos_bound,
};

use crate::error::ContractError;

verus! {

/// The protocol's own commission, in basis points of the escrow amount.
pub const PROTOCOL_FEE_BASIS_POINTS: i128 = 30;

/// Basis points in a whole.
pub const BASIS_POINTS_SCALE: i128 = 10000;

/// The platform fee is a whole percentage of the escrow amount.
pub const PERCENT_SCALE: i128 = 100;

/// The fixed protocol commission taken from `amount` (0.30%, rounded down).
pub open spec fn protocol_fee_of(amount: int) -> int {
    amount * (PROTOCOL_FEE_BASIS_POINTS as int) / (BASIS_POINTS_SCALE as int)
}

/// The platform commission taken from `amount` at a rate of `platform_fee` percent.
pub open spec fn platform_commission_of(amount: int, platform_fee: int) -> int {
    amount * platform_fee / (PERCENT_SCALE as int)
}

/// What is left for the service provider once both commissions are taken.
pub open spec fn provider_share_of(amount: int, platform_fee: int) -> int {
    amount - protocol_fee_of(amount) - platform_commission_of(amount, platform_fee)
}

/// A fee configuration that can be paid out: a positive amount, a
/// non-negative rate, and commissions that leave the provider nothing negative.
pub open spec fn split_is_sound(amount: int, platform_fee: int) -> bool {
    &&& amount > 0
    &&& platform_fee >= 0
    &&& provider_share_of(amount, platform_fee) >= 0
}

/// How an escrow amount is divided when earnings are released.
#[derive(Debug, Clone, Copy, PartialEq, Eq, Structural)]
pub struct FeeSplit {
    pub protocol_fee: i128,
    pub platform_commission: i128,
    pub service_provider_amount: i128,
}

impl FeeSplit {
    /// The sum of the three parts.
    pub open spec fn total(self) -> int {
        self.protocol_fee + self.platform_commission + self.service_provider_amount
    }
}

/// `(m * x + y) / m == x + y / m` for a positive `m` and a non-negative `y`,
/// phrased as the quotient of `v` once `v` is known to be `m * x + y`.
proof fn lemma_quotient_shift(v: int, m: int, x: int, y: int)
    requires
        m > 0,
        y >= 0,
        v == m * x + y,
    ensures
        v / m == x + y / m,
{
    lemma_fundamental_div_mod(y, m);
    lemma_mod_pos_bound(y, m);
    let c = y / m;
    let e = y % m;
    assert(v == (x + c) * m + e) by (nonlinear_arith)
        requires
            v == m * x + y,
            y == m * c + e,
    ;
    lemma_fundamental_div_mod_converse(v, m, x + c, e);
}

/// Splits `amount` into the protocol commission, the platform commission at
/// `platform_fee` percent, and the provider's remainder. A configuration that
/// would pay anyone a negative amount is refused with `InvalidFeeConfiguration`.
pub fn split_earnings(amount: i128, platform_fee: i128) -> (r: Result<FeeSplit, ContractError>)
    ensures
        r is Ok <==> split_is_sound(amount as int, platform_fee as int),
        r is Err ==> r == Err::<FeeSplit, ContractError>(ContractError::InvalidFeeConfiguration),
        r matches Ok(s) ==> {
            &&& s.protocol_fee == protocol_fee_of(amount as int)
            &&& s.platform_commission == platform_commission_of(amount as int, platform_fee as int)
            &&& s.service_provider_amount == provider_share_of(amount as int, platform_fee as int)
            &&& s.protocol_fee >= 0
            &&& s.platform_commission >= 0
            &&& s.service_provider_amount >= 0
            &&& s.total() == amount
        },
{
    if amount <= 0 || platform_fee < 0 {
        return Err(ContractError::InvalidFeeConfiguration);
    }
    // protocol fee, computed without forming amount * 30
    let whole_units = amount / BASIS_POINTS_SCALE;
    let leftover = amount % BASIS_POINTS_SCALE;
    let protocol_fee = whole_units * PROTOCOL_FEE_BASIS_POINTS + leftover * PROTOCOL_FEE_BASIS_POINTS
        / BASIS_POINTS_SCALE;
    proof {
        lemma_fundamental_div_mod(amount as int, 10000);
        assert(amount * 30 == 10000 * (whole_units * 30) + leftover * 30) by (nonlinear_arith)
            requires
                amount == 10000 * whole_units + leftover,
        ;
        lemma_quotient_shift(amount * 30, 10000, whole_units * 30, leftover * 30);
    }
    // a rate of 200% or more takes at least twice the amount
    if platform_fee >= 2 * PERCENT_SCALE {
        proof {
            assert(amount * platform_fee >= 100 * (2 * amount)) by (nonlinear_arith)
                requires
                    amount > 0,
                    platform_fee >= 200,
            ;
            lemma_div_is_ordered(100 * (2 * amount), amount * platform_fee, 100);
            lemma_div_multiples_vanish(2 * amount, 100);
        }
        return Err(ContractError::InvalidFeeConfiguration);
    }
    // platform commission, computed without forming amount * platform_fee
    let hundreds = amount / PERCENT_SCALE;
    let rest = amount % PERCENT_SCALE;
    assert(0 <= rest * platform_fee < 100 * 200) by (nonlinear_arith)
        requires
            0 <= rest < 100,
            0 <= platform_fee < 200,
    ;
    let rest_part = rest * platform_fee / PERCENT_SCALE;
    proof {
        lemma_fundamental_div_mod(amount as int, 100);
        assert(amount * platform_fee == 100 * (hundreds * platform_fee) + rest * platform_fee)
            by (nonlinear_arith)
            requires
                amount == 100 * hundreds + rest,
        ;
        assert(rest * platform_fee >= 0) by (nonlinear_arith)
            requires
                rest >= 0,
                platform_fee >= 0,
        ;
        lemma_quotient_shift(amount * platform_fee, 100, hundreds * platform_fee, rest * platform_fee);
        lemma_div_pos_is_pos(rest * platform_fee, 100);
    }
    let whole_part = match hundreds.checked_mul(platform_fee) {
        Some(w) => w,
        None => {
            return Err(ContractError::InvalidFeeConfiguration);
        },
    };
    let platform_commission = match whole_part.checked_add(rest_part) {
        Some(c) => c,
        None => {
            return Err(ContractError::InvalidFeeConfiguration);
        },
    };
    proof {
        assert(protocol_fee >= 0) by (nonlinear_arith)
            requires
                whole_units >= 0,
                leftover >= 0,
                protocol_fee == whole_units * 30 + leftover * 30 / 10000,
        ;
    }
    if platform_commission > amount - protocol_fee {
        return Err(ContractError::InvalidFeeConfiguration);
    }
    let service_provider_amount = amount - protocol_fee - platform_commission;
    Ok(FeeSplit { protocol_fee, platform_commission, service_provider_amount })
}

} // verus!
