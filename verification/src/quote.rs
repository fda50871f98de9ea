//! QuoteCalculator: derives limit price and quantity bounds for one
//! immediate take order from the caller's input amount and minimum
//! acceptable output.

use vstd::prelude::*;

use crate::ErrorCode;
use crate::Side;

verus! {

/// Parameters of one immediate take order, derived once and consumed once.
///
/// Invariant: `limit_price` is positive; a zero price is rejected as
/// `InvalidLimitPrice` before a value of this type is built.
#[derive(Clone, Copy, Debug, PartialEq, Eq, Structural)]
pub struct QuoteParameters {
    /// Worst price per unit of base asset the taker will accept.
    pub limit_price: u64,
    /// Most base asset the order may move.
    pub max_base_qty: u64,
    /// Most quote asset, fees included, the order may spend.
    pub max_quote_qty_incl_fees: u64,
    /// Least base asset the fill must deliver.
    pub min_base_qty: u64,
    /// Least native quote asset the fill must deliver.
    pub min_native_quote_qty: u64,
}

impl QuoteParameters {
    /// Well-formedness of a derived quote.
    pub open spec fn wf(self) -> bool {
        self.limit_price > 0
    }
}

/// Dividend of the limit-price floor division: a bid prices the trade as
/// `amount_out_min / amount`, an ask as `amount / amount_out_min`.
pub open spec fn spec_price_dividend(side: Side, amount: u64, amount_out_min: u64) -> int {
    match side {
        Side::Bid => amount_out_min as int,
        Side::Ask => amount as int,
    }
}

/// Divisor of the limit-price floor division.
pub open spec fn spec_price_divisor(side: Side, amount: u64, amount_out_min: u64) -> int {
    match side {
        Side::Bid => amount as int,
        Side::Ask => amount_out_min as int,
    }
}

/// The limit price implied by the caller's amounts: the floor of the
/// dividend over the divisor. Meaningful only when the divisor is non-zero.
pub open spec fn spec_limit_price(side: Side, amount: u64, amount_out_min: u64) -> int {
    spec_price_dividend(side, amount, amount_out_min) / spec_price_divisor(
        side,
        amount,
        amount_out_min,
    )
}

/// Full mathematical mirror of `compute`.
///
/// A zero divisor (a zero input amount on the side that divides by it) and
/// a zero floor both reject the request as `InvalidLimitPrice`; a quantity
/// product beyond `u64::MAX` rejects it as `Overflow`; everything else
/// yields the exact floor-division parameters. Floor division is deliberate:
/// it biases the effective limit price to be at least as favorable to the
/// taker as requested.
pub open spec fn spec_compute(side: Side, amount: u64, amount_out_min: u64) -> Result<
    QuoteParameters,
    ErrorCode,
> {
    let lp = spec_limit_price(side, amount, amount_out_min);
    if spec_price_divisor(side, amount, amount_out_min) == 0 || lp == 0 {
        Err(ErrorCode::InvalidLimitPrice)
    } else {
        match side {
            Side::Bid => {
                if amount_out_min * lp > u64::MAX {
                    Err(ErrorCode::Overflow)
                } else {
                    Ok(
                        QuoteParameters {
                            limit_price: lp as u64,
                            max_base_qty: (amount as int / lp) as u64,
                            max_quote_qty_incl_fees: amount,
                            min_base_qty: amount_out_min,
                            min_native_quote_qty: (amount_out_min * lp) as u64,
                        },
                    )
                }
            },
            Side::Ask => {
                if amount * lp > u64::MAX {
                    Err(ErrorCode::Overflow)
                } else {
                    Ok(
                        QuoteParameters {
                            limit_price: lp as u64,
                            max_base_qty: amount,
                            max_quote_qty_incl_fees: (amount * lp) as u64,
                            min_base_qty: (amount_out_min as int / lp) as u64,
                            min_native_quote_qty: amount_out_min,
                        },
                    )
                }
            },
        }
    }
}

/// Derives the take-order parameters for one swap direction.
///
/// Never panics and never wraps: a zero implied price is reported as
/// `InvalidLimitPrice` and an overflowing quantity product as `Overflow`.
pub fn compute(side: Side, amount: u64, amount_out_min: u64) -> (r: Result<
    QuoteParameters,
    ErrorCode,
>)
    ensures
        r == spec_compute(side, amount, amount_out_min),
        r is Ok ==> r->Ok_0.wf(),
{
    let (dividend, divisor): (u64, u64) = match side {
        Side::Bid => (amount_out_min, amount),
        Side::Ask => (amount, amount_out_min),
    };
    if divisor == 0 {
        return Err(ErrorCode::InvalidLimitPrice);
    }
    let limit_price = dividend / divisor;
    if limit_price == 0 {
        return Err(ErrorCode::InvalidLimitPrice);
    }
    match side {
        Side::Bid => {
            match amount_out_min.checked_mul(limit_price) {
                None => Err(ErrorCode::Overflow),
                Some(min_native_quote_qty) => Ok(
                    QuoteParameters {
                        limit_price,
                        max_base_qty: amount / limit_price,
                        max_quote_qty_incl_fees: amount,
                        min_base_qty: amount_out_min,
                        min_native_quote_qty,
                    },
                ),
            }
        },
        Side::Ask => {
            match amount.checked_mul(limit_price) {
                None => Err(ErrorCode::Overflow),
                Some(max_quote_qty_incl_fees) => Ok(
                    QuoteParameters {
                        limit_price,
                        max_base_qty: amount,
                        max_quote_qty_incl_fees,
                        min_base_qty: amount_out_min / limit_price,
                        min_native_quote_qty: amount_out_min,
                    },
                ),
            }
        },
    }
}

/// A successful quote never carries a zero limit price, and the zero-floor
/// case is reported as `InvalidLimitPrice` — for every pair of inputs,
/// if and only if.
pub proof fn lemma_limit_price_never_zero(side: Side, amount: u64, amount_out_min: u64)
    ensures
        spec_compute(side, amount, amount_out_min) is Ok ==> spec_compute(
            side,
            amount,
            amount_out_min,
        )->Ok_0.limit_price == spec_limit_price(side, amount, amount_out_min),
        spec_compute(side, amount, amount_out_min) is Ok ==> spec_compute(
            side,
            amount,
            amount_out_min,
        )->Ok_0.limit_price > 0,
        (spec_price_divisor(side, amount, amount_out_min) == 0 || spec_limit_price(
            side,
            amount,
            amount_out_min,
        ) == 0) <==> spec_compute(side, amount, amount_out_min) == Err::<
            QuoteParameters,
            ErrorCode,
        >(ErrorCode::InvalidLimitPrice),
{
}

/// Spending cap, bid side: the base quantity bought at the limit price
/// never costs more than the caller's input amount.
pub proof fn lemma_bid_spending_cap(amount: u64, amount_out_min: u64)
    requires
        spec_compute(Side::Bid, amount, amount_out_min) is Ok,
    ensures
        spec_compute(Side::Bid, amount, amount_out_min)->Ok_0.max_base_qty * spec_compute(
            Side::Bid,
            amount,
            amount_out_min,
        )->Ok_0.limit_price <= amount,
{
    let lp = spec_limit_price(Side::Bid, amount, amount_out_min);
    assert((amount as int / lp) * lp <= amount as int) by (nonlinear_arith)
        requires
            lp > 0,
    ;
}

/// Minimum-output bound, ask side: the minimum base quantity, valued at
/// the limit price, never exceeds the requested minimum output.
pub proof fn lemma_ask_min_output_bound(amount: u64, amount_out_min: u64)
    requires
        spec_compute(Side::Ask, amount, amount_out_min) is Ok,
    ensures
        spec_compute(Side::Ask, amount, amount_out_min)->Ok_0.min_base_qty * spec_compute(
            Side::Ask,
            amount,
            amount_out_min,
        )->Ok_0.limit_price <= amount_out_min,
{
    let lp = spec_limit_price(Side::Ask, amount, amount_out_min);
    assert((amount_out_min as int / lp) * lp <= amount_out_min as int) by (nonlinear_arith)
        requires
            lp > 0,
    ;
}

} // verus!
