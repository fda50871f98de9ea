//! TransitiveMarketSwap: swaps asset A for asset C through a shared
//! intermediate asset B by chaining two immediate take orders — leg 1
//! sells A for B with an ask, leg 2 buys C with B with a bid — inside one
//! all-or-nothing execution unit provided by the host environment.
//!
//! Slippage policy between the legs: the caller's end-to-end minimum
//! output is enforced in full on leg 2, and leg 1 is bounded by a
//! conservative minimum intermediate output — the final minimum valued at
//! the worst price leg 2 is permitted to fill at — so that even a
//! worst-case leg-2 fill still delivers the caller's minimum. Leg 2's
//! input amount is never estimated up front: it is exactly the
//! intermediate delta that leg 1 actually settled, and any failure after
//! leg 1 aborts the whole unit, leg 1's settlement included.

use vstd::prelude::*;

use crate::ErrorCode;
use crate::Side;
use crate::guard::AssetId;
use crate::guard::is_valid_swap;
use crate::observer::SwapResult;
use crate::observer::observe_deltas;
use crate::observer::spec_observe_deltas;
use crate::quote::QuoteParameters;
use crate::quote::compute;
use crate::quote::spec_compute;

verus! {

/// A caller-supplied transitive swap request: the amount of the outer
/// input asset to sell, and the least amount of the outer output asset
/// the caller will accept at the end of both legs.
#[derive(Clone, Copy, Debug, PartialEq, Eq, Structural)]
pub struct TransitiveSwapRequest {
    pub amount: u64,
    pub minimum_final_output: u64,
}

/// Least intermediate output leg 1 must deliver: the end-to-end minimum
/// valued at leg 2's worst permitted price, with the product checked.
pub open spec fn spec_leg1_min_output(minimum_final_output: u64, leg2_worst_price: u64) -> Result<
    u64,
    ErrorCode,
> {
    if minimum_final_output * leg2_worst_price > u64::MAX {
        Err(ErrorCode::Overflow)
    } else {
        Ok((minimum_final_output * leg2_worst_price) as u64)
    }
}

/// Derives the minimum intermediate output that protects leg 1.
pub fn leg1_min_output(minimum_final_output: u64, leg2_worst_price: u64) -> (r: Result<
    u64,
    ErrorCode,
>)
    ensures
        r == spec_leg1_min_output(minimum_final_output, leg2_worst_price),
{
    match minimum_final_output.checked_mul(leg2_worst_price) {
        None => Err(ErrorCode::Overflow),
        Some(leg1_min) => Ok(leg1_min),
    }
}

/// Mathematical mirror of `swap_transitive`: the identity guard on the
/// two outer base assets, then the ask quote of leg 1.
pub open spec fn spec_swap_transitive(
    req: TransitiveSwapRequest,
    leg2_worst_price: u64,
    leg1_base_asset: AssetId,
    leg2_base_asset: AssetId,
) -> Result<QuoteParameters, ErrorCode> {
    if leg1_base_asset == leg2_base_asset {
        Err(ErrorCode::SwapTokensCannotMatch)
    } else {
        match spec_leg1_min_output(req.minimum_final_output, leg2_worst_price) {
            Err(e) => Err(e),
            Ok(leg1_min) => spec_compute(Side::Ask, req.amount, leg1_min),
        }
    }
}

/// Decision core of leg 1: rejects a transitive swap whose outer assets
/// are identical, then derives the ask quote that sells the full input
/// amount for the intermediate asset under the conservative leg-1
/// minimum.
pub fn swap_transitive(
    req: &TransitiveSwapRequest,
    leg2_worst_price: u64,
    leg1_base_asset: AssetId,
    leg2_base_asset: AssetId,
) -> (r: Result<QuoteParameters, ErrorCode>)
    ensures
        r == spec_swap_transitive(*req, leg2_worst_price, leg1_base_asset, leg2_base_asset),
        r is Ok ==> r->Ok_0.wf(),
{
    match is_valid_swap(leg1_base_asset, leg2_base_asset) {
        Err(e) => Err(e),
        Ok(()) => {
            match leg1_min_output(req.minimum_final_output, leg2_worst_price) {
                Err(e) => Err(e),
                Ok(leg1_min) => compute(Side::Ask, req.amount, leg1_min),
            }
        },
    }
}

/// Mathematical mirror of `swap_transitive_leg2`: the realized
/// intermediate delta of leg 1 becomes leg 2's input amount, under the
/// caller's end-to-end minimum.
pub open spec fn spec_swap_transitive_leg2(
    leg1_quote_before: u64,
    leg1_quote_after: u64,
    minimum_final_output: u64,
) -> Result<QuoteParameters, ErrorCode> {
    if leg1_quote_after < leg1_quote_before {
        Err(ErrorCode::BalanceUnderflow)
    } else {
        spec_compute(
            Side::Bid,
            (leg1_quote_after - leg1_quote_before) as u64,
            minimum_final_output,
        )
    }
}

/// Decision core of leg 2: measures leg 1's realized intermediate output
/// from the quote-asset balances bracketing it — never from an up-front
/// estimate — and derives the bid quote that spends exactly that output,
/// protected by the caller's end-to-end minimum.
pub fn swap_transitive_leg2(
    leg1_quote_before: u64,
    leg1_quote_after: u64,
    minimum_final_output: u64,
) -> (r: Result<QuoteParameters, ErrorCode>)
    ensures
        r == spec_swap_transitive_leg2(leg1_quote_before, leg1_quote_after, minimum_final_output),
        r is Ok ==> r->Ok_0.wf(),
{
    match leg1_quote_after.checked_sub(leg1_quote_before) {
        None => Err(ErrorCode::BalanceUnderflow),
        Some(realized) => compute(Side::Bid, realized, minimum_final_output),
    }
}

/// Stage of one transitive swap. Success runs leg 1 from quote to
/// settlement, then leg 2 the same way; a failure at any stage falls to
/// `Rejected`, upon which the host's all-or-nothing execution unit aborts
/// every effect of the compound operation, leg 1's settlement included.
#[derive(Clone, Copy, Debug, PartialEq, Eq, Structural)]
pub enum TransitiveState {
    /// Guard passed and leg 1's ask parameters derived.
    Leg1Quoted { leg1: QuoteParameters, minimum_final_output: u64 },
    /// Balances bracketing leg 1 were recorded; leg 1's order is out.
    Leg1Dispatched { minimum_final_output: u64, input_before: u64, quote_before: u64 },
    /// Leg 1 settled and leg 2's bid parameters were derived from its
    /// realized intermediate output.
    Leg2Quoted { leg2: QuoteParameters, amount_in_consumed: u64 },
    /// The final-asset balance before leg 2 was recorded; leg 2 is out.
    Leg2Dispatched { amount_in_consumed: u64, output_before: u64 },
    /// Both legs settled; terminal success.
    Settled { result: SwapResult },
    /// Terminal failure of the whole compound operation.
    Rejected { error: ErrorCode },
}

/// The state `TransitiveMarketSwap::start` establishes.
pub open spec fn spec_transitive_start(
    req: TransitiveSwapRequest,
    leg2_worst_price: u64,
    leg1_base_asset: AssetId,
    leg2_base_asset: AssetId,
) -> TransitiveState {
    match spec_swap_transitive(req, leg2_worst_price, leg1_base_asset, leg2_base_asset) {
        Ok(leg1) => TransitiveState::Leg1Quoted {
            leg1,
            minimum_final_output: req.minimum_final_output,
        },
        Err(error) => TransitiveState::Rejected { error },
    }
}

/// The state `settle_leg1` reaches: the input and intermediate deltas of
/// leg 1 are measured, and the realized intermediate output — nothing
/// estimated earlier — becomes leg 2's input amount.
pub open spec fn spec_settle_leg1(
    state: TransitiveState,
    input_after: u64,
    quote_after: u64,
) -> TransitiveState {
    match state {
        TransitiveState::Leg1Dispatched { minimum_final_output, input_before, quote_before } => {
            match spec_observe_deltas(input_before, input_after, quote_before, quote_after) {
                Ok(leg1_result) => match spec_compute(
                    Side::Bid,
                    leg1_result.amount_out_received,
                    minimum_final_output,
                ) {
                    Ok(leg2) => TransitiveState::Leg2Quoted {
                        leg2,
                        amount_in_consumed: leg1_result.amount_in_consumed,
                    },
                    Err(error) => TransitiveState::Rejected { error },
                },
                Err(error) => TransitiveState::Rejected { error },
            }
        },
        _ => state,
    }
}

/// The state `settle_leg2` reaches: the final-asset delta completes the
/// compound result.
pub open spec fn spec_settle_leg2(state: TransitiveState, output_after: u64) -> TransitiveState {
    match state {
        TransitiveState::Leg2Dispatched { amount_in_consumed, output_before } => {
            if output_after < output_before {
                TransitiveState::Rejected { error: ErrorCode::BalanceUnderflow }
            } else {
                TransitiveState::Settled {
                    result: SwapResult {
                        amount_in_consumed,
                        amount_out_received: (output_after - output_before) as u64,
                    },
                }
            }
        },
        _ => state,
    }
}

/// One transitive swap in flight. Both legs run inside a single
/// all-or-nothing execution unit owned by the host environment: the
/// machine only decides, and a `Rejected` state obliges the host to abort
/// every effect of the unit.
#[derive(Clone, Copy, Debug, PartialEq, Eq, Structural)]
pub struct TransitiveMarketSwap {
    pub state: TransitiveState,
}

impl TransitiveMarketSwap {
    /// Every quote the machine carries is well formed.
    pub open spec fn wf(self) -> bool {
        match self.state {
            TransitiveState::Leg1Quoted { leg1, minimum_final_output: _ } => leg1.wf(),
            TransitiveState::Leg2Quoted { leg2, amount_in_consumed: _ } => leg2.wf(),
            _ => true,
        }
    }

    /// Starts a transitive swap: validates that the two outer base assets
    /// differ, then derives leg 1's ask quote under the conservative
    /// leg-1 minimum.
    pub fn start(
        req: &TransitiveSwapRequest,
        leg2_worst_price: u64,
        leg1_base_asset: AssetId,
        leg2_base_asset: AssetId,
    ) -> (s: Self)
        ensures
            s.state == spec_transitive_start(
                *req,
                leg2_worst_price,
                leg1_base_asset,
                leg2_base_asset,
            ),
            s.wf(),
    {
        match swap_transitive(req, leg2_worst_price, leg1_base_asset, leg2_base_asset) {
            Ok(leg1) => TransitiveMarketSwap {
                state: TransitiveState::Leg1Quoted {
                    leg1,
                    minimum_final_output: req.minimum_final_output,
                },
            },
            Err(error) => TransitiveMarketSwap { state: TransitiveState::Rejected { error } },
        }
    }

    /// Records the input-asset and intermediate-asset balances read just
    /// before leg 1 is dispatched.
    pub fn record_leg1_balances(self, input_before: u64, quote_before: u64) -> (s: Self)
        requires
            self.state is Leg1Quoted,
        ensures
            s.state == (TransitiveState::Leg1Dispatched {
                minimum_final_output: self.state->Leg1Quoted_minimum_final_output,
                input_before,
                quote_before,
            }),
            s.wf(),
    {
        match self.state {
            TransitiveState::Leg1Quoted { leg1: _, minimum_final_output } => TransitiveMarketSwap {
                state: TransitiveState::Leg1Dispatched {
                    minimum_final_output,
                    input_before,
                    quote_before,
                },
            },
            _ => self,
        }
    }

    /// Settles leg 1 from the balances read after its venue call and
    /// derives leg 2's bid quote, whose input amount is exactly leg 1's
    /// realized intermediate output.
    pub fn settle_leg1(self, input_after: u64, quote_after: u64) -> (s: Self)
        requires
            self.state is Leg1Dispatched,
        ensures
            s.state == spec_settle_leg1(self.state, input_after, quote_after),
            s.wf(),
    {
        match self.state {
            TransitiveState::Leg1Dispatched {
                minimum_final_output,
                input_before,
                quote_before,
            } => {
                match observe_deltas(input_before, input_after, quote_before, quote_after) {
                    Ok(leg1_result) => {
                        match compute(
                            Side::Bid,
                            leg1_result.amount_out_received,
                            minimum_final_output,
                        ) {
                            Ok(leg2) => TransitiveMarketSwap {
                                state: TransitiveState::Leg2Quoted {
                                    leg2,
                                    amount_in_consumed: leg1_result.amount_in_consumed,
                                },
                            },
                            Err(error) => TransitiveMarketSwap {
                                state: TransitiveState::Rejected { error },
                            },
                        }
                    },
                    Err(error) => TransitiveMarketSwap {
                        state: TransitiveState::Rejected { error },
                    },
                }
            },
            _ => self,
        }
    }

    /// Records the final-asset balance read just before leg 2 is
    /// dispatched.
    pub fn record_leg2_balance(self, output_before: u64) -> (s: Self)
        requires
            self.state is Leg2Quoted,
        ensures
            s.state == (TransitiveState::Leg2Dispatched {
                amount_in_consumed: self.state->Leg2Quoted_amount_in_consumed,
                output_before,
            }),
            s.wf(),
    {
        match self.state {
            TransitiveState::Leg2Quoted { leg2: _, amount_in_consumed } => TransitiveMarketSwap {
                state: TransitiveState::Leg2Dispatched { amount_in_consumed, output_before },
            },
            _ => self,
        }
    }

    /// Settles leg 2 from the final-asset balance read after its venue
    /// call, completing the compound result.
    pub fn settle_leg2(self, output_after: u64) -> (s: Self)
        requires
            self.state is Leg2Dispatched,
        ensures
            s.state == spec_settle_leg2(self.state, output_after),
            s.wf(),
    {
        match self.state {
            TransitiveState::Leg2Dispatched { amount_in_consumed, output_before } => {
                match output_after.checked_sub(output_before) {
                    None => TransitiveMarketSwap {
                        state: TransitiveState::Rejected { error: ErrorCode::BalanceUnderflow },
                    },
                    Some(amount_out_received) => TransitiveMarketSwap {
                        state: TransitiveState::Settled {
                            result: SwapResult { amount_in_consumed, amount_out_received },
                        },
                    },
                }
            },
            _ => self,
        }
    }

    /// Marks the leg currently out as refused by the venue; the whole
    /// compound operation fails as a unit.
    pub fn venue_rejected(self) -> (s: Self)
        requires
            self.state is Leg1Dispatched || self.state is Leg2Dispatched,
        ensures
            s.state == (TransitiveState::Rejected { error: ErrorCode::VenueRejected }),
    {
        TransitiveMarketSwap { state: TransitiveState::Rejected { error: ErrorCode::VenueRejected } }
    }
}

/// Leg 2 spends exactly what leg 1 delivered: whenever leg 2's quote
/// succeeds, its quote-side spending cap is the realized intermediate
/// delta itself, not an amount estimated before leg 1 settled.
pub proof fn lemma_leg2_input_is_realized_output(
    leg1_quote_before: u64,
    leg1_quote_after: u64,
    minimum_final_output: u64,
)
    requires
        leg1_quote_after >= leg1_quote_before,
        spec_swap_transitive_leg2(leg1_quote_before, leg1_quote_after, minimum_final_output) is Ok,
    ensures
        spec_swap_transitive_leg2(
            leg1_quote_before,
            leg1_quote_after,
            minimum_final_output,
        )->Ok_0.max_quote_qty_incl_fees == leg1_quote_after - leg1_quote_before,
{
}

} // verus!
