//! SingleMarketSwap: one user-facing swap on a single market, composed
//! from the identity guard, the quote calculator, the dispatcher and the
//! balance-delta observer. The venue call and the balance reads happen
//! outside the library; the state machine here makes every decision and
//! consumes the plain values those reads produce.

use vstd::prelude::*;

use crate::AccountRef;
use crate::ErrorCode;
use crate::Side;
use crate::guard::AssetId;
use crate::guard::is_valid_swap;
use crate::observer::SwapResult;
use crate::observer::observe_deltas;
use crate::observer::spec_observe_deltas;
use crate::quote::QuoteParameters;
use crate::quote::compute;
use crate::quote::spec_compute;

verus! {

/// A caller-supplied swap request: direction, input amount, minimum
/// acceptable output, and an optional trailing fee-discount account.
#[derive(Clone, Copy, Debug)]
pub struct SwapRequest {
    pub side: Side,
    pub amount: u64,
    pub amount_out_min: u64,
    pub fee_discount: Option<AccountRef>,
}

/// Mathematical mirror of `swap`: the identity guard first, then the
/// quote derivation. No quote is computed for a same-asset pair.
pub open spec fn spec_swap(
    side: Side,
    amount: u64,
    amount_out_min: u64,
    from_asset: AssetId,
    to_asset: AssetId,
) -> Result<QuoteParameters, ErrorCode> {
    if from_asset == to_asset {
        Err(ErrorCode::SwapTokensCannotMatch)
    } else {
        spec_compute(side, amount, amount_out_min)
    }
}

/// Decision core of one single-market swap: rejects a same-asset pair,
/// otherwise derives the exact take-order parameters for the requested
/// direction and amounts.
pub fn swap(
    side: Side,
    amount: u64,
    amount_out_min: u64,
    from_asset: AssetId,
    to_asset: AssetId,
) -> (r: Result<QuoteParameters, ErrorCode>)
    ensures
        r == spec_swap(side, amount, amount_out_min, from_asset, to_asset),
        r is Ok ==> r->Ok_0.wf(),
{
    match is_valid_swap(from_asset, to_asset) {
        Err(e) => Err(e),
        Ok(()) => compute(side, amount, amount_out_min),
    }
}

/// Stage of one single-market swap. Success runs `Validated` to `Quoted`
/// to `Dispatched` to `Settled`; a failure at any stage falls to
/// `Rejected` with its cause, aborting the whole operation with no
/// partial effect.
#[derive(Clone, Copy, Debug, PartialEq, Eq, Structural)]
pub enum SwapState {
    /// The identity guard passed for the requested pair.
    Validated { side: Side, amount: u64, amount_out_min: u64 },
    /// Order parameters derived.
    Quoted { params: QuoteParameters },
    /// Balances bracketing the dispatch were recorded; the order is out.
    Dispatched { params: QuoteParameters, from_before: u64, to_before: u64 },
    /// Realized amounts measured; terminal success.
    Settled { result: SwapResult },
    /// Terminal failure.
    Rejected { error: ErrorCode },
}

/// The state `validate` establishes for a given request.
pub open spec fn spec_validate(
    req: SwapRequest,
    from_asset: AssetId,
    to_asset: AssetId,
) -> SwapState {
    if from_asset == to_asset {
        SwapState::Rejected { error: ErrorCode::SwapTokensCannotMatch }
    } else {
        SwapState::Validated {
            side: req.side,
            amount: req.amount,
            amount_out_min: req.amount_out_min,
        }
    }
}

/// The state `quote` reaches from a validated request.
pub open spec fn spec_quote(state: SwapState) -> SwapState {
    match state {
        SwapState::Validated { side, amount, amount_out_min } => match spec_compute(
            side,
            amount,
            amount_out_min,
        ) {
            Ok(params) => SwapState::Quoted { params },
            Err(error) => SwapState::Rejected { error },
        },
        _ => state,
    }
}

/// The state `settle` reaches from a dispatched order and the balances
/// read after it.
pub open spec fn spec_settle(state: SwapState, from_after: u64, to_after: u64) -> SwapState {
    match state {
        SwapState::Dispatched { params, from_before, to_before } => match spec_observe_deltas(
            from_before,
            from_after,
            to_before,
            to_after,
        ) {
            Ok(result) => SwapState::Settled { result },
            Err(error) => SwapState::Rejected { error },
        },
        _ => state,
    }
}

/// One single-market swap in flight.
#[derive(Clone, Copy, Debug, PartialEq, Eq, Structural)]
pub struct SingleMarketSwap {
    pub state: SwapState,
}

impl SingleMarketSwap {
    /// Every quote the machine carries is well formed.
    pub open spec fn wf(self) -> bool {
        match self.state {
            SwapState::Quoted { params } => params.wf(),
            SwapState::Dispatched { params, from_before: _, to_before: _ } => params.wf(),
            _ => true,
        }
    }

    /// Starts a swap: applies the identity guard to the asset pair before
    /// any computation.
    pub fn validate(req: &SwapRequest, from_asset: AssetId, to_asset: AssetId) -> (s: Self)
        ensures
            s.state == spec_validate(*req, from_asset, to_asset),
            s.wf(),
    {
        match is_valid_swap(from_asset, to_asset) {
            Ok(()) => SingleMarketSwap {
                state: SwapState::Validated {
                    side: req.side,
                    amount: req.amount,
                    amount_out_min: req.amount_out_min,
                },
            },
            Err(error) => SingleMarketSwap { state: SwapState::Rejected { error } },
        }
    }

    /// Derives the take-order parameters for the validated request.
    pub fn quote(self) -> (s: Self)
        requires
            self.state is Validated,
        ensures
            s.state == spec_quote(self.state),
            s.wf(),
    {
        match self.state {
            SwapState::Validated { side, amount, amount_out_min } => {
                match compute(side, amount, amount_out_min) {
                    Ok(params) => SingleMarketSwap { state: SwapState::Quoted { params } },
                    Err(error) => SingleMarketSwap { state: SwapState::Rejected { error } },
                }
            },
            _ => self,
        }
    }

    /// Records the balances of the paying and receiving accounts read just
    /// before the order is dispatched.
    pub fn record_balances(self, from_before: u64, to_before: u64) -> (s: Self)
        requires
            self.state is Quoted,
            self.wf(),
        ensures
            s.state == (SwapState::Dispatched {
                params: self.state->Quoted_params,
                from_before,
                to_before,
            }),
            s.wf(),
    {
        match self.state {
            SwapState::Quoted { params } => SingleMarketSwap {
                state: SwapState::Dispatched { params, from_before, to_before },
            },
            _ => self,
        }
    }

    /// Marks the dispatched order as refused by the venue. The failure is
    /// propagated verbatim and never retried by this layer.
    pub fn venue_rejected(self) -> (s: Self)
        requires
            self.state is Dispatched,
        ensures
            s.state == (SwapState::Rejected { error: ErrorCode::VenueRejected }),
    {
        SingleMarketSwap { state: SwapState::Rejected { error: ErrorCode::VenueRejected } }
    }

    /// Settles a dispatched order from the balances read after the venue
    /// call, measuring the realized amounts from the recorded deltas.
    pub fn settle(self, from_after: u64, to_after: u64) -> (s: Self)
        requires
            self.state is Dispatched,
        ensures
            s.state == spec_settle(self.state, from_after, to_after),
            s.wf(),
    {
        match self.state {
            SwapState::Dispatched { params: _, from_before, to_before } => {
                match observe_deltas(from_before, from_after, to_before, to_after) {
                    Ok(result) => SingleMarketSwap { state: SwapState::Settled { result } },
                    Err(error) => SingleMarketSwap { state: SwapState::Rejected { error } },
                }
            },
            _ => self,
        }
    }
}

} // verus!
