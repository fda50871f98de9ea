//! BalanceDeltaObserver: turns the balances read before and after one
//! dispatched order into the realized swap amounts. The venue reports no
//! fill quantity, so these deltas are the only trustworthy measurement.

use vstd::prelude::*;

use crate::ErrorCode;

verus! {

/// Realized amounts of one settled swap, measured from balance deltas and
/// never trusted from the venue's return value.
#[derive(Clone, Copy, Debug, PartialEq, Eq, Structural)]
pub struct SwapResult {
    /// How much the paying account actually spent.
    pub amount_in_consumed: u64,
    /// How much the receiving account actually gained.
    pub amount_out_received: u64,
}

/// Mathematical mirror of `observe_deltas`: the paying balance must not
/// grow and the receiving balance must not shrink; any other movement is a
/// ledger inconsistency reported as `BalanceUnderflow`.
pub open spec fn spec_observe_deltas(
    from_before: u64,
    from_after: u64,
    to_before: u64,
    to_after: u64,
) -> Result<SwapResult, ErrorCode> {
    if from_after > from_before || to_after < to_before {
        Err(ErrorCode::BalanceUnderflow)
    } else {
        Ok(
            SwapResult {
                amount_in_consumed: (from_before - from_after) as u64,
                amount_out_received: (to_after - to_before) as u64,
            },
        )
    }
}

/// Computes the realized amounts of one swap from the balances of the
/// paying and receiving accounts, bracketing the dispatch. Both
/// subtractions are checked: a balance that moved the wrong way fails with
/// `BalanceUnderflow` rather than wrapping into a bogus amount.
pub fn observe_deltas(from_before: u64, from_after: u64, to_before: u64, to_after: u64) -> (r:
    Result<SwapResult, ErrorCode>)
    ensures
        r == spec_observe_deltas(from_before, from_after, to_before, to_after),
{
    match (from_before.checked_sub(from_after), to_after.checked_sub(to_before)) {
        (Some(amount_in_consumed), Some(amount_out_received)) => Ok(
            SwapResult { amount_in_consumed, amount_out_received },
        ),
        _ => Err(ErrorCode::BalanceUnderflow),
    }
}

/// A receiving balance that shrank, or a paying balance that grew, is
/// always reported as `BalanceUnderflow` — never as a negative realized
/// amount — and a success always carries the exact deltas.
pub proof fn lemma_underflow_rejected(
    from_before: u64,
    from_after: u64,
    to_before: u64,
    to_after: u64,
)
    ensures
        to_after < to_before || from_after > from_before <==> spec_observe_deltas(
            from_before,
            from_after,
            to_before,
            to_after,
        ) == Err::<SwapResult, ErrorCode>(ErrorCode::BalanceUnderflow),
        spec_observe_deltas(from_before, from_after, to_before, to_after) is Ok ==> {
            let res = spec_observe_deltas(from_before, from_after, to_before, to_after)->Ok_0;
            res.amount_in_consumed == from_before - from_after && res.amount_out_received
                == to_after - to_before
        },
{
}

} // verus!
