//! Instantly settled token swaps against a resting order book.
//!
//! The library derives overflow-checked take-order parameters (limit price
//! and quantity bounds) from a caller's input amount and minimum acceptable
//! output, guards against swaps between identical assets, measures realized
//! amounts from balance deltas, and composes two such orders into one
//! transitive swap across a shared intermediate asset. The venue call itself
//! and all account plumbing stay outside the library: callers hand in plain
//! balances and asset identifiers and receive fully resolved order payloads.

use vstd::prelude::*;

pub mod accessor;
pub mod accounts;
pub mod dispatch;
pub mod guard;
pub mod observer;
pub mod quote;
pub mod single;
pub mod transitive;

verus! {

/// Direction of a swap on an A/B market: `Bid` spends the quote asset B to
/// acquire the base asset A; `Ask` spends the base asset A to acquire B.
#[derive(Clone, Copy, Debug, PartialEq, Eq, Structural)]
pub enum Side {
    Bid,
    Ask,
}

/// Everything that can go wrong while deriving or settling a swap.
#[derive(Clone, Copy, Debug, PartialEq, Eq, Structural)]
pub enum ErrorCode {
    /// The two sides of the swap resolve to the same underlying asset.
    SwapTokensCannotMatch,
    /// The implied limit price floors to zero.
    InvalidLimitPrice,
    /// A quantity derivation exceeds the representable range.
    Overflow,
    /// A balance moved against the direction the swap guarantees.
    BalanceUnderflow,
    /// The external venue refused the order.
    VenueRejected,
}

/// Opaque reference to an externally owned ledger or venue account: its
/// 32-byte address, read as four little-endian words. The library only
/// forwards such references; it never dereferences them.
#[derive(Clone, Copy, Debug, PartialEq, Eq, Structural)]
pub struct AccountRef {
    pub w0: u64,
    pub w1: u64,
    pub w2: u64,
    pub w3: u64,
}

} // verus!
