//! VenueOrderDispatcher: turns resolved quote parameters into the exact
//! take-order request the external venue consumes. The venue call itself
//! (and the atomic settlement it performs) happens outside the library;
//! this module produces the ordered account set and the encoded payload.

use vstd::prelude::*;

use serum_dex::instruction::MarketInstruction;
use serum_dex::instruction::SendTakeInstruction;
use std::num::NonZeroU64;

use crate::AccountRef;
use crate::Side;
use crate::accounts::OrderbookClient;
use crate::quote::QuoteParameters;

verus! {

/// Upper bound on the matching cycles the venue may spend on one take
/// order. Fixed at the maximum representable value so the order fills as
/// much as is immediately matchable and never rests on the book.
pub const MAX_MATCH_ITERATIONS: u16 = 65535;

/// The bytes the venue's instruction encoding produces for a take order
/// with the given fields. The encoding is deterministic: it depends on the
/// fields alone.
pub uninterp spec fn send_take_data_of(
    bid: bool,
    limit_price: u64,
    max_base_qty: u64,
    max_quote_qty_incl_fees: u64,
    min_base_qty: u64,
    min_native_quote_qty: u64,
    limit: u16,
) -> Seq<u8>;

/// Relies on serum_dex's `MarketInstruction::pack` for the `SendTake`
/// variant: a pure serialization of the order fields, so its result is a
/// function of them alone. The venue requires the limit price and both
/// maximum quantities to be non-zero.
#[verifier::external_body]
fn pack_send_take(
    side: Side,
    limit_price: u64,
    max_base_qty: u64,
    max_quote_qty_incl_fees: u64,
    min_base_qty: u64,
    min_native_quote_qty: u64,
    limit: u16,
) -> (r: Vec<u8>)
    requires
        limit_price > 0,
        max_base_qty > 0,
        max_quote_qty_incl_fees > 0,
    ensures
        r@ == send_take_data_of(
            side == Side::Bid,
            limit_price,
            max_base_qty,
            max_quote_qty_incl_fees,
            min_base_qty,
            min_native_quote_qty,
            limit,
        ),
{
    MarketInstruction::SendTake(SendTakeInstruction {
        side: match side {
            Side::Bid => serum_dex::matching::Side::Bid,
            Side::Ask => serum_dex::matching::Side::Ask,
        },
        limit_price: NonZeroU64::new(limit_price).unwrap(),
        max_coin_qty: NonZeroU64::new(max_base_qty).unwrap(),
        max_native_pc_qty_including_fees: NonZeroU64::new(max_quote_qty_incl_fees).unwrap(),
        min_coin_qty: min_base_qty,
        min_native_pc_qty: min_native_quote_qty,
        limit,
    }).pack()
}

/// The accounts a take order hands to the venue, in the order the venue
/// expects them.
#[derive(Clone, Copy, Debug, PartialEq, Eq, Structural)]
pub struct SendTake {
    pub market: AccountRef,
    pub request_queue: AccountRef,
    pub event_queue: AccountRef,
    pub market_bids: AccountRef,
    pub market_asks: AccountRef,
    pub coin_wallet: AccountRef,
    pub pc_wallet: AccountRef,
    pub wallet_owner: AccountRef,
    pub coin_vault: AccountRef,
    pub pc_vault: AccountRef,
    pub token_program: AccountRef,
    pub vault_signer: AccountRef,
}

/// A fully resolved take-order request, ready to be submitted to the
/// venue program: the program, its ordered accounts, an optional trailing
/// fee-discount account, and the encoded order payload.
pub struct TakeOrderRequest {
    pub program: AccountRef,
    pub accounts: SendTake,
    pub fee_discount: Option<AccountRef>,
    pub data: Vec<u8>,
}

/// Builds the take-order request for one venue call from resolved quote
/// parameters, forwarding the optional fee-discount reference. The venue
/// takes the limit price and both maximum quantities as non-zero values,
/// so callers must hand in a quote whose bounds are positive.
pub fn send_take(
    program: AccountRef,
    accounts: SendTake,
    side: Side,
    params: &QuoteParameters,
    fee_discount: Option<AccountRef>,
) -> (r: TakeOrderRequest)
    requires
        params.wf(),
        params.max_base_qty > 0,
        params.max_quote_qty_incl_fees > 0,
    ensures
        r.program == program,
        r.accounts == accounts,
        r.fee_discount == fee_discount,
        r.data@ == send_take_data_of(
            side == Side::Bid,
            params.limit_price,
            params.max_base_qty,
            params.max_quote_qty_incl_fees,
            params.min_base_qty,
            params.min_native_quote_qty,
            MAX_MATCH_ITERATIONS,
        ),
{
    let data = pack_send_take(
        side,
        params.limit_price,
        params.max_base_qty,
        params.max_quote_qty_incl_fees,
        params.min_base_qty,
        params.min_native_quote_qty,
        MAX_MATCH_ITERATIONS,
    );
    TakeOrderRequest { program, accounts, fee_discount, data }
}

impl OrderbookClient {
    /// Regroups this client's accounts into the venue's expected order and
    /// builds the take-order request for one immediate order.
    pub fn send_take_cpi(
        &self,
        side: Side,
        params: &QuoteParameters,
        fee_discount: Option<AccountRef>,
    ) -> (r: TakeOrderRequest)
        requires
            params.wf(),
            params.max_base_qty > 0,
            params.max_quote_qty_incl_fees > 0,
        ensures
            r.program == self.dex_program,
            r.accounts == (SendTake {
                market: self.market.market,
                request_queue: self.market.request_queue,
                event_queue: self.market.event_queue,
                market_bids: self.market.market_bids,
                market_asks: self.market.market_asks,
                coin_wallet: self.market.coin_wallet,
                pc_wallet: self.pc_wallet,
                wallet_owner: self.wallet_owner,
                coin_vault: self.market.coin_vault,
                pc_vault: self.market.pc_vault,
                token_program: self.token_program,
                vault_signer: self.market.vault_signer,
            }),
            r.fee_discount == fee_discount,
            r.data@ == send_take_data_of(
                side == Side::Bid,
                params.limit_price,
                params.max_base_qty,
                params.max_quote_qty_incl_fees,
                params.min_base_qty,
                params.min_native_quote_qty,
                MAX_MATCH_ITERATIONS,
            ),
    {
        let accounts = SendTake {
            market: self.market.market,
            request_queue: self.market.request_queue,
            event_queue: self.market.event_queue,
            market_bids: self.market.market_bids,
            market_asks: self.market.market_asks,
            coin_wallet: self.market.coin_wallet,
            pc_wallet: self.pc_wallet,
            wallet_owner: self.wallet_owner,
            coin_vault: self.market.coin_vault,
            pc_vault: self.market.pc_vault,
            token_program: self.token_program,
            vault_signer: self.market.vault_signer,
        };
        send_take(self.dex_program, accounts, side, params, fee_discount)
    }
}

} // verus!
