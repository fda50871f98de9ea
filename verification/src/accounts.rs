//! Account bundles the swap flow forwards to the venue. All of them are
//! opaque references owned externally; the library never dereferences
//! them, it only regroups them into the shape each call expects.

use vstd::prelude::*;

use crate::AccountRef;

verus! {

/// One venue's order-book state and the user's base-asset account: the
/// accounts used to place orders against the venue, minus the common
/// program and signer accounts.
#[derive(Clone, Copy, Debug, PartialEq, Eq, Structural)]
pub struct MarketAccounts {
    /// The market itself.
    pub market: AccountRef,
    /// The venue's request queue.
    pub request_queue: AccountRef,
    /// The venue's event queue.
    pub event_queue: AccountRef,
    /// The resting bids book.
    pub market_bids: AccountRef,
    /// The resting asks book.
    pub market_asks: AccountRef,
    /// Settlement vault for the base asset.
    pub coin_vault: AccountRef,
    /// Settlement vault for the quote asset.
    pub pc_vault: AccountRef,
    /// Owner of the venue's settlement vaults.
    pub vault_signer: AccountRef,
    /// The user's token account for the base asset.
    pub coin_wallet: AccountRef,
}

/// The account set of a single-market swap.
#[derive(Clone, Copy, Debug, PartialEq, Eq, Structural)]
pub struct Swap {
    /// The single A/B market to swap on.
    pub market: MarketAccounts,
    /// The swap user.
    pub wallet_owner: AccountRef,
    /// The user's token account for the quote asset.
    pub pc_wallet: AccountRef,
    /// The venue program.
    pub dex_program: AccountRef,
    /// The token program.
    pub token_program: AccountRef,
}

/// The account set of a transitive swap: two markets sharing one
/// intermediate quote asset.
#[derive(Clone, Copy, Debug, PartialEq, Eq, Structural)]
pub struct SwapTransitive {
    /// The first A/B market, sold into with an ask.
    pub from: MarketAccounts,
    /// The second C/B market, bought from with a bid.
    pub to: MarketAccounts,
    /// The swap user.
    pub wallet_owner: AccountRef,
    /// The user's token account for the shared quote asset.
    pub pc_wallet: AccountRef,
    /// The venue program.
    pub dex_program: AccountRef,
    /// The token program.
    pub token_program: AccountRef,
}

/// Client for sending take orders to one venue market.
#[derive(Clone, Copy, Debug, PartialEq, Eq, Structural)]
pub struct OrderbookClient {
    pub market: MarketAccounts,
    pub wallet_owner: AccountRef,
    pub pc_wallet: AccountRef,
    pub dex_program: AccountRef,
    pub token_program: AccountRef,
}

impl Swap {
    /// The order-book client of this swap's single market.
    pub fn orderbook(&self) -> (r: OrderbookClient)
        ensures
            r == (OrderbookClient {
                market: self.market,
                wallet_owner: self.wallet_owner,
                pc_wallet: self.pc_wallet,
                dex_program: self.dex_program,
                token_program: self.token_program,
            }),
    {
        OrderbookClient {
            market: self.market,
            wallet_owner: self.wallet_owner,
            pc_wallet: self.pc_wallet,
            dex_program: self.dex_program,
            token_program: self.token_program,
        }
    }
}

impl SwapTransitive {
    /// The order-book client of the market sold into by leg 1.
    pub fn orderbook_from(&self) -> (r: OrderbookClient)
        ensures
            r == (OrderbookClient {
                market: self.from,
                wallet_owner: self.wallet_owner,
                pc_wallet: self.pc_wallet,
                dex_program: self.dex_program,
                token_program: self.token_program,
            }),
    {
        OrderbookClient {
            market: self.from,
            wallet_owner: self.wallet_owner,
            pc_wallet: self.pc_wallet,
            dex_program: self.dex_program,
            token_program: self.token_program,
        }
    }

    /// The order-book client of the market bought from by leg 2.
    pub fn orderbook_to(&self) -> (r: OrderbookClient)
        ensures
            r == (OrderbookClient {
                market: self.to,
                wallet_owner: self.wallet_owner,
                pc_wallet: self.pc_wallet,
                dex_program: self.dex_program,
                token_program: self.token_program,
            }),
    {
        OrderbookClient {
            market: self.to,
            wallet_owner: self.wallet_owner,
            pc_wallet: self.pc_wallet,
            dex_program: self.dex_program,
            token_program: self.token_program,
        }
    }
}

} // verus!
