use swap_v2::AccountRef;
use swap_v2::ErrorCode;
use swap_v2::Side;
use swap_v2::accessor::token_amount;
use swap_v2::accessor::token_mint;
use swap_v2::accounts::MarketAccounts;
use swap_v2::accounts::Swap;
use swap_v2::dispatch::MAX_MATCH_ITERATIONS;
use swap_v2::dispatch::SendTake;
use swap_v2::dispatch::send_take;
use swap_v2::guard::AssetId;
use swap_v2::observer::SwapResult;
use swap_v2::quote::compute;
use swap_v2::single::SingleMarketSwap;
use swap_v2::single::SwapRequest;
use swap_v2::single::SwapState;
use swap_v2::single::swap;
use swap_v2::transitive::TransitiveMarketSwap;
use swap_v2::transitive::TransitiveState;
use swap_v2::transitive::TransitiveSwapRequest;
use swap_v2::transitive::leg1_min_output;
use swap_v2::transitive::swap_transitive;
use swap_v2::transitive::swap_transitive_leg2;

fn asset(tag: u64) -> AssetId {
    AssetId { w0: tag, w1: tag, w2: tag, w3: tag }
}

fn account(tag: u64) -> AccountRef {
    AccountRef { w0: tag, w1: 0, w2: 0, w3: 0 }
}

fn market(tag: u64) -> MarketAccounts {
    MarketAccounts {
        market: account(tag),
        request_queue: account(tag + 1),
        event_queue: account(tag + 2),
        market_bids: account(tag + 3),
        market_asks: account(tag + 4),
        coin_vault: account(tag + 5),
        pc_vault: account(tag + 6),
        vault_signer: account(tag + 7),
        coin_wallet: account(tag + 8),
    }
}

#[test]
fn same_asset_swap_is_rejected_before_any_quote() {
    assert_eq!(
        swap(Side::Bid, 1000, 2000, asset(1), asset(1)),
        Err(ErrorCode::SwapTokensCannotMatch)
    );
}

#[test]
fn swap_derives_quote_for_distinct_assets() {
    let q = swap(Side::Bid, 1000, 2000, asset(1), asset(2)).unwrap();
    assert_eq!(q.limit_price, 2);
    assert_eq!(q.max_base_qty, 500);
}

#[test]
fn machine_settles_with_realized_deltas() {
    let s = SingleMarketSwap::validate(
        &SwapRequest { side: Side::Bid, amount: 1000, amount_out_min: 2000, fee_discount: None },
        asset(1),
        asset(2),
    );
    assert!(matches!(s.state, SwapState::Validated { .. }));
    let s = s.quote();
    assert!(matches!(s.state, SwapState::Quoted { .. }));
    let s = s.record_balances(5000, 300);
    let s = s.settle(4000, 2400);
    assert_eq!(
        s.state,
        SwapState::Settled {
            result: SwapResult { amount_in_consumed: 1000, amount_out_received: 2100 },
        }
    );
}

#[test]
fn machine_rejects_backwards_balance() {
    let s = SingleMarketSwap::validate(
        &SwapRequest { side: Side::Bid, amount: 1000, amount_out_min: 2000, fee_discount: None },
        asset(1),
        asset(2),
    );
    let s = s.quote();
    let s = s.record_balances(5000, 300);
    let s = s.settle(4000, 250);
    assert_eq!(s.state, SwapState::Rejected { error: ErrorCode::BalanceUnderflow });
}

#[test]
fn machine_propagates_venue_rejection() {
    let s = SingleMarketSwap::validate(
        &SwapRequest { side: Side::Bid, amount: 1000, amount_out_min: 2000, fee_discount: None },
        asset(1),
        asset(2),
    );
    let s = s.quote();
    let s = s.record_balances(5000, 300);
    let s = s.venue_rejected();
    assert_eq!(s.state, SwapState::Rejected { error: ErrorCode::VenueRejected });
}

#[test]
fn machine_rejects_same_asset_pair_at_start() {
    let s = SingleMarketSwap::validate(
        &SwapRequest { side: Side::Bid, amount: 1000, amount_out_min: 2000, fee_discount: None },
        asset(1),
        asset(1),
    );
    assert_eq!(s.state, SwapState::Rejected { error: ErrorCode::SwapTokensCannotMatch });
}

#[test]
fn leg1_minimum_is_worst_case_product() {
    assert_eq!(leg1_min_output(100, 3), Ok(300));
    assert_eq!(leg1_min_output(u64::MAX, 2), Err(ErrorCode::Overflow));
}

#[test]
fn transitive_guard_compares_outer_assets() {
    let req = TransitiveSwapRequest { amount: 1000, minimum_final_output: 10 };
    assert_eq!(
        swap_transitive(&req, 1, asset(1), asset(1)),
        Err(ErrorCode::SwapTokensCannotMatch)
    );
}

#[test]
fn transitive_leg1_is_an_ask_under_the_derived_minimum() {
    let req = TransitiveSwapRequest { amount: 1000, minimum_final_output: 10 };
    // leg-1 minimum = 10 * 2 = 20, so the ask quote prices 1000 / 20 = 50.
    let q = swap_transitive(&req, 2, asset(1), asset(2)).unwrap();
    assert_eq!(q, compute(Side::Ask, 1000, 20).unwrap());
    assert_eq!(q.limit_price, 50);
}

#[test]
fn leg2_spends_exactly_the_realized_intermediate_output() {
    // Leg 1 realized 100 intermediate units (700 -> 800): leg 2's input is
    // exactly 100, not any amount estimated before leg 1 settled.
    let q = swap_transitive_leg2(700, 800, 200).unwrap();
    assert_eq!(q.max_quote_qty_incl_fees, 100);
    assert_eq!(q, compute(Side::Bid, 100, 200).unwrap());
}

#[test]
fn leg2_rejects_a_shrinking_intermediate_balance() {
    assert_eq!(swap_transitive_leg2(800, 700, 200), Err(ErrorCode::BalanceUnderflow));
}

#[test]
fn token_fields_read_little_endian() {
    let mut data = vec![0u8; 165];
    data[0] = 0xEF; // mint word 0
    data[8] = 0xCD; // mint word 1
    data[31] = 0xAB; // high byte of mint word 3
    data[64] = 0x01; // amount low byte
    data[65] = 0x02;
    assert_eq!(
        token_mint(&data),
        AssetId { w0: 0xEF, w1: 0xCD, w2: 0, w3: 0xABu64 << 56 }
    );
    assert_eq!(token_amount(&data), 0x0201);
}

#[test]
fn take_order_payload_is_the_exact_encoding() {
    let q = compute(Side::Bid, 1000, 2000).unwrap();
    let accounts = SendTake {
        market: account(1),
        request_queue: account(2),
        event_queue: account(3),
        market_bids: account(4),
        market_asks: account(5),
        coin_wallet: account(6),
        pc_wallet: account(7),
        wallet_owner: account(8),
        coin_vault: account(9),
        pc_vault: account(10),
        token_program: account(11),
        vault_signer: account(12),
    };
    let r = send_take(account(99), accounts, Side::Bid, &q, Some(account(13)));
    assert_eq!(r.program, account(99));
    assert_eq!(r.accounts, accounts);
    assert_eq!(r.fee_discount, Some(account(13)));

    // Version byte, then the venue's take-order variant, then the order
    // fields, all little-endian.
    let mut expected = vec![0u8];
    expected.extend_from_slice(&13u32.to_le_bytes()); // SendTake variant
    expected.extend_from_slice(&0u32.to_le_bytes()); // side: bid
    expected.extend_from_slice(&q.limit_price.to_le_bytes());
    expected.extend_from_slice(&q.max_base_qty.to_le_bytes());
    expected.extend_from_slice(&q.max_quote_qty_incl_fees.to_le_bytes());
    expected.extend_from_slice(&q.min_base_qty.to_le_bytes());
    expected.extend_from_slice(&q.min_native_quote_qty.to_le_bytes());
    expected.extend_from_slice(&MAX_MATCH_ITERATIONS.to_le_bytes());
    assert_eq!(r.data, expected);
}

#[test]
fn orderbook_client_regroups_the_swap_accounts() {
    let s = Swap {
        market: market(20),
        wallet_owner: account(40),
        pc_wallet: account(41),
        dex_program: account(42),
        token_program: account(43),
    };
    let q = compute(Side::Ask, 1000, 10).unwrap();
    let r = s.orderbook().send_take_cpi(Side::Ask, &q, None);
    assert_eq!(r.program, account(42));
    assert_eq!(r.accounts.market, account(20));
    assert_eq!(r.accounts.pc_wallet, account(41));
    assert_eq!(r.accounts.wallet_owner, account(40));
    assert_eq!(r.accounts.vault_signer, account(27));
    assert_eq!(r.fee_discount, None);
}

#[test]
fn transitive_machine_pipes_realized_output_into_leg2() {
    let req = TransitiveSwapRequest { amount: 1000, minimum_final_output: 200 };
    let s = TransitiveMarketSwap::start(&req, 2, asset(1), asset(2));
    assert!(matches!(s.state, TransitiveState::Leg1Quoted { .. }));

    // Leg 1 sells 1000 input units; the intermediate balance grows by a
    // realized 100 units (300 -> 400), not by any up-front estimate.
    let s = s.record_leg1_balances(1000, 300);
    let s = s.settle_leg1(0, 400);
    match s.state {
        TransitiveState::Leg2Quoted { leg2, amount_in_consumed } => {
            assert_eq!(amount_in_consumed, 1000);
            assert_eq!(leg2, compute(Side::Bid, 100, 200).unwrap());
            assert_eq!(leg2.max_quote_qty_incl_fees, 100);
        }
        other => panic!("unexpected state {:?}", other),
    }

    // Leg 2 delivers 205 final units (5 -> 210).
    let s = s.record_leg2_balance(5);
    let s = s.settle_leg2(210);
    assert_eq!(
        s.state,
        TransitiveState::Settled {
            result: SwapResult { amount_in_consumed: 1000, amount_out_received: 205 },
        }
    );
}

#[test]
fn transitive_machine_rejects_when_leg2_cannot_be_quoted() {
    let req = TransitiveSwapRequest { amount: 1000, minimum_final_output: 200 };
    let s = TransitiveMarketSwap::start(&req, 2, asset(1), asset(2));
    let s = s.record_leg1_balances(1000, 300);
    // The intermediate balance shrank: ledger inconsistency.
    let s = s.settle_leg1(0, 200);
    assert_eq!(s.state, TransitiveState::Rejected { error: ErrorCode::BalanceUnderflow });
}

#[test]
fn transitive_machine_fails_as_a_unit_on_venue_rejection() {
    let req = TransitiveSwapRequest { amount: 1000, minimum_final_output: 200 };
    let s = TransitiveMarketSwap::start(&req, 2, asset(1), asset(2));
    let s = s.record_leg1_balances(1000, 300);
    let s = s.venue_rejected();
    assert_eq!(s.state, TransitiveState::Rejected { error: ErrorCode::VenueRejected });
}
