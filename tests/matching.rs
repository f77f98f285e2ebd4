use otc_settlement::arcium_matching::{
    self, AddTogetherOutput, Argument, ComputationOutputs, ErrorCode, MatchOrdersOutput,
};
use otc_settlement::circuits::{
    self, evaluate, InputValues, MatchOrdersInput, Order, SIDE_BUY, SIDE_SELL,
};

const ASSET_A: u64 = 0xA;
const ASSET_B: u64 = 0xB;

fn order(token_mint: u64, side: u8, amount: u64, price: u64) -> Order {
    Order { token_mint, side, amount, price, expiry: 1_700_000_000, trader_id: 7 }
}

#[test]
fn compatible_pair_matches_at_ask_price() {
    let bid = order(ASSET_A, SIDE_BUY, 100, 50);
    let ask = order(ASSET_A, SIDE_SELL, 80, 45);
    let r = evaluate(bid, ask);
    assert_eq!(r.is_match, 1);
    assert_eq!(r.matched_amount, 80);
    assert_eq!(r.agreed_price, 45);
}

#[test]
fn asset_mismatch_still_computes_amount_and_price() {
    let bid = order(ASSET_A, SIDE_BUY, 100, 50);
    let ask = order(ASSET_B, SIDE_SELL, 80, 45);
    let r = evaluate(bid, ask);
    assert_eq!(r.is_match, 0);
    assert_eq!(r.matched_amount, 80);
    assert_eq!(r.agreed_price, 45);
}

#[test]
fn same_sides_do_not_match() {
    let r = evaluate(order(ASSET_A, SIDE_BUY, 10, 50), order(ASSET_A, SIDE_BUY, 20, 45));
    assert_eq!(r.is_match, 0);
    let r = evaluate(order(ASSET_A, SIDE_SELL, 10, 50), order(ASSET_A, SIDE_BUY, 20, 45));
    assert_eq!(r.is_match, 0);
    assert_eq!(r.matched_amount, 10);
}

#[test]
fn bid_below_ask_does_not_match() {
    let r = evaluate(order(ASSET_A, SIDE_BUY, 10, 44), order(ASSET_A, SIDE_SELL, 10, 45));
    assert_eq!(r.is_match, 0);
    assert_eq!(r.agreed_price, 45);
}

#[test]
fn equal_prices_match() {
    let r = evaluate(order(ASSET_A, SIDE_BUY, 10, 45), order(ASSET_A, SIDE_SELL, 10, 45));
    assert_eq!(r.is_match, 1);
    assert_eq!(r.matched_amount, 10);
}

#[test]
fn expired_orders_are_not_rejected_by_the_decision() {
    let mut bid = order(ASSET_A, SIDE_BUY, 100, 50);
    let mut ask = order(ASSET_A, SIDE_SELL, 80, 45);
    bid.expiry = 0;
    ask.expiry = 0;
    assert_eq!(evaluate(bid, ask).is_match, 1);
}

#[test]
fn match_orders_reads_bid_and_ask_fields() {
    let input = MatchOrdersInput {
        bid_token_mint: ASSET_A,
        bid_side: SIDE_BUY,
        bid_amount: 30,
        bid_price: 50,
        bid_expiry: 1,
        bid_trader_id: 2,
        ask_token_mint: ASSET_A,
        ask_side: SIDE_SELL,
        ask_amount: 80,
        ask_price: 45,
        ask_expiry: 3,
        ask_trader_id: 4,
    };
    let r = circuits::match_orders(input);
    assert_eq!(r.is_match, 1);
    assert_eq!(r.matched_amount, 30);
    assert_eq!(r.agreed_price, 45);
}

#[test]
fn add_together_sums_without_overflow() {
    assert_eq!(circuits::add_together(InputValues { v1: 255, v2: 255 }), 510);
    assert_eq!(circuits::add_together(InputValues { v1: 3, v2: 4 }), 7);
}

fn ct(tag: u8) -> [u8; 32] {
    [tag; 32]
}

#[test]
fn match_request_orders_its_arguments() {
    let req = arcium_matching::match_orders(
        9,
        ct(1),
        ct(2),
        ct(3),
        ct(4),
        ct(5),
        ct(6),
        ct(11),
        ct(12),
        ct(13),
        ct(14),
        ct(15),
        ct(16),
        ct(99),
        42,
    );
    assert_eq!(req.computation_offset, 9);
    assert_eq!(
        req.args,
        vec![
            Argument::ArcisPubkey(ct(99)),
            Argument::PlaintextU128(42),
            Argument::EncryptedU64(ct(1)),
            Argument::EncryptedU8(ct(2)),
            Argument::EncryptedU64(ct(3)),
            Argument::EncryptedU64(ct(4)),
            Argument::EncryptedU64(ct(5)),
            Argument::EncryptedU64(ct(6)),
            Argument::EncryptedU64(ct(11)),
            Argument::EncryptedU8(ct(12)),
            Argument::EncryptedU64(ct(13)),
            Argument::EncryptedU64(ct(14)),
            Argument::EncryptedU64(ct(15)),
            Argument::EncryptedU64(ct(16)),
        ]
    );
}

#[test]
fn add_together_request_orders_its_arguments() {
    let req = arcium_matching::add_together(5, ct(1), ct(2), ct(3), 77);
    assert_eq!(req.computation_offset, 5);
    assert_eq!(
        req.args,
        vec![
            Argument::ArcisPubkey(ct(3)),
            Argument::PlaintextU128(77),
            Argument::EncryptedU8(ct(1)),
            Argument::EncryptedU8(ct(2)),
        ]
    );
}

#[test]
fn match_callback_publishes_ciphertexts_and_nonce() {
    let nonce: u128 = 0x0102_0304_0506_0708_090a_0b0c_0d0e_0f10;
    let out = MatchOrdersOutput {
        is_match: ct(1),
        matched_amount: ct(2),
        agreed_price: ct(3),
        nonce,
    };
    let ev = arcium_matching::match_orders_callback(ComputationOutputs::Success(out)).unwrap();
    assert_eq!(ev.is_match, ct(1));
    assert_eq!(ev.matched_amount, ct(2));
    assert_eq!(ev.agreed_price, ct(3));
    assert_eq!(ev.nonce, nonce.to_le_bytes());
    assert_eq!(ev.nonce[0], 0x10);
    assert_eq!(ev.nonce[15], 0x01);
}

#[test]
fn aborted_match_is_an_error() {
    let r = arcium_matching::match_orders_callback(ComputationOutputs::Aborted);
    assert_eq!(r, Err(ErrorCode::AbortedComputation));
}

#[test]
fn sum_callback_publishes_ciphertext_and_nonce() {
    let ev = arcium_matching::add_together_callback(ComputationOutputs::Success(
        AddTogetherOutput { sum: ct(8), nonce: u128::MAX - 1 },
    ))
    .unwrap();
    assert_eq!(ev.sum, ct(8));
    assert_eq!(ev.nonce, (u128::MAX - 1).to_le_bytes());
    let r = arcium_matching::add_together_callback(ComputationOutputs::Aborted);
    assert_eq!(r, Err(ErrorCode::AbortedComputation));
}

#[test]
fn nonce_bytes_are_little_endian() {
    assert_eq!(arcium_matching::nonce_bytes(0), [0u8; 16]);
    assert_eq!(arcium_matching::nonce_bytes(258)[..3], [2u8, 1, 0]);
}
