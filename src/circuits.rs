//! The matching decision, evaluated over decrypted orders inside the
//! confidential-computation context.
use vstd::prelude::*;

verus! {

/// Side code of a buy order.
pub const SIDE_BUY: u8 = 0;

/// Side code of a sell order.
pub const SIDE_SELL: u8 = 1;

/// One order, as the matching decision sees it once decrypted.
#[derive(Clone, Copy, Debug, PartialEq, Eq, Structural)]
pub struct Order {
    /// Asset identifier (the first eight bytes of the token mint).
    pub token_mint: u64,
    /// `SIDE_BUY` or `SIDE_SELL`.
    pub side: u8,
    /// Quantity in the asset's base units.
    pub amount: u64,
    /// Limit price in quote-asset base units.
    pub price: u64,
    /// Expiry timestamp in Unix seconds; not checked by the decision.
    pub expiry: u64,
    /// Trader identifier (the first eight bytes of the trader's key).
    pub trader_id: u64,
}

/// The twelve fields of a bid/ask pair, in the order they are submitted.
#[derive(Clone, Copy, Debug, PartialEq, Eq, Structural)]
pub struct MatchOrdersInput {
    pub bid_token_mint: u64,
    pub bid_side: u8,
    pub bid_amount: u64,
    pub bid_price: u64,
    pub bid_expiry: u64,
    pub bid_trader_id: u64,
    pub ask_token_mint: u64,
    pub ask_side: u8,
    pub ask_amount: u64,
    pub ask_price: u64,
    pub ask_expiry: u64,
    pub ask_trader_id: u64,
}

/// The verdict on a bid/ask pair.
#[derive(Clone, Copy, Debug, PartialEq, Eq, Structural)]
pub struct MatchResult {
    /// 1 when the orders are compatible, 0 otherwise.
    pub is_match: u8,
    /// The smaller of the two amounts, computed whatever the verdict.
    pub matched_amount: u64,
    /// The ask's price, computed whatever the verdict.
    pub agreed_price: u64,
}

/// Two small values to be summed.
#[derive(Clone, Copy, Debug, PartialEq, Eq, Structural)]
pub struct InputValues {
    pub v1: u8,
    pub v2: u8,
}

/// The orders are compatible: same asset, a buy against a sell, and the bid
/// reaches the ask's price. Expiry plays no part.
pub open spec fn compatible(bid: Order, ask: Order) -> bool {
    &&& bid.token_mint == ask.token_mint
    &&& bid.side == SIDE_BUY
    &&& ask.side == SIDE_SELL
    &&& bid.price >= ask.price
}

/// The verdict that `evaluate` must produce.
pub open spec fn spec_evaluate(bid: Order, ask: Order) -> MatchResult {
    MatchResult {
        is_match: if compatible(bid, ask) { 1 } else { 0 },
        matched_amount: if bid.amount <= ask.amount { bid.amount } else { ask.amount },
        agreed_price: ask.price,
    }
}

/// The bid half of a submitted pair.
pub open spec fn bid_of(input: MatchOrdersInput) -> Order {
    Order {
        token_mint: input.bid_token_mint,
        side: input.bid_side,
        amount: input.bid_amount,
        price: input.bid_price,
        expiry: input.bid_expiry,
        trader_id: input.bid_trader_id,
    }
}

/// The ask half of a submitted pair.
pub open spec fn ask_of(input: MatchOrdersInput) -> Order {
    Order {
        token_mint: input.ask_token_mint,
        side: input.ask_side,
        amount: input.ask_amount,
        price: input.ask_price,
        expiry: input.ask_expiry,
        trader_id: input.ask_trader_id,
    }
}

/// Decides whether `bid` and `ask` match; the matched amount is the smaller
/// amount and the ask always sets the price, whatever the verdict.
pub fn evaluate(bid: Order, ask: Order) -> (r: MatchResult)
    ensures
        r == spec_evaluate(bid, ask),
        (r.is_match == 1) == compatible(bid, ask),
        r.is_match == 0 || r.is_match == 1,
        r.matched_amount <= bid.amount && r.matched_amount <= ask.amount,
        r.matched_amount == bid.amount || r.matched_amount == ask.amount,
        r.agreed_price == ask.price,
{
    let same_token = bid.token_mint == ask.token_mint;
    let opposite_sides = bid.side == SIDE_BUY && ask.side == SIDE_SELL;
    let price_compatible = bid.price >= ask.price;
    let is_match: u8 = if same_token && opposite_sides && price_compatible {
        1
    } else {
        0
    };
    let matched_amount = if bid.amount < ask.amount {
        bid.amount
    } else {
        ask.amount
    };
    MatchResult { is_match, matched_amount, agreed_price: ask.price }
}

/// Splits a submitted pair into its two orders and evaluates them.
pub fn match_orders(input: MatchOrdersInput) -> (r: MatchResult)
    ensures
        r == spec_evaluate(bid_of(input), ask_of(input)),
{
    let bid = Order {
        token_mint: input.bid_token_mint,
        side: input.bid_side,
        amount: input.bid_amount,
        price: input.bid_price,
        expiry: input.bid_expiry,
        trader_id: input.bid_trader_id,
    };
    let ask = Order {
        token_mint: input.ask_token_mint,
        side: input.ask_side,
        amount: input.ask_amount,
        price: input.ask_price,
        expiry: input.ask_expiry,
        trader_id: input.ask_trader_id,
    };
    evaluate(bid, ask)
}

/// Sums two bytes without overflow.
pub fn add_together(input: InputValues) -> (r: u16)
    ensures
        r == input.v1 + input.v2,
{
    input.v1 as u16 + input.v2 as u16
}

} // verus!
