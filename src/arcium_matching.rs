//! Order submission: encrypted order pairs become computation requests, and
//! computation callbacks become published match events.
//!
//! The confidential-computation service itself is outside this library: a
//! request built here is queued by the caller, and the outcome the service
//! delivers is handed back to the callback functions here.
use vstd::prelude::*;

verus! {

/// Why a submission or a callback failed.
#[derive(Clone, Copy, Debug, PartialEq, Eq, Structural)]
pub enum ErrorCode {
    /// The computation was aborted: no result exists.
    AbortedComputation,
    /// No computation cluster is configured.
    ClusterNotSet,
}

/// One argument of a computation request.
#[derive(Clone, Copy, Debug, PartialEq, Eq)]
pub enum Argument {
    /// The public key under which the result is re-encrypted.
    ArcisPubkey([u8; 32]),
    /// A value passed in the clear.
    PlaintextU128(u128),
    /// A ciphertext of a one-byte value.
    EncryptedU8([u8; 32]),
    /// A ciphertext of an eight-byte value.
    EncryptedU64([u8; 32]),
}

/// A request to evaluate a registered function over encrypted arguments.
#[derive(Clone, Debug)]
pub struct ComputationRequest {
    /// The caller-chosen identifier of the request.
    pub computation_offset: u64,
    /// The arguments, in the order the function reads them.
    pub args: Vec<Argument>,
}

/// What the computation service delivers for one request.
#[derive(Clone, Copy, Debug, PartialEq, Eq)]
pub enum ComputationOutputs<T> {
    /// The function ran; its re-encrypted result.
    Success(T),
    /// The function could not run to completion.
    Aborted,
}

/// The re-encrypted result of a match: one ciphertext per field.
#[derive(Clone, Copy, Debug, PartialEq, Eq)]
pub struct MatchOrdersOutput {
    pub is_match: [u8; 32],
    pub matched_amount: [u8; 32],
    pub agreed_price: [u8; 32],
    /// The nonce from which the decryption key is re-derived.
    pub nonce: u128,
}

/// The re-encrypted result of a sum.
#[derive(Clone, Copy, Debug, PartialEq, Eq)]
pub struct AddTogetherOutput {
    pub sum: [u8; 32],
    pub nonce: u128,
}

/// Published when a match completes: the still-encrypted verdict.
#[derive(Clone, Copy, Debug, PartialEq, Eq)]
pub struct MatchResultEvent {
    pub is_match: [u8; 32],
    pub matched_amount: [u8; 32],
    pub agreed_price: [u8; 32],
    pub nonce: [u8; 16],
}

/// Published when a sum completes.
#[derive(Clone, Copy, Debug, PartialEq, Eq)]
pub struct SumEvent {
    pub sum: [u8; 32],
    pub nonce: [u8; 16],
}

/// The little-endian bytes of the low `k` bytes of `n`.
pub open spec fn le_bytes(n: nat, k: nat) -> Seq<u8>
    decreases k,
{
    if k == 0 {
        Seq::empty()
    } else {
        seq![(n % 256) as u8] + le_bytes(n / 256, (k - 1) as nat)
    }
}

/// The sixteen little-endian bytes of `n`.
pub fn nonce_bytes(n: u128) -> (r: [u8; 16])
    ensures
        r@ == le_bytes(n as nat, 16),
{
    let mut out = [0u8; 16];
    let mut x: u128 = n;
    let mut i: usize = 0;
    while i < 16
        invariant
            i <= 16,
            out@.len() == 16,
            out@.subrange(0, i as int) + le_bytes(x as nat, (16 - i) as nat) == le_bytes(n as nat, 16),
        decreases 16 - i,
    {
        let b = (x & 0xff) as u8;
        assert(x & 0xff == x % 256) by (bit_vector);
        assert(x >> 8 == x / 256) by (bit_vector);
        out[i] = b;
        x = x >> 8;
        i = i + 1;
    }
    out
}

/// Builds the request that evaluates a sum of two encrypted bytes.
pub fn add_together(
    computation_offset: u64,
    ciphertext_0: [u8; 32],
    ciphertext_1: [u8; 32],
    pub_key: [u8; 32],
    nonce: u128,
) -> (r: ComputationRequest)
    ensures
        r.computation_offset == computation_offset,
        r.args@ == seq![
            Argument::ArcisPubkey(pub_key),
            Argument::PlaintextU128(nonce),
            Argument::EncryptedU8(ciphertext_0),
            Argument::EncryptedU8(ciphertext_1),
        ],
{
    let args = vec![
        Argument::ArcisPubkey(pub_key),
        Argument::PlaintextU128(nonce),
        Argument::EncryptedU8(ciphertext_0),
        Argument::EncryptedU8(ciphertext_1),
    ];
    ComputationRequest { computation_offset, args }
}

/// Turns the outcome of a sum into its event; an aborted computation is an
/// error and publishes nothing.
pub fn add_together_callback(output: ComputationOutputs<AddTogetherOutput>) -> (r: Result<
    SumEvent,
    ErrorCode,
>)
    ensures
        match output {
            ComputationOutputs::Success(o) => r matches Ok(ev) && ev.sum == o.sum && ev.nonce@
                == le_bytes(o.nonce as nat, 16),
            ComputationOutputs::Aborted => r == Err::<SumEvent, ErrorCode>(
                ErrorCode::AbortedComputation,
            ),
        },
{
    match output {
        ComputationOutputs::Success(o) => Ok(SumEvent { sum: o.sum, nonce: nonce_bytes(o.nonce) }),
        ComputationOutputs::Aborted => Err(ErrorCode::AbortedComputation),
    }
}

/// The arguments of a match request: the result key, the nonce, then the six
/// fields of the bid and the six of the ask.
pub open spec fn match_request_args(
    bid: Seq<[u8; 32]>,
    ask: Seq<[u8; 32]>,
    pub_key: [u8; 32],
    nonce: u128,
) -> Seq<Argument> {
    seq![
        Argument::ArcisPubkey(pub_key),
        Argument::PlaintextU128(nonce),
        Argument::EncryptedU64(bid[0]),
        Argument::EncryptedU8(bid[1]),
        Argument::EncryptedU64(bid[2]),
        Argument::EncryptedU64(bid[3]),
        Argument::EncryptedU64(bid[4]),
        Argument::EncryptedU64(bid[5]),
        Argument::EncryptedU64(ask[0]),
        Argument::EncryptedU8(ask[1]),
        Argument::EncryptedU64(ask[2]),
        Argument::EncryptedU64(ask[3]),
        Argument::EncryptedU64(ask[4]),
        Argument::EncryptedU64(ask[5]),
    ]
}

/// Builds the request that evaluates the matching decision over an
/// encrypted bid and ask. Each order is given as the ciphertexts of its
/// asset, side, amount, price, expiry and trader.
pub fn match_orders(
    computation_offset: u64,
    bid_token_mint: [u8; 32],
    bid_side: [u8; 32],
    bid_amount: [u8; 32],
    bid_price: [u8; 32],
    bid_expiry: [u8; 32],
    bid_trader_id: [u8; 32],
    ask_token_mint: [u8; 32],
    ask_side: [u8; 32],
    ask_amount: [u8; 32],
    ask_price: [u8; 32],
    ask_expiry: [u8; 32],
    ask_trader_id: [u8; 32],
    pub_key: [u8; 32],
    nonce: u128,
) -> (r: ComputationRequest)
    ensures
        r.computation_offset == computation_offset,
        r.args@ == match_request_args(
            seq![bid_token_mint, bid_side, bid_amount, bid_price, bid_expiry, bid_trader_id],
            seq![ask_token_mint, ask_side, ask_amount, ask_price, ask_expiry, ask_trader_id],
            pub_key,
            nonce,
        ),
{
    let args = vec![
        Argument::ArcisPubkey(pub_key),
        Argument::PlaintextU128(nonce),
        Argument::EncryptedU64(bid_token_mint),
        Argument::EncryptedU8(bid_side),
        Argument::EncryptedU64(bid_amount),
        Argument::EncryptedU64(bid_price),
        Argument::EncryptedU64(bid_expiry),
        Argument::EncryptedU64(bid_trader_id),
        Argument::EncryptedU64(ask_token_mint),
        Argument::EncryptedU8(ask_side),
        Argument::EncryptedU64(ask_amount),
        Argument::EncryptedU64(ask_price),
        Argument::EncryptedU64(ask_expiry),
        Argument::EncryptedU64(ask_trader_id),
    ];
    ComputationRequest { computation_offset, args }
}

/// Turns the outcome of a match into the event that publishes it: the three
/// ciphertexts unchanged, and the nonce as bytes. An aborted computation is
/// an error and publishes nothing.
pub fn match_orders_callback(output: ComputationOutputs<MatchOrdersOutput>) -> (r: Result<
    MatchResultEvent,
    ErrorCode,
>)
    ensures
        match output {
            ComputationOutputs::Success(o) => r matches Ok(ev) && ev.is_match == o.is_match
                && ev.matched_amount == o.matched_amount && ev.agreed_price == o.agreed_price
                && ev.nonce@ == le_bytes(o.nonce as nat, 16),
            ComputationOutputs::Aborted => r == Err::<MatchResultEvent, ErrorCode>(
                ErrorCode::AbortedComputation,
            ),
        },
{
    match output {
        ComputationOutputs::Success(o) => Ok(
            MatchResultEvent {
                is_match: o.is_match,
                matched_amount: o.matched_amount,
                agreed_price: o.agreed_price,
                nonce: nonce_bytes(o.nonce),
            },
        ),
        ComputationOutputs::Aborted => Err(ErrorCode::AbortedComputation),
    }
}

} // verus!
