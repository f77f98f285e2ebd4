//! Settlement: two-party atomic-swap escrows and batch escrows, each a record
//! addressed by its identifier in a [`Ledger`].
//!
//! The operations here decide and record; they never move assets themselves.
//! An operation that moves assets returns the [`TokenTransfer`]s to perform,
//! and the caller performs them in the same atomic unit of work as the state
//! change, so that a failed transfer undoes the whole operation.
use std::collections::HashMap;
use vstd::prelude::*;

verus! {

broadcast use vstd::std_specs::hash::group_hash_axioms;

/// Most orders that one batch can hold.
pub const MAX_BATCH_ORDERS: u32 = 100;

/// A 32-byte account key (a party, an authority or an asset mint), held as
/// four little-endian 64-bit words in byte order.
#[derive(Clone, Copy, Debug, PartialEq, Eq, Structural)]
pub struct Address(pub u64, pub u64, pub u64, pub u64);

/// Why a settlement operation failed.
#[derive(Clone, Copy, Debug, PartialEq, Eq, Structural)]
pub enum ErrorCode {
    /// The batch is already finalized.
    BatchFinalized,
    /// The batch already holds `MAX_BATCH_ORDERS` orders.
    BatchFull,
    /// The batch holds no order.
    BatchEmpty,
    /// The caller is not the principal that the operation needs.
    Unauthorized,
    /// The trade is already settled.
    TradeAlreadySettled,
    /// That side has already deposited.
    AlreadyDeposited,
    /// The asset or the amount differs from the recorded terms.
    InvalidAmount,
    /// The maker has not deposited.
    MakerNotDeposited,
    /// The taker has not deposited.
    TakerNotDeposited,
    /// That side has nothing deposited to withdraw.
    NoDeposit,
    /// A record with that identifier already exists.
    AccountInUse,
    /// No record has that identifier.
    AccountNotInitialized,
}

/// A place that holds assets: a party's own account, or the escrow's custody.
#[derive(Clone, Copy, Debug, PartialEq, Eq, Structural)]
pub enum Holder {
    /// The account of the party with this key, for the transfer's asset.
    Party(Address),
    /// The custody account of the escrow, for the transfer's asset.
    Escrow,
}

/// One movement of assets for the caller to perform. A transfer out of
/// `Holder::Escrow` is authorized by the escrow itself; any other by the
/// party it comes from.
#[derive(Clone, Copy, Debug, PartialEq, Eq, Structural)]
pub struct TokenTransfer {
    pub mint: Address,
    pub amount: u64,
    pub from: Holder,
    pub to: Holder,
}

/// The two legs of a settlement: the maker's asset goes to the taker, and the
/// taker's asset goes to the maker. Both must complete for the settlement to
/// stand; the caller makes them one atomic unit with the state change.
#[derive(Clone, Copy, Debug, PartialEq, Eq, Structural)]
pub struct SwapTransfers {
    pub to_taker: TokenTransfer,
    pub to_maker: TokenTransfer,
}

/// A two-party atomic swap of the maker's asset against the taker's.
#[derive(Clone, Copy, Debug, PartialEq, Eq, Structural)]
pub struct TradeEscrow {
    pub match_id: u64,
    pub maker: Address,
    pub taker: Address,
    pub maker_token: Address,
    pub taker_token: Address,
    pub maker_amount: u64,
    pub taker_amount: u64,
    pub maker_deposited: bool,
    pub taker_deposited: bool,
    pub is_settled: bool,
}

/// A running summary of the orders gathered into one batch.
#[derive(Clone, Copy, Debug, PartialEq, Eq, Structural)]
pub struct BatchEscrow {
    pub batch_id: u64,
    pub authority: Address,
    pub order_count: u32,
    pub total_volume: u64,
    pub is_finalized: bool,
}

impl TradeEscrow {
    /// A settled escrow holds both deposits.
    pub open spec fn wf(&self) -> bool {
        self.is_settled ==> self.maker_deposited && self.taker_deposited
    }

    /// A fresh escrow with the given terms: nothing deposited, not settled.
    pub open spec fn spec_new(
        match_id: u64,
        maker: Address,
        taker: Address,
        maker_token: Address,
        taker_token: Address,
        maker_amount: u64,
        taker_amount: u64,
    ) -> TradeEscrow {
        TradeEscrow {
            match_id,
            maker,
            taker,
            maker_token,
            taker_token,
            maker_amount,
            taker_amount,
            maker_deposited: false,
            taker_deposited: false,
            is_settled: false,
        }
    }

    /// The escrow after a deposit attempt, and the attempt's outcome. The
    /// depositor is the maker if its key is the maker's, else the taker if it
    /// is the taker's.
    pub open spec fn deposit_step(self, depositor: Address, mint: Address, amount: u64) -> (
        TradeEscrow,
        Result<TokenTransfer, ErrorCode>,
    ) {
        let into_custody = TokenTransfer {
            mint,
            amount,
            from: Holder::Party(depositor),
            to: Holder::Escrow,
        };
        if self.is_settled {
            (self, Err(ErrorCode::TradeAlreadySettled))
        } else if depositor == self.maker {
            if self.maker_deposited {
                (self, Err(ErrorCode::AlreadyDeposited))
            } else if amount != self.maker_amount || mint != self.maker_token {
                (self, Err(ErrorCode::InvalidAmount))
            } else {
                (TradeEscrow { maker_deposited: true, ..self }, Ok(into_custody))
            }
        } else if depositor == self.taker {
            if self.taker_deposited {
                (self, Err(ErrorCode::AlreadyDeposited))
            } else if amount != self.taker_amount || mint != self.taker_token {
                (self, Err(ErrorCode::InvalidAmount))
            } else {
                (TradeEscrow { taker_deposited: true, ..self }, Ok(into_custody))
            }
        } else {
            (self, Err(ErrorCode::Unauthorized))
        }
    }

    /// The escrow after a settlement attempt, and the attempt's outcome.
    pub open spec fn settle_step(self) -> (TradeEscrow, Result<SwapTransfers, ErrorCode>) {
        if self.is_settled {
            (self, Err(ErrorCode::TradeAlreadySettled))
        } else if !self.maker_deposited {
            (self, Err(ErrorCode::MakerNotDeposited))
        } else if !self.taker_deposited {
            (self, Err(ErrorCode::TakerNotDeposited))
        } else {
            (
                TradeEscrow { is_settled: true, ..self },
                Ok(
                    SwapTransfers {
                        to_taker: TokenTransfer {
                            mint: self.maker_token,
                            amount: self.maker_amount,
                            from: Holder::Escrow,
                            to: Holder::Party(self.taker),
                        },
                        to_maker: TokenTransfer {
                            mint: self.taker_token,
                            amount: self.taker_amount,
                            from: Holder::Escrow,
                            to: Holder::Party(self.maker),
                        },
                    },
                ),
            )
        }
    }

    /// The outcome of a withdrawal attempt; a withdrawal changes no field.
    pub open spec fn withdraw_step(self, withdrawer: Address, mint: Address) -> Result<
        TokenTransfer,
        ErrorCode,
    > {
        if self.is_settled {
            Err(ErrorCode::TradeAlreadySettled)
        } else if withdrawer == self.maker {
            if !self.maker_deposited {
                Err(ErrorCode::NoDeposit)
            } else if mint != self.maker_token {
                Err(ErrorCode::InvalidAmount)
            } else {
                Ok(
                    TokenTransfer {
                        mint: self.maker_token,
                        amount: self.maker_amount,
                        from: Holder::Escrow,
                        to: Holder::Party(withdrawer),
                    },
                )
            }
        } else if withdrawer == self.taker {
            if !self.taker_deposited {
                Err(ErrorCode::NoDeposit)
            } else if mint != self.taker_token {
                Err(ErrorCode::InvalidAmount)
            } else {
                Ok(
                    TokenTransfer {
                        mint: self.taker_token,
                        amount: self.taker_amount,
                        from: Holder::Escrow,
                        to: Holder::Party(withdrawer),
                    },
                )
            }
        } else {
            Err(ErrorCode::Unauthorized)
        }
    }

    /// A fresh escrow with the given terms.
    pub fn new(
        match_id: u64,
        maker: Address,
        taker: Address,
        maker_token: Address,
        taker_token: Address,
        maker_amount: u64,
        taker_amount: u64,
    ) -> (r: TradeEscrow)
        ensures
            r == TradeEscrow::spec_new(
                match_id,
                maker,
                taker,
                maker_token,
                taker_token,
                maker_amount,
                taker_amount,
            ),
            r.wf(),
    {
        TradeEscrow {
            match_id,
            maker,
            taker,
            maker_token,
            taker_token,
            maker_amount,
            taker_amount,
            maker_deposited: false,
            taker_deposited: false,
            is_settled: false,
        }
    }

    /// Records a deposit of exactly the depositor's side of the terms, once,
    /// before settlement; returns the transfer into custody to perform.
    pub fn deposit(&mut self, depositor: Address, mint: Address, amount: u64) -> (r: Result<
        TokenTransfer,
        ErrorCode,
    >)
        ensures
            (*final(self), r) == old(self).deposit_step(depositor, mint, amount),
            old(self).wf() ==> final(self).wf(),
    {
        if self.is_settled {
            return Err(ErrorCode::TradeAlreadySettled);
        }
        if depositor == self.maker {
            if self.maker_deposited {
                return Err(ErrorCode::AlreadyDeposited);
            }
            if amount != self.maker_amount || mint != self.maker_token {
                return Err(ErrorCode::InvalidAmount);
            }
            self.maker_deposited = true;
        } else if depositor == self.taker {
            if self.taker_deposited {
                return Err(ErrorCode::AlreadyDeposited);
            }
            if amount != self.taker_amount || mint != self.taker_token {
                return Err(ErrorCode::InvalidAmount);
            }
            self.taker_deposited = true;
        } else {
            return Err(ErrorCode::Unauthorized);
        }
        Ok(TokenTransfer { mint, amount, from: Holder::Party(depositor), to: Holder::Escrow })
    }

    /// Settles once both sides have deposited; returns the two legs of the
    /// swap, out of custody and to the counterparties.
    pub fn settle(&mut self) -> (r: Result<SwapTransfers, ErrorCode>)
        ensures
            (*final(self), r) == old(self).settle_step(),
            old(self).wf() ==> final(self).wf(),
    {
        if self.is_settled {
            return Err(ErrorCode::TradeAlreadySettled);
        }
        if !self.maker_deposited {
            return Err(ErrorCode::MakerNotDeposited);
        }
        if !self.taker_deposited {
            return Err(ErrorCode::TakerNotDeposited);
        }
        let to_taker = TokenTransfer {
            mint: self.maker_token,
            amount: self.maker_amount,
            from: Holder::Escrow,
            to: Holder::Party(self.taker),
        };
        let to_maker = TokenTransfer {
            mint: self.taker_token,
            amount: self.taker_amount,
            from: Holder::Escrow,
            to: Holder::Party(self.maker),
        };
        self.is_settled = true;
        Ok(SwapTransfers { to_taker, to_maker })
    }

    /// Returns the transfer that gives the withdrawer's own deposit back,
    /// before settlement. The deposited flag stays set: a withdrawal does not
    /// stop a later settlement from assuming the deposit is still held.
    pub fn withdraw(&self, withdrawer: Address, mint: Address) -> (r: Result<
        TokenTransfer,
        ErrorCode,
    >)
        ensures
            r == self.withdraw_step(withdrawer, mint),
    {
        if self.is_settled {
            return Err(ErrorCode::TradeAlreadySettled);
        }
        let (can_withdraw, amount, expected_mint) = if withdrawer == self.maker {
            (self.maker_deposited, self.maker_amount, self.maker_token)
        } else if withdrawer == self.taker {
            (self.taker_deposited, self.taker_amount, self.taker_token)
        } else {
            return Err(ErrorCode::Unauthorized);
        };
        if !can_withdraw {
            return Err(ErrorCode::NoDeposit);
        }
        if mint != expected_mint {
            return Err(ErrorCode::InvalidAmount);
        }
        Ok(TokenTransfer { mint: expected_mint, amount, from: Holder::Escrow, to: Holder::Party(withdrawer) })
    }
}

impl BatchEscrow {
    /// The batch is within capacity, and a finalized batch is not empty.
    pub open spec fn wf(&self) -> bool {
        &&& self.order_count <= MAX_BATCH_ORDERS
        &&& self.is_finalized ==> self.order_count > 0
    }

    /// A fresh, open, empty batch.
    pub open spec fn spec_new(batch_id: u64, authority: Address) -> BatchEscrow {
        BatchEscrow { batch_id, authority, order_count: 0, total_volume: 0, is_finalized: false }
    }

    /// Adding `amount` to the running volume cannot overflow where the
    /// addition would take place.
    pub open spec fn can_add(&self, amount: u64) -> bool {
        !self.is_finalized && self.order_count < MAX_BATCH_ORDERS ==> self.total_volume + amount
            <= u64::MAX
    }

    /// The batch after an attempt to add an order of `amount`, and the
    /// attempt's outcome.
    pub open spec fn add_step(self, amount: u64) -> (BatchEscrow, Result<(), ErrorCode>) {
        if self.is_finalized {
            (self, Err(ErrorCode::BatchFinalized))
        } else if self.order_count >= MAX_BATCH_ORDERS {
            (self, Err(ErrorCode::BatchFull))
        } else {
            (
                BatchEscrow {
                    order_count: (self.order_count + 1) as u32,
                    total_volume: (self.total_volume + amount) as u64,
                    ..self
                },
                Ok(()),
            )
        }
    }

    /// The batch after an attempt by `caller` to finalize it, and the
    /// attempt's outcome.
    pub open spec fn finalize_step(self, caller: Address) -> (BatchEscrow, Result<(), ErrorCode>) {
        if caller != self.authority {
            (self, Err(ErrorCode::Unauthorized))
        } else if self.is_finalized {
            (self, Err(ErrorCode::BatchFinalized))
        } else if self.order_count == 0 {
            (self, Err(ErrorCode::BatchEmpty))
        } else {
            (BatchEscrow { is_finalized: true, ..self }, Ok(()))
        }
    }

    /// A fresh, open, empty batch.
    pub fn new(batch_id: u64, authority: Address) -> (r: BatchEscrow)
        ensures
            r == BatchEscrow::spec_new(batch_id, authority),
            r.wf(),
    {
        BatchEscrow { batch_id, authority, order_count: 0, total_volume: 0, is_finalized: false }
    }

    /// Counts one more order and adds its amount to the running volume, while
    /// the batch is open and below capacity. The price is not retained.
    pub fn add_order(&mut self, amount: u64, price: u64) -> (r: Result<(), ErrorCode>)
        requires
            old(self).can_add(amount),
        ensures
            (*final(self), r) == old(self).add_step(amount),
            old(self).wf() ==> final(self).wf(),
    {
        if self.is_finalized {
            return Err(ErrorCode::BatchFinalized);
        }
        if self.order_count >= MAX_BATCH_ORDERS {
            return Err(ErrorCode::BatchFull);
        }
        self.order_count = self.order_count + 1;
        self.total_volume = self.total_volume + amount;
        Ok(())
    }

    /// Closes a non-empty open batch; only its authority may.
    pub fn finalize(&mut self, caller: Address) -> (r: Result<(), ErrorCode>)
        ensures
            (*final(self), r) == old(self).finalize_step(caller),
            old(self).wf() ==> final(self).wf(),
    {
        if caller != self.authority {
            return Err(ErrorCode::Unauthorized);
        }
        if self.is_finalized {
            return Err(ErrorCode::BatchFinalized);
        }
        if self.order_count == 0 {
            return Err(ErrorCode::BatchEmpty);
        }
        self.is_finalized = true;
        Ok(())
    }
}

/// The records of a ledger, by identifier.
pub struct LedgerView {
    pub batches: Map<u64, BatchEscrow>,
    pub trades: Map<u64, TradeEscrow>,
}

/// Every batch and trade escrow, each addressed by its own identifier; at
/// most one record per identifier.
pub struct Ledger {
    batches: HashMap<u64, BatchEscrow>,
    trades: HashMap<u64, TradeEscrow>,
}

impl View for Ledger {
    type V = LedgerView;

    closed spec fn view(&self) -> LedgerView {
        LedgerView { batches: self.batches@, trades: self.trades@ }
    }
}

impl LedgerView {
    /// Each record sits under its own identifier and is well formed.
    pub open spec fn wf(self) -> bool {
        &&& forall|id: u64| #[trigger]
            self.batches.contains_key(id) ==> self.batches[id].batch_id == id
                && self.batches[id].wf()
        &&& forall|id: u64| #[trigger]
            self.trades.contains_key(id) ==> self.trades[id].match_id == id
                && self.trades[id].wf()
    }

    /// The ledger with `b` stored under `id`.
    pub open spec fn with_batch(self, id: u64, b: BatchEscrow) -> LedgerView {
        LedgerView { batches: self.batches.insert(id, b), trades: self.trades }
    }

    /// The ledger with `e` stored under `id`.
    pub open spec fn with_trade(self, id: u64, e: TradeEscrow) -> LedgerView {
        LedgerView { batches: self.batches, trades: self.trades.insert(id, e) }
    }

    /// Creating a batch: refused if the identifier is taken.
    pub open spec fn initialize_batch_step(self, batch_id: u64, authority: Address) -> (
        LedgerView,
        Result<(), ErrorCode>,
    ) {
        if self.batches.contains_key(batch_id) {
            (self, Err(ErrorCode::AccountInUse))
        } else {
            (self.with_batch(batch_id, BatchEscrow::spec_new(batch_id, authority)), Ok(()))
        }
    }

    /// Adding an order to the batch under `batch_id`.
    pub open spec fn add_to_batch_step(self, batch_id: u64, amount: u64) -> (
        LedgerView,
        Result<(), ErrorCode>,
    ) {
        if !self.batches.contains_key(batch_id) {
            (self, Err(ErrorCode::AccountNotInitialized))
        } else {
            let (b, r) = self.batches[batch_id].add_step(amount);
            (if r is Ok { self.with_batch(batch_id, b) } else { self }, r)
        }
    }

    /// Finalizing the batch under `batch_id`.
    pub open spec fn finalize_batch_step(self, batch_id: u64, caller: Address) -> (
        LedgerView,
        Result<(), ErrorCode>,
    ) {
        if !self.batches.contains_key(batch_id) {
            (self, Err(ErrorCode::AccountNotInitialized))
        } else {
            let (b, r) = self.batches[batch_id].finalize_step(caller);
            (if r is Ok { self.with_batch(batch_id, b) } else { self }, r)
        }
    }

    /// Creating a trade escrow: refused if the identifier is taken.
    pub open spec fn init_escrow_step(
        self,
        match_id: u64,
        maker: Address,
        taker: Address,
        maker_token: Address,
        taker_token: Address,
        maker_amount: u64,
        taker_amount: u64,
    ) -> (LedgerView, Result<(), ErrorCode>) {
        if self.trades.contains_key(match_id) {
            (self, Err(ErrorCode::AccountInUse))
        } else {
            (
                self.with_trade(
                    match_id,
                    TradeEscrow::spec_new(
                        match_id,
                        maker,
                        taker,
                        maker_token,
                        taker_token,
                        maker_amount,
                        taker_amount,
                    ),
                ),
                Ok(()),
            )
        }
    }

    /// Depositing into the trade escrow under `match_id`.
    pub open spec fn deposit_step(
        self,
        match_id: u64,
        depositor: Address,
        mint: Address,
        amount: u64,
    ) -> (LedgerView, Result<TokenTransfer, ErrorCode>) {
        if !self.trades.contains_key(match_id) {
            (self, Err(ErrorCode::AccountNotInitialized))
        } else {
            let (e, r) = self.trades[match_id].deposit_step(depositor, mint, amount);
            (if r is Ok { self.with_trade(match_id, e) } else { self }, r)
        }
    }

    /// Settling the trade escrow under `match_id`.
    pub open spec fn settle_step(self, match_id: u64) -> (
        LedgerView,
        Result<SwapTransfers, ErrorCode>,
    ) {
        if !self.trades.contains_key(match_id) {
            (self, Err(ErrorCode::AccountNotInitialized))
        } else {
            let (e, r) = self.trades[match_id].settle_step();
            (if r is Ok { self.with_trade(match_id, e) } else { self }, r)
        }
    }

    /// Withdrawing from the trade escrow under `match_id`.
    pub open spec fn withdraw_step(self, match_id: u64, withdrawer: Address, mint: Address) -> Result<
        TokenTransfer,
        ErrorCode,
    > {
        if !self.trades.contains_key(match_id) {
            Err(ErrorCode::AccountNotInitialized)
        } else {
            self.trades[match_id].withdraw_step(withdrawer, mint)
        }
    }
}

/// Storing a well-formed batch under its own identifier keeps a ledger
/// well formed.
proof fn lemma_with_batch_wf(l: LedgerView, id: u64, b: BatchEscrow)
    requires
        l.wf(),
        b.batch_id == id,
        b.wf(),
    ensures
        l.with_batch(id, b).wf(),
{
    let m = l.with_batch(id, b);
    assert forall|k: u64| #[trigger] m.batches.contains_key(k) implies m.batches[k].batch_id == k
        && m.batches[k].wf() by {
        if k != id {
            assert(l.batches.contains_key(k));
        }
    }
}

/// Storing a well-formed trade escrow under its own identifier keeps a
/// ledger well formed.
proof fn lemma_with_trade_wf(l: LedgerView, id: u64, e: TradeEscrow)
    requires
        l.wf(),
        e.match_id == id,
        e.wf(),
    ensures
        l.with_trade(id, e).wf(),
{
    let m = l.with_trade(id, e);
    assert forall|k: u64| #[trigger] m.trades.contains_key(k) implies m.trades[k].match_id == k
        && m.trades[k].wf() by {
        if k != id {
            assert(l.trades.contains_key(k));
        }
    }
}

impl Ledger {
    /// An empty ledger.
    pub fn new() -> (r: Ledger)
        ensures
            r@.batches == Map::<u64, BatchEscrow>::empty(),
            r@.trades == Map::<u64, TradeEscrow>::empty(),
            r@.wf(),
    {
        Ledger { batches: HashMap::new(), trades: HashMap::new() }
    }

    /// The batch under `batch_id`, if any.
    pub fn batch(&self, batch_id: u64) -> (r: Option<BatchEscrow>)
        ensures
            r == (if self@.batches.contains_key(batch_id) {
                Some(self@.batches[batch_id])
            } else {
                None
            }),
    {
        match self.batches.get(&batch_id) {
            Some(b) => Some(*b),
            None => None,
        }
    }

    /// The trade escrow under `match_id`, if any.
    pub fn trade(&self, match_id: u64) -> (r: Option<TradeEscrow>)
        ensures
            r == (if self@.trades.contains_key(match_id) {
                Some(self@.trades[match_id])
            } else {
                None
            }),
    {
        match self.trades.get(&match_id) {
            Some(e) => Some(*e),
            None => None,
        }
    }
}

/// Opens an empty batch under `batch_id`, owned by `authority`; fails with
/// `AccountInUse`, changing nothing, if that identifier already has a batch.
pub fn initialize_batch(ledger: &mut Ledger, batch_id: u64, authority: Address) -> (r: Result<
    (),
    ErrorCode,
>)
    requires
        old(ledger)@.wf(),
    ensures
        (final(ledger)@, r) == old(ledger)@.initialize_batch_step(batch_id, authority),
        final(ledger)@.wf(),
{
    if ledger.batches.contains_key(&batch_id) {
        return Err(ErrorCode::AccountInUse);
    }
    let b = BatchEscrow::new(batch_id, authority);
    proof {
        lemma_with_batch_wf(old(ledger)@, batch_id, b);
    }
    ledger.batches.insert(batch_id, b);
    Ok(())
}

/// Adds an order of `amount` at `price` to the batch under `batch_id`. Only
/// the count and the running volume are kept.
pub fn add_to_batch(
    ledger: &mut Ledger,
    batch_id: u64,
    token_mint: Address,
    amount: u64,
    price: u64,
) -> (r: Result<(), ErrorCode>)
    requires
        old(ledger)@.wf(),
        old(ledger)@.batches.contains_key(batch_id) ==> old(ledger)@.batches[batch_id].can_add(
            amount,
        ),
    ensures
        (final(ledger)@, r) == old(ledger)@.add_to_batch_step(batch_id, amount),
        final(ledger)@.wf(),
{
    let mut b = match ledger.batches.get(&batch_id) {
        Some(b) => *b,
        None => return Err(ErrorCode::AccountNotInitialized),
    };
    let r = b.add_order(amount, price);
    if let Ok(()) = r {
        proof {
            assert(old(ledger)@.batches.contains_key(batch_id));
            lemma_with_batch_wf(old(ledger)@, batch_id, b);
        }
        ledger.batches.insert(batch_id, b);
    }
    r
}

/// Finalizes the batch under `batch_id` on behalf of `authority`.
pub fn finalize_batch(ledger: &mut Ledger, batch_id: u64, authority: Address) -> (r: Result<
    (),
    ErrorCode,
>)
    requires
        old(ledger)@.wf(),
    ensures
        (final(ledger)@, r) == old(ledger)@.finalize_batch_step(batch_id, authority),
        final(ledger)@.wf(),
{
    let mut b = match ledger.batches.get(&batch_id) {
        Some(b) => *b,
        None => return Err(ErrorCode::AccountNotInitialized),
    };
    let r = b.finalize(authority);
    if let Ok(()) = r {
        proof {
            assert(old(ledger)@.batches.contains_key(batch_id));
            lemma_with_batch_wf(old(ledger)@, batch_id, b);
        }
        ledger.batches.insert(batch_id, b);
    }
    r
}

/// Opens a trade escrow under `match_id` with the given terms; fails with
/// `AccountInUse`, changing nothing, if that identifier already has one.
pub fn init_escrow(
    ledger: &mut Ledger,
    match_id: u64,
    maker: Address,
    taker: Address,
    maker_token: Address,
    taker_token: Address,
    maker_amount: u64,
    taker_amount: u64,
) -> (r: Result<(), ErrorCode>)
    requires
        old(ledger)@.wf(),
    ensures
        (final(ledger)@, r) == old(ledger)@.init_escrow_step(
            match_id,
            maker,
            taker,
            maker_token,
            taker_token,
            maker_amount,
            taker_amount,
        ),
        final(ledger)@.wf(),
{
    if ledger.trades.contains_key(&match_id) {
        return Err(ErrorCode::AccountInUse);
    }
    let e = TradeEscrow::new(
        match_id,
        maker,
        taker,
        maker_token,
        taker_token,
        maker_amount,
        taker_amount,
    );
    proof {
        lemma_with_trade_wf(old(ledger)@, match_id, e);
    }
    ledger.trades.insert(match_id, e);
    Ok(())
}

/// Records a deposit by `depositor` of `amount` of `mint` into the trade
/// escrow under `match_id`; returns the transfer into custody to perform.
pub fn deposit(
    ledger: &mut Ledger,
    match_id: u64,
    depositor: Address,
    mint: Address,
    amount: u64,
) -> (r: Result<TokenTransfer, ErrorCode>)
    requires
        old(ledger)@.wf(),
    ensures
        (final(ledger)@, r) == old(ledger)@.deposit_step(match_id, depositor, mint, amount),
        final(ledger)@.wf(),
{
    let mut e = match ledger.trades.get(&match_id) {
        Some(e) => *e,
        None => return Err(ErrorCode::AccountNotInitialized),
    };
    let r = e.deposit(depositor, mint, amount);
    if let Ok(_) = r {
        proof {
            assert(old(ledger)@.trades.contains_key(match_id));
            lemma_with_trade_wf(old(ledger)@, match_id, e);
        }
        ledger.trades.insert(match_id, e);
    }
    r
}

/// Settles the trade escrow under `match_id`; returns the two legs of the
/// swap, which the caller performs in the same atomic unit as this state
/// change. Should the second leg fail after the first, that unit must fail
/// as a whole: nothing here recovers a half-performed swap.
pub fn settle_atomic_swap(ledger: &mut Ledger, match_id: u64) -> (r: Result<
    SwapTransfers,
    ErrorCode,
>)
    requires
        old(ledger)@.wf(),
    ensures
        (final(ledger)@, r) == old(ledger)@.settle_step(match_id),
        final(ledger)@.wf(),
{
    let mut e = match ledger.trades.get(&match_id) {
        Some(e) => *e,
        None => return Err(ErrorCode::AccountNotInitialized),
    };
    let r = e.settle();
    if let Ok(_) = r {
        proof {
            assert(old(ledger)@.trades.contains_key(match_id));
            lemma_with_trade_wf(old(ledger)@, match_id, e);
        }
        ledger.trades.insert(match_id, e);
    }
    r
}

/// Returns the transfer that gives `withdrawer` back their own deposit from
/// the trade escrow under `match_id`; the escrow itself is left as it is.
pub fn withdraw(ledger: &Ledger, match_id: u64, withdrawer: Address, mint: Address) -> (r: Result<
    TokenTransfer,
    ErrorCode,
>)
    ensures
        r == ledger@.withdraw_step(match_id, withdrawer, mint),
{
    match ledger.trades.get(&match_id) {
        Some(e) => e.withdraw(withdrawer, mint),
        None => Err(ErrorCode::AccountNotInitialized),
    }
}

/// A side deposits at most once: once a deposit by `depositor` has gone
/// through, any further deposit by the same party fails `AlreadyDeposited`
/// and changes nothing, and the other side's flag is as it was.
pub proof fn lemma_deposit_once_per_side(
    e: TradeEscrow,
    depositor: Address,
    mint: Address,
    amount: u64,
    next_mint: Address,
    next_amount: u64,
)
    requires
        e.deposit_step(depositor, mint, amount).1 is Ok,
    ensures
        ({
            let after = e.deposit_step(depositor, mint, amount).0;
            &&& after.deposit_step(depositor, next_mint, next_amount) == (
                after,
                Err::<TokenTransfer, ErrorCode>(ErrorCode::AlreadyDeposited),
            )
            &&& depositor == e.maker ==> after.maker_deposited && after.taker_deposited
                == e.taker_deposited
            &&& depositor != e.maker ==> after.taker_deposited && after.maker_deposited
                == e.maker_deposited
        }),
{
}

/// No operation on a trade escrow clears a flag: a deposit, once recorded,
/// stays recorded, and a settled escrow stays settled; its terms never
/// change.
pub proof fn lemma_flags_never_revert(
    e: TradeEscrow,
    depositor: Address,
    mint: Address,
    amount: u64,
)
    ensures
        ({
            let d = e.deposit_step(depositor, mint, amount).0;
            let s = e.settle_step().0;
            &&& e.maker_deposited ==> d.maker_deposited && s.maker_deposited
            &&& e.taker_deposited ==> d.taker_deposited && s.taker_deposited
            &&& e.is_settled ==> d.is_settled && s.is_settled
            &&& d.maker == e.maker && d.taker == e.taker && s.maker == e.maker && s.taker
                == e.taker
            &&& d.maker_amount == e.maker_amount && d.taker_amount == e.taker_amount
            &&& s.maker_amount == e.maker_amount && s.taker_amount == e.taker_amount
            &&& d.maker_token == e.maker_token && d.taker_token == e.taker_token
            &&& s.maker_token == e.maker_token && s.taker_token == e.taker_token
        }),
{
}

/// Settlement needs both deposits: with the maker's in and the taker's
/// missing it fails `TakerNotDeposited`; with both in it succeeds once, and
/// a second settlement fails `TradeAlreadySettled`.
pub proof fn lemma_settle_needs_both_sides(e: TradeEscrow)
    requires
        e.wf(),
    ensures
        e.maker_deposited && !e.taker_deposited ==> e.settle_step() == (
            e,
            Err::<SwapTransfers, ErrorCode>(ErrorCode::TakerNotDeposited),
        ),
        !e.is_settled && e.maker_deposited && e.taker_deposited ==> {
            &&& e.settle_step().1 is Ok
            &&& e.settle_step().0.settle_step() == (
                e.settle_step().0,
                Err::<SwapTransfers, ErrorCode>(ErrorCode::TradeAlreadySettled),
            )
        },
{
}

/// Once an escrow has settled, no one can withdraw from it: every
/// withdrawal fails `TradeAlreadySettled`, the maker's and the taker's alike.
pub proof fn lemma_no_withdraw_after_settlement(e: TradeEscrow, withdrawer: Address, mint: Address)
    requires
        e.settle_step().1 is Ok,
    ensures
        e.settle_step().0.withdraw_step(withdrawer, mint) == Err::<TokenTransfer, ErrorCode>(
            ErrorCode::TradeAlreadySettled,
        ),
{
}

/// The batch after adding orders of the given amounts, one after another.
pub open spec fn add_orders(b: BatchEscrow, amounts: Seq<u64>) -> BatchEscrow
    decreases amounts.len(),
{
    if amounts.len() == 0 {
        b
    } else {
        add_orders(b, amounts.drop_last()).add_step(amounts.last()).0
    }
}

/// Each of those additions succeeded.
pub open spec fn all_added(b: BatchEscrow, amounts: Seq<u64>) -> bool
    decreases amounts.len(),
{
    if amounts.len() == 0 {
        true
    } else {
        &&& all_added(b, amounts.drop_last())
        &&& add_orders(b, amounts.drop_last()).add_step(amounts.last()).1 is Ok
    }
}

/// Each successful addition counts exactly one order and leaves the batch
/// open.
proof fn lemma_added_count(b: BatchEscrow, amounts: Seq<u64>)
    requires
        all_added(b, amounts),
        amounts.len() > 0,
    ensures
        add_orders(b, amounts).order_count == b.order_count + amounts.len(),
        !add_orders(b, amounts).is_finalized,
    decreases amounts.len(),
{
    if amounts.len() > 1 {
        lemma_added_count(b, amounts.drop_last());
    }
}

/// A batch holds at most `MAX_BATCH_ORDERS` orders: after that many
/// successful additions to a fresh batch, the next one fails `BatchFull`.
pub proof fn lemma_batch_capacity(
    batch_id: u64,
    authority: Address,
    amounts: Seq<u64>,
    amount: u64,
)
    requires
        amounts.len() == MAX_BATCH_ORDERS,
        all_added(BatchEscrow::spec_new(batch_id, authority), amounts),
    ensures
        ({
            let full = add_orders(BatchEscrow::spec_new(batch_id, authority), amounts);
            full.add_step(amount) == (full, Err::<(), ErrorCode>(ErrorCode::BatchFull))
        }),
{
    lemma_added_count(BatchEscrow::spec_new(batch_id, authority), amounts);
}

/// An open batch with no order cannot be finalized: its authority's attempt
/// fails `BatchEmpty` and changes nothing.
pub proof fn lemma_finalize_empty_batch(b: BatchEscrow)
    requires
        b.order_count == 0,
        !b.is_finalized,
    ensures
        b.finalize_step(b.authority) == (b, Err::<(), ErrorCode>(ErrorCode::BatchEmpty)),
{
}

/// A batch identifier is used once: creating a batch under an identifier
/// that already has one fails `AccountInUse` and leaves the ledger as it is.
pub proof fn lemma_batch_created_once(l: LedgerView, batch_id: u64, authority: Address)
    requires
        l.batches.contains_key(batch_id),
    ensures
        l.initialize_batch_step(batch_id, authority) == (
            l,
            Err::<(), ErrorCode>(ErrorCode::AccountInUse),
        ),
{
}

/// A match identifier is used once: creating a trade escrow under an
/// identifier that already has one fails `AccountInUse` and leaves the
/// ledger as it is.
pub proof fn lemma_escrow_created_once(
    l: LedgerView,
    match_id: u64,
    maker: Address,
    taker: Address,
    maker_token: Address,
    taker_token: Address,
    maker_amount: u64,
    taker_amount: u64,
)
    requires
        l.trades.contains_key(match_id),
    ensures
        l.init_escrow_step(
            match_id,
            maker,
            taker,
            maker_token,
            taker_token,
            maker_amount,
            taker_amount,
        ) == (l, Err::<(), ErrorCode>(ErrorCode::AccountInUse)),
{
}

} // verus!
