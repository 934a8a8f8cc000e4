//! The plain data model of the records and positions the health computation
//! reads.
//!
//! The host ledger's storage, its serialization format, oracle staleness and
//! confidence filtering and bank interest bookkeeping are external
//! collaborators: the engine consumes their output as plain values.  A raw
//! account record is therefore an [`AccountRecord`]: a key plus the already
//! decoded payload; an oracle record carries the single confidence-filtered
//! unit price, and a token position carries the index-adjusted native balance.

use vstd::prelude::*;

use crate::fx::Fx;

verus! {

/// A record or oracle key, as an opaque plain value compared only for
/// equality.
pub type AccountKey = u64;

/// The health-relevant part of a per-token bank record.
#[derive(Clone, Copy, Debug)]
pub struct Bank {
    /// The group (basket of markets) this bank belongs to.
    pub group: AccountKey,
    /// The token this bank is the ledger of.
    pub token_index: u16,
    /// The key of the oracle record that prices this token.
    pub oracle: AccountKey,
    pub maint_asset_weight: Fx,
    pub init_asset_weight: Fx,
    pub maint_liab_weight: Fx,
    pub init_liab_weight: Fx,
}

/// An oracle record, reduced to the confidence-filtered unit price the
/// external oracle component produced for it.
#[derive(Clone, Copy, Debug)]
pub struct Oracle {
    /// Unit price of the token in the common reference unit.
    pub price: Fx,
}

/// The health-relevant part of a perpetual-futures market record.
#[derive(Clone, Copy, Debug)]
pub struct PerpMarket {
    pub group: AccountKey,
    pub perp_market_index: u16,
    /// The spot token whose oracle prices this market's base lots.
    pub base_token_index: u16,
    /// Native base units per base lot.
    pub base_lot_size: i64,
    /// Native quote units per quote lot.
    pub quote_lot_size: i64,
    pub maint_asset_weight: Fx,
    pub init_asset_weight: Fx,
    pub maint_liab_weight: Fx,
    pub init_liab_weight: Fx,
}

/// A spot-exchange open-orders record: per side, the total deposited amount
/// and the freely withdrawable portion, in native units.  `total - free` is
/// the amount reserved in resting orders.
#[derive(Clone, Copy, Debug)]
pub struct OpenOrders {
    pub native_coin_total: u64,
    pub native_coin_free: u64,
    pub native_pc_total: u64,
    pub native_pc_free: u64,
    /// Referrer rebates already accrued to this account; counted as freely
    /// withdrawable quote funds.
    pub referrer_rebates_accrued: u64,
}

/// The decoded payload of a raw account record.  Decoding (the discriminator
/// and owner checks of the host's zero-copy loader) happened outside; a
/// lookup that expects one variant and finds another fails the same way the
/// loader's tag mismatch does.
#[derive(Clone, Copy, Debug)]
pub enum RecordData {
    Bank(Bank),
    Oracle(Oracle),
    PerpMarket(PerpMarket),
    OpenOrders(OpenOrders),
}

/// One raw account record: its key and its decoded payload.
#[derive(Clone, Copy, Debug)]
pub struct AccountRecord {
    pub key: AccountKey,
    pub data: RecordData,
}

/// An active token position.  `native` is the deposit/borrow-index-adjusted
/// native amount, already supplied by the external bank bookkeeping.
#[derive(Clone, Copy, Debug)]
pub struct TokenPosition {
    pub token_index: u16,
    pub native: Fx,
}

/// An active spot-market membership: the open-orders record it owns and the
/// two tokens the market trades.
#[derive(Clone, Copy, Debug)]
pub struct Serum3Orders {
    pub open_orders: AccountKey,
    pub base_token_index: u16,
    pub quote_token_index: u16,
}

/// An active perpetual-futures position.
#[derive(Clone, Copy, Debug)]
pub struct PerpPosition {
    pub market_index: u16,
    /// Base lots already settled into the position.
    pub base_position_lots: i64,
    /// Quote-unit cash balance of the position, in native units.
    pub quote_position_native: Fx,
    /// Base lots in resting bids on the book.
    pub bids_base_lots: i64,
    /// Base lots in resting asks on the book.
    pub asks_base_lots: i64,
    /// Pending taker base lots not yet settled into the position.
    pub taker_base_lots: i64,
    /// Pending taker quote lots not yet settled into the position.
    pub taker_quote_lots: i64,
}

/// A margin account's active-position lists, as the health computation
/// consumes them.
#[derive(Debug)]
pub struct MangoAccount {
    pub group: AccountKey,
    pub tokens: Vec<TokenPosition>,
    pub serum3: Vec<Serum3Orders>,
    pub perps: Vec<PerpPosition>,
}

/// Why a health computation failed.  Every failure aborts the enclosing
/// operation; the engine has no partial-success mode.
#[derive(Clone, Copy, Debug, PartialEq, Eq, Structural)]
pub enum HealthError {
    /// The retriever's input record list has the wrong size or shape.
    WrongAccountCount,
    /// A resolved record's key, group, index or payload kind does not match
    /// what was expected at its slot.
    AccountMismatch,
    /// An active position references a token absent from the ingested set.
    TokenInfoNotFound,
    /// An active position references a perp market absent from the ingested
    /// set.
    PerpPositionNotFound,
    /// A fixed-point or integer operation over- or underflowed.
    ArithmeticOverflow,
}

} // verus!
