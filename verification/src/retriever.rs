//! Locating the bank, oracle, perp-market and open-orders records one
//! account's health computation needs, independently of how the caller laid
//! them out.
//!
//! Two variants exist.  [`FixedOrderAccountRetriever`] expects the records in
//! a caller-guaranteed order and resolves every lookup by index arithmetic.
//! [`ScanningAccountRetriever`] accepts a record list of unknown composition,
//! classifies it once with two linear passes and resolves lookups through
//! index maps; it also offers simultaneous access to two distinct bank
//! records by returning their slots, which callers read and write through
//! [`ScanningAccountRetriever::bank_at`] and
//! [`ScanningAccountRetriever::set_bank`] instead of holding two aliased
//! references.

use vstd::prelude::*;

use std::collections::HashMap;

use crate::fx::Fx;
use crate::records::{
    AccountKey, AccountRecord, Bank, HealthError, MangoAccount, OpenOrders, PerpMarket, RecordData,
};

verus! {

broadcast use vstd::std_specs::hash::group_hash_axioms;

/// How the health-cache builder finds records, independent of their layout.
///
/// The `spec_` functions are each implementation's exact model of the
/// corresponding lookup; the `_slot_ok` functions say which position slots a
/// caller may pass at all.
pub trait AccountRetriever: Sized {
    spec fn token_slot_ok(&self, account_index: int) -> bool;

    spec fn perp_slot_ok(&self, account_index: int) -> bool;

    spec fn serum_slot_ok(&self, account_index: int) -> bool;

    spec fn spec_bank_and_oracle(
        &self,
        group: AccountKey,
        account_index: int,
        token_index: u16,
    ) -> Result<(Bank, Fx), HealthError>;

    spec fn spec_perp_market(
        &self,
        group: AccountKey,
        account_index: int,
        perp_market_index: u16,
    ) -> Result<PerpMarket, HealthError>;

    spec fn spec_serum_oo(&self, account_index: int, key: AccountKey) -> Result<
        OpenOrders,
        HealthError,
    >;

    /// The bank for `token_index` at the implied slot, with the token's
    /// oracle price.
    fn bank_and_oracle(&self, group: AccountKey, account_index: usize, token_index: u16) -> (r:
        Result<(Bank, Fx), HealthError>)
        requires
            self.token_slot_ok(account_index as int),
        ensures
            r == self.spec_bank_and_oracle(group, account_index as int, token_index),
    ;

    /// The perp market for `perp_market_index` at the implied slot.
    fn perp_market(&self, group: AccountKey, account_index: usize, perp_market_index: u16) -> (r:
        Result<PerpMarket, HealthError>)
        requires
            self.perp_slot_ok(account_index as int),
        ensures
            r == self.spec_perp_market(group, account_index as int, perp_market_index),
    ;

    /// The open-orders record with the given key at the implied slot or
    /// lookup.
    fn serum_oo(&self, account_index: usize, key: AccountKey) -> (r: Result<
        OpenOrders,
        HealthError,
    >)
        requires
            self.serum_slot_ok(account_index as int),
        ensures
            r == self.spec_serum_oo(account_index as int, key),
    ;
}

/// Expects the record list in a strict order: one bank per active token
/// position, then one oracle per bank in the same order, then the perp
/// markets, then the open-orders records.
#[derive(Debug)]
pub struct FixedOrderAccountRetriever {
    pub ais: Vec<AccountRecord>,
    pub n_banks: usize,
    pub begin_perp: usize,
    pub begin_serum3: usize,
}

impl AccountRetriever for FixedOrderAccountRetriever {
    open spec fn token_slot_ok(&self, account_index: int) -> bool {
        0 <= account_index && self.n_banks + account_index < self.ais@.len()
    }

    open spec fn perp_slot_ok(&self, account_index: int) -> bool {
        0 <= account_index && self.begin_perp + account_index < self.ais@.len()
    }

    open spec fn serum_slot_ok(&self, account_index: int) -> bool {
        0 <= account_index && self.begin_serum3 + account_index < self.ais@.len()
    }

    open spec fn spec_bank_and_oracle(
        &self,
        group: AccountKey,
        account_index: int,
        token_index: u16,
    ) -> Result<(Bank, Fx), HealthError> {
        match self.ais@[account_index].data {
            RecordData::Bank(bank) => if bank.group != group {
                Err(HealthError::AccountMismatch)
            } else if bank.token_index != token_index {
                Err(HealthError::AccountMismatch)
            } else {
                let oracle = self.ais@[self.n_banks + account_index];
                if bank.oracle != oracle.key {
                    Err(HealthError::AccountMismatch)
                } else {
                    match oracle.data {
                        RecordData::Oracle(o) => Ok((bank, o.price)),
                        _ => Err(HealthError::AccountMismatch),
                    }
                }
            },
            _ => Err(HealthError::AccountMismatch),
        }
    }

    open spec fn spec_perp_market(
        &self,
        group: AccountKey,
        account_index: int,
        perp_market_index: u16,
    ) -> Result<PerpMarket, HealthError> {
        match self.ais@[self.begin_perp + account_index].data {
            RecordData::PerpMarket(market) => if market.group != group {
                Err(HealthError::AccountMismatch)
            } else if market.perp_market_index != perp_market_index {
                Err(HealthError::AccountMismatch)
            } else {
                Ok(market)
            },
            _ => Err(HealthError::AccountMismatch),
        }
    }

    open spec fn spec_serum_oo(&self, account_index: int, key: AccountKey) -> Result<
        OpenOrders,
        HealthError,
    > {
        let record = self.ais@[self.begin_serum3 + account_index];
        if key != record.key {
            Err(HealthError::AccountMismatch)
        } else {
            match record.data {
                RecordData::OpenOrders(oo) => Ok(oo),
                _ => Err(HealthError::AccountMismatch),
            }
        }
    }

    fn bank_and_oracle(&self, group: AccountKey, account_index: usize, token_index: u16) -> (r:
        Result<(Bank, Fx), HealthError>) {
        proof {
            vstd::std_specs::vec::axiom_spec_len(&self.ais);
        }
        let bank = match &self.ais[account_index].data {
            RecordData::Bank(bank) => *bank,
            _ => {
                return Err(HealthError::AccountMismatch);
            },
        };
        if bank.group != group {
            return Err(HealthError::AccountMismatch);
        }
        if bank.token_index != token_index {
            return Err(HealthError::AccountMismatch);
        }
        let oracle = &self.ais[self.n_banks + account_index];
        if bank.oracle != oracle.key {
            return Err(HealthError::AccountMismatch);
        }
        match &oracle.data {
            RecordData::Oracle(o) => Ok((bank, o.price)),
            _ => Err(HealthError::AccountMismatch),
        }
    }

    fn perp_market(&self, group: AccountKey, account_index: usize, perp_market_index: u16) -> (r:
        Result<PerpMarket, HealthError>) {
        proof {
            vstd::std_specs::vec::axiom_spec_len(&self.ais);
        }
        let market = match &self.ais[self.begin_perp + account_index].data {
            RecordData::PerpMarket(market) => *market,
            _ => {
                return Err(HealthError::AccountMismatch);
            },
        };
        if market.group != group {
            return Err(HealthError::AccountMismatch);
        }
        if market.perp_market_index != perp_market_index {
            return Err(HealthError::AccountMismatch);
        }
        Ok(market)
    }

    fn serum_oo(&self, account_index: usize, key: AccountKey) -> (r: Result<
        OpenOrders,
        HealthError,
    >) {
        proof {
            vstd::std_specs::vec::axiom_spec_len(&self.ais);
        }
        let record = &self.ais[self.begin_serum3 + account_index];
        if key != record.key {
            return Err(HealthError::AccountMismatch);
        }
        match &record.data {
            RecordData::OpenOrders(oo) => Ok(*oo),
            _ => Err(HealthError::AccountMismatch),
        }
    }
}

/// Builds a [`FixedOrderAccountRetriever`] after checking that the record
/// list's length is exactly `2 * active tokens + active perps + active spot
/// markets`; no record is read before that check.
pub fn new_fixed_order_account_retriever(ais: Vec<AccountRecord>, account: &MangoAccount) -> (r:
    Result<FixedOrderAccountRetriever, HealthError>)
    ensures
        ({
            let expected = 2 * account.tokens@.len() + account.perps@.len()
                + account.serum3@.len();
            match r {
                Ok(ret) => ais@.len() == expected && ret.ais@ == ais@ && ret.n_banks
                    == account.tokens@.len() && ret.begin_perp == 2 * account.tokens@.len()
                    && ret.begin_serum3 == 2 * account.tokens@.len() + account.perps@.len(),
                Err(e) => ais@.len() != expected && e == (if expected <= usize::MAX {
                    HealthError::WrongAccountCount
                } else {
                    HealthError::ArithmeticOverflow
                }),
            }
        }),
{
    proof {
        vstd::std_specs::vec::axiom_spec_len(&ais);
    }
    let active_token_len = account.tokens.len();
    let active_serum3_len = account.serum3.len();
    let active_perp_len = account.perps.len();
    let banks_and_oracles = match active_token_len.checked_mul(2) {
        Some(v) => v,
        None => {
            return Err(HealthError::ArithmeticOverflow);
        },
    };
    let with_perps = match banks_and_oracles.checked_add(active_perp_len) {
        Some(v) => v,
        None => {
            return Err(HealthError::ArithmeticOverflow);
        },
    };
    let expected_ais = match with_perps.checked_add(active_serum3_len) {
        Some(v) => v,
        None => {
            return Err(HealthError::ArithmeticOverflow);
        },
    };
    if ais.len() != expected_ais {
        return Err(HealthError::WrongAccountCount);
    }
    Ok(
        FixedOrderAccountRetriever {
            ais,
            n_banks: active_token_len,
            begin_perp: banks_and_oracles,
            begin_serum3: with_perps,
        },
    )
}

/// Walks the records from `i` while they are banks of `group`, collecting a
/// `token index -> slot` map; stops at the first record that is not a bank
/// and fails on a bank of a foreign group.  Returns the map and the slot the
/// walk stopped at.
pub open spec fn spec_scan_banks(
    ais: Seq<AccountRecord>,
    group: AccountKey,
    i: int,
    m: Map<u16, usize>,
) -> Result<(Map<u16, usize>, int), HealthError>
    decreases ais.len() - i,
{
    if i < 0 || i >= ais.len() {
        Ok((m, i))
    } else {
        match ais[i].data {
            RecordData::Bank(bank) => if bank.group != group {
                Err(HealthError::AccountMismatch)
            } else {
                spec_scan_banks(ais, group, i + 1, m.insert(bank.token_index, i as usize))
            },
            _ => Ok((m, i)),
        }
    }
}

/// Walks the records from `i` while they are perp markets of `group`,
/// collecting a `perp market index -> slot` map; stops at the first record
/// that is not a perp market and fails on one of a foreign group.
pub open spec fn spec_scan_perps(
    ais: Seq<AccountRecord>,
    group: AccountKey,
    i: int,
    m: Map<u16, usize>,
) -> Result<Map<u16, usize>, HealthError>
    decreases ais.len() - i,
{
    if i < 0 || i >= ais.len() {
        Ok(m)
    } else {
        match ais[i].data {
            RecordData::PerpMarket(market) => if market.group != group {
                Err(HealthError::AccountMismatch)
            } else {
                spec_scan_perps(ais, group, i + 1, m.insert(market.perp_market_index, i as usize))
            },
            _ => Ok(m),
        }
    }
}

/// Mirror of [`ScanningAccountRetriever::new`]: the two index maps, or the
/// error construction fails with.
pub open spec fn spec_scanning_new(ais: Seq<AccountRecord>, group: AccountKey) -> Result<
    (Map<u16, usize>, Map<u16, usize>),
    HealthError,
> {
    match spec_scan_banks(ais, group, 0, Map::empty()) {
        Err(e) => Err(e),
        Ok((token_map, _bank_end)) => {
            let skip = 2 * (token_map.len() as int);
            if skip > usize::MAX {
                Err(HealthError::ArithmeticOverflow)
            } else if skip > ais.len() {
                Err(HealthError::WrongAccountCount)
            } else {
                match spec_scan_perps(ais, group, skip, Map::empty()) {
                    Err(e) => Err(e),
                    Ok(perp_map) => Ok((token_map, perp_map)),
                }
            }
        },
    }
}

/// First slot at or after `i` whose record carries `key`.
pub open spec fn spec_find_serum_from(ais: Seq<AccountRecord>, key: AccountKey, i: int) -> Option<
    int,
>
    decreases ais.len() - i,
{
    if i < 0 || i >= ais.len() {
        None
    } else if ais[i].key == key {
        Some(i)
    } else {
        spec_find_serum_from(ais, key, i + 1)
    }
}

/// Accepts a record list of unknown composition: an unknown number of banks
/// in any order, the same number of oracles in the same order, then perp
/// markets, then open-orders records.  Classifies the list once at
/// construction and resolves every lookup through the index maps.
///
/// A record list whose shape the construction could not have produced (a
/// slot that left the list, a payload of the wrong kind at a mapped slot)
/// makes a lookup fail with `AccountMismatch` instead of aborting the
/// process.
#[derive(Debug)]
pub struct ScanningAccountRetriever {
    pub ais: Vec<AccountRecord>,
    pub token_index_map: HashMap<u16, usize>,
    pub perp_index_map: HashMap<u16, usize>,
}

impl ScanningAccountRetriever {
    pub fn new(ais: Vec<AccountRecord>, group: AccountKey) -> (r: Result<
        ScanningAccountRetriever,
        HealthError,
    >)
        ensures
            match spec_scanning_new(ais@, group) {
                Ok(maps) => r matches Ok(ret) && ret.ais@ == ais@ && ret.token_index_map@ == maps.0
                    && ret.perp_index_map@ == maps.1,
                Err(e) => r matches Err(e2) && e2 == e,
            },
    {
        proof {
            vstd::std_specs::vec::axiom_spec_len(&ais);
        }
        let n = ais.len();
        let mut token_index_map: HashMap<u16, usize> = HashMap::new();
        let mut i: usize = 0;
        while i < n
            invariant_except_break
                i <= n,
                n == ais@.len(),
                spec_scan_banks(ais@, group, 0, Map::empty()) == spec_scan_banks(
                    ais@,
                    group,
                    i as int,
                    token_index_map@,
                ),
            ensures
                i <= n,
                n == ais@.len(),
                spec_scan_banks(ais@, group, 0, Map::empty()) == spec_scan_banks(
                    ais@,
                    group,
                    i as int,
                    token_index_map@,
                ),
                i == n || !(ais@[i as int].data matches RecordData::Bank(_)),
            decreases n - i,
        {
            let keep_scanning = match &ais[i].data {
                RecordData::Bank(bank) => {
                    if bank.group != group {
                        return Err(HealthError::AccountMismatch);
                    }
                    token_index_map.insert(bank.token_index, i);
                    i = i + 1;
                    true
                },
                _ => false,
            };
            if !keep_scanning {
                break ;
            }
        }
        let ghost bank_end = i as int;
        proof {
            assert(spec_scan_banks(ais@, group, bank_end, token_index_map@) == Ok::<
                (Map<u16, usize>, int),
                HealthError,
            >((token_index_map@, bank_end)));
        }
        let n_banks = token_index_map.len();
        let skip = match n_banks.checked_mul(2) {
            Some(v) => v,
            None => {
                return Err(HealthError::ArithmeticOverflow);
            },
        };
        if skip > n {
            return Err(HealthError::WrongAccountCount);
        }
        let mut perp_index_map: HashMap<u16, usize> = HashMap::new();
        let mut j: usize = skip;
        while j < n
            invariant_except_break
                skip <= j <= n,
                n == ais@.len(),
                spec_scan_banks(ais@, group, 0, Map::empty()) == Ok::<
                    (Map<u16, usize>, int),
                    HealthError,
                >((token_index_map@, bank_end)),
                skip == 2 * token_index_map@.len(),
                spec_scan_perps(ais@, group, skip as int, Map::empty()) == spec_scan_perps(
                    ais@,
                    group,
                    j as int,
                    perp_index_map@,
                ),
            ensures
                skip <= j <= n,
                n == ais@.len(),
                spec_scan_banks(ais@, group, 0, Map::empty()) == Ok::<
                    (Map<u16, usize>, int),
                    HealthError,
                >((token_index_map@, bank_end)),
                skip == 2 * token_index_map@.len(),
                spec_scan_perps(ais@, group, skip as int, Map::empty()) == spec_scan_perps(
                    ais@,
                    group,
                    j as int,
                    perp_index_map@,
                ),
                j == n || !(ais@[j as int].data matches RecordData::PerpMarket(_)),
            decreases n - j,
        {
            let keep_scanning = match &ais[j].data {
                RecordData::PerpMarket(market) => {
                    if market.group != group {
                        return Err(HealthError::AccountMismatch);
                    }
                    perp_index_map.insert(market.perp_market_index, j);
                    j = j + 1;
                    true
                },
                _ => false,
            };
            if !keep_scanning {
                break ;
            }
        }
        proof {
            assert(spec_scan_perps(ais@, group, j as int, perp_index_map@) == Ok::<
                Map<u16, usize>,
                HealthError,
            >(perp_index_map@));
        }
        Ok(ScanningAccountRetriever { ais, token_index_map, perp_index_map })
    }

    /// How many banks the classification pass recognised.
    pub fn n_banks(&self) -> (r: usize)
        ensures
            r == self.token_index_map@.len(),
    {
        self.token_index_map.len()
    }

    /// First slot of the open-orders block.
    pub fn begin_serum3(&self) -> (r: usize)
        requires
            2 * self.token_index_map@.len() + self.perp_index_map@.len() <= usize::MAX,
        ensures
            r == 2 * self.token_index_map@.len() + self.perp_index_map@.len(),
    {
        2 * self.token_index_map.len() + self.perp_index_map.len()
    }

    /// Slot of the bank for `token_index`.
    pub open spec fn spec_bank_index(&self, token_index: u16) -> Result<usize, HealthError> {
        if self.token_index_map@.contains_key(token_index) {
            Ok(self.token_index_map@[token_index])
        } else {
            Err(HealthError::TokenInfoNotFound)
        }
    }

    /// Slot of the market record for `perp_market_index`.
    pub open spec fn spec_perp_index(&self, perp_market_index: u16) -> Result<usize, HealthError> {
        if self.perp_index_map@.contains_key(perp_market_index) {
            Ok(self.perp_index_map@[perp_market_index])
        } else {
            Err(HealthError::PerpPositionNotFound)
        }
    }

    fn bank_index(&self, token_index: u16) -> (r: Result<usize, HealthError>)
        ensures
            r == self.spec_bank_index(token_index),
    {
        match self.token_index_map.get(&token_index) {
            Some(index) => Ok(*index),
            None => Err(HealthError::TokenInfoNotFound),
        }
    }

    fn perp_market_index(&self, perp_market_index: u16) -> (r: Result<usize, HealthError>)
        ensures
            r == self.spec_perp_index(perp_market_index),
    {
        match self.perp_index_map.get(&perp_market_index) {
            Some(index) => Ok(*index),
            None => Err(HealthError::PerpPositionNotFound),
        }
    }

    /// Mirror of [`ScanningAccountRetriever::scanned_bank_and_oracle`].
    pub open spec fn spec_scanned_bank_and_oracle(&self, token_index: u16) -> Result<
        (Bank, Fx),
        HealthError,
    > {
        match self.spec_bank_index(token_index) {
            Err(e) => Err(e),
            Ok(index) => {
                let n_banks = self.token_index_map@.len() as int;
                if index >= self.ais@.len() {
                    Err(HealthError::AccountMismatch)
                } else {
                    match self.ais@[index as int].data {
                        RecordData::Bank(bank) => if n_banks + index > usize::MAX {
                            Err(HealthError::ArithmeticOverflow)
                        } else if n_banks + index >= self.ais@.len() {
                            Err(HealthError::AccountMismatch)
                        } else {
                            let oracle = self.ais@[n_banks + index];
                            if bank.oracle != oracle.key {
                                Err(HealthError::AccountMismatch)
                            } else {
                                match oracle.data {
                                    RecordData::Oracle(o) => Ok((bank, o.price)),
                                    _ => Err(HealthError::AccountMismatch),
                                }
                            }
                        },
                        _ => Err(HealthError::AccountMismatch),
                    }
                }
            },
        }
    }

    /// The bank and oracle price for `token_index`, through the index map.
    pub fn scanned_bank_and_oracle(&self, token_index: u16) -> (r: Result<(Bank, Fx), HealthError>)
        ensures
            r == self.spec_scanned_bank_and_oracle(token_index),
    {
        proof {
            vstd::std_specs::vec::axiom_spec_len(&self.ais);
        }
        let index = match self.bank_index(token_index) {
            Ok(i) => i,
            Err(e) => {
                return Err(e);
            },
        };
        if index >= self.ais.len() {
            return Err(HealthError::AccountMismatch);
        }
        let bank = match &self.ais[index].data {
            RecordData::Bank(bank) => *bank,
            _ => {
                return Err(HealthError::AccountMismatch);
            },
        };
        let oracle_slot = match self.token_index_map.len().checked_add(index) {
            Some(v) => v,
            None => {
                return Err(HealthError::ArithmeticOverflow);
            },
        };
        if oracle_slot >= self.ais.len() {
            return Err(HealthError::AccountMismatch);
        }
        let oracle = &self.ais[oracle_slot];
        if bank.oracle != oracle.key {
            return Err(HealthError::AccountMismatch);
        }
        match &oracle.data {
            RecordData::Oracle(o) => Ok((bank, o.price)),
            _ => Err(HealthError::AccountMismatch),
        }
    }

    /// Mirror of [`ScanningAccountRetriever::scanned_perp_market`].
    pub open spec fn spec_scanned_perp_market(&self, perp_market_index: u16) -> Result<
        PerpMarket,
        HealthError,
    > {
        match self.spec_perp_index(perp_market_index) {
            Err(e) => Err(e),
            Ok(index) => if index >= self.ais@.len() {
                Err(HealthError::AccountMismatch)
            } else {
                match self.ais@[index as int].data {
                    RecordData::PerpMarket(market) => Ok(market),
                    _ => Err(HealthError::AccountMismatch),
                }
            },
        }
    }

    /// The perp market record for `perp_market_index`, through the index
    /// map; the payload was already validated when the map was built.
    pub fn scanned_perp_market(&self, perp_market_index: u16) -> (r: Result<
        PerpMarket,
        HealthError,
    >)
        ensures
            r == self.spec_scanned_perp_market(perp_market_index),
    {
        proof {
            vstd::std_specs::vec::axiom_spec_len(&self.ais);
        }
        let index = match self.perp_market_index(perp_market_index) {
            Ok(i) => i,
            Err(e) => {
                return Err(e);
            },
        };
        if index >= self.ais.len() {
            return Err(HealthError::AccountMismatch);
        }
        match &self.ais[index].data {
            RecordData::PerpMarket(market) => Ok(*market),
            _ => Err(HealthError::AccountMismatch),
        }
    }

    /// Mirror of [`ScanningAccountRetriever::scanned_serum_oo`].
    pub open spec fn spec_scanned_serum_oo(&self, key: AccountKey) -> Result<
        OpenOrders,
        HealthError,
    > {
        let begin = 2 * (self.token_index_map@.len() as int) + self.perp_index_map@.len();
        if begin > usize::MAX {
            Err(HealthError::ArithmeticOverflow)
        } else if begin > self.ais@.len() {
            Err(HealthError::AccountMismatch)
        } else {
            match spec_find_serum_from(self.ais@, key, begin) {
                None => Err(HealthError::AccountMismatch),
                Some(i) => match self.ais@[i].data {
                    RecordData::OpenOrders(oo) => Ok(oo),
                    _ => Err(HealthError::AccountMismatch),
                },
            }
        }
    }

    /// The open-orders record with the given key, found by a linear scan of
    /// the open-orders block.
    pub fn scanned_serum_oo(&self, key: AccountKey) -> (r: Result<OpenOrders, HealthError>)
        ensures
            r == self.spec_scanned_serum_oo(key),
    {
        proof {
            vstd::std_specs::vec::axiom_spec_len(&self.ais);
        }
        let doubled = match self.token_index_map.len().checked_mul(2) {
            Some(v) => v,
            None => {
                return Err(HealthError::ArithmeticOverflow);
            },
        };
        let begin = match doubled.checked_add(self.perp_index_map.len()) {
            Some(v) => v,
            None => {
                return Err(HealthError::ArithmeticOverflow);
            },
        };
        if begin > self.ais.len() {
            return Err(HealthError::AccountMismatch);
        }
        let mut i: usize = begin;
        while i < self.ais.len()
            invariant
                begin <= i <= self.ais@.len(),
                begin as int == 2 * (self.token_index_map@.len() as int)
                    + self.perp_index_map@.len(),
                spec_find_serum_from(self.ais@, key, begin as int) == spec_find_serum_from(
                    self.ais@,
                    key,
                    i as int,
                ),
            decreases self.ais@.len() - i,
        {
            if self.ais[i].key == key {
                proof {
                    assert(spec_find_serum_from(self.ais@, key, i as int) == Some(i as int));
                }
                return match &self.ais[i].data {
                    RecordData::OpenOrders(oo) => Ok(*oo),
                    _ => Err(HealthError::AccountMismatch),
                };
            }
            i = i + 1;
        }
        Err(HealthError::AccountMismatch)
    }
}

impl ScanningAccountRetriever {
    /// Mirror of [`ScanningAccountRetriever::banks_mut_and_oracles`].
    pub open spec fn spec_banks_mut_and_oracles(&self, token_index1: u16, token_index2: u16) -> Result<
        (usize, Fx, Option<(usize, Fx)>),
        HealthError,
    > {
        let len = self.ais@.len();
        let n_banks = self.token_index_map@.len() as int;
        if token_index1 == token_index2 {
            match self.spec_bank_index(token_index1) {
                Err(e) => Err(e),
                Ok(index) => if index >= len {
                    Err(HealthError::AccountMismatch)
                } else {
                    match self.ais@[index as int].data {
                        RecordData::Bank(bank) => if n_banks + index >= len {
                            Err(HealthError::AccountMismatch)
                        } else {
                            let oracle = self.ais@[n_banks + index];
                            if bank.oracle != oracle.key {
                                Err(HealthError::AccountMismatch)
                            } else {
                                match oracle.data {
                                    RecordData::Oracle(o) => Ok((index, o.price, None)),
                                    _ => Err(HealthError::AccountMismatch),
                                }
                            }
                        },
                        _ => Err(HealthError::AccountMismatch),
                    }
                },
            }
        } else {
            match self.spec_bank_index(token_index1) {
                Err(e) => Err(e),
                Ok(index1) => match self.spec_bank_index(token_index2) {
                    Err(e) => Err(e),
                    Ok(index2) => {
                        let first = if index1 < index2 {
                            index1 as int
                        } else {
                            index2 as int
                        };
                        let second = if index1 < index2 {
                            index2 as int
                        } else {
                            index1 as int
                        };
                        if index1 == index2 {
                            Err(HealthError::AccountMismatch)
                        } else if second >= len {
                            Err(HealthError::AccountMismatch)
                        } else {
                            match (self.ais@[first].data, self.ais@[second].data) {
                                (RecordData::Bank(bank_first), RecordData::Bank(bank_second)) => {
                                    if n_banks + first > usize::MAX || n_banks + first < second
                                        + 1 {
                                        Err(HealthError::ArithmeticOverflow)
                                    } else if n_banks + first >= len {
                                        Err(HealthError::AccountMismatch)
                                    } else if n_banks + second > usize::MAX {
                                        Err(HealthError::ArithmeticOverflow)
                                    } else if n_banks + second >= len {
                                        Err(HealthError::AccountMismatch)
                                    } else {
                                        let oracle_first = self.ais@[n_banks + first];
                                        let oracle_second = self.ais@[n_banks + second];
                                        if bank_first.oracle != oracle_first.key {
                                            Err(HealthError::AccountMismatch)
                                        } else if bank_second.oracle != oracle_second.key {
                                            Err(HealthError::AccountMismatch)
                                        } else {
                                            match (oracle_first.data, oracle_second.data) {
                                                (
                                                    RecordData::Oracle(o_first),
                                                    RecordData::Oracle(o_second),
                                                ) => if index1 < index2 {
                                                    Ok(
                                                        (
                                                            index1,
                                                            o_first.price,
                                                            Some((index2, o_second.price)),
                                                        ),
                                                    )
                                                } else {
                                                    Ok(
                                                        (
                                                            index1,
                                                            o_second.price,
                                                            Some((index2, o_first.price)),
                                                        ),
                                                    )
                                                },
                                                _ => Err(HealthError::AccountMismatch),
                                            }
                                        }
                                    }
                                },
                                _ => Err(HealthError::AccountMismatch),
                            }
                        }
                    },
                },
            }
        }
    }

    /// Simultaneous access to the banks of two tokens, for an instruction
    /// that debits one bank and credits another: returns each bank's slot
    /// and oracle price, in the caller's argument order regardless of the
    /// physical order.  The slots are read and written through
    /// [`ScanningAccountRetriever::bank_at`] and
    /// [`ScanningAccountRetriever::set_bank`]; in the degenerate case of two
    /// equal token indices one slot and `None` come back, never the same
    /// slot twice.
    pub fn banks_mut_and_oracles(&self, token_index1: u16, token_index2: u16) -> (r: Result<
        (usize, Fx, Option<(usize, Fx)>),
        HealthError,
    >)
        ensures
            r == self.spec_banks_mut_and_oracles(token_index1, token_index2),
            r matches Ok(x) ==> (x.2 is None <==> token_index1 == token_index2),
            r matches Ok(x) ==> (x.2 matches Some(y) ==> x.0 != y.0),
    {
        proof {
            vstd::std_specs::vec::axiom_spec_len(&self.ais);
        }
        let n_banks = self.token_index_map.len();
        if token_index1 == token_index2 {
            let index = match self.bank_index(token_index1) {
                Ok(i) => i,
                Err(e) => {
                    return Err(e);
                },
            };
            if index >= self.ais.len() {
                return Err(HealthError::AccountMismatch);
            }
            let bank = match &self.ais[index].data {
                RecordData::Bank(bank) => *bank,
                _ => {
                    return Err(HealthError::AccountMismatch);
                },
            };
            let oracle_slot = match n_banks.checked_add(index) {
                Some(v) => v,
                None => {
                    return Err(HealthError::AccountMismatch);
                },
            };
            if oracle_slot >= self.ais.len() {
                return Err(HealthError::AccountMismatch);
            }
            let oracle = &self.ais[oracle_slot];
            if bank.oracle != oracle.key {
                return Err(HealthError::AccountMismatch);
            }
            return match &oracle.data {
                RecordData::Oracle(o) => Ok((index, o.price, None)),
                _ => Err(HealthError::AccountMismatch),
            };
        }
        let index1 = match self.bank_index(token_index1) {
            Ok(i) => i,
            Err(e) => {
                return Err(e);
            },
        };
        let index2 = match self.bank_index(token_index2) {
            Ok(i) => i,
            Err(e) => {
                return Err(e);
            },
        };
        let (first, second) = if index1 < index2 {
            (index1, index2)
        } else {
            (index2, index1)
        };
        if index1 == index2 {
            return Err(HealthError::AccountMismatch);
        }
        if second >= self.ais.len() {
            return Err(HealthError::AccountMismatch);
        }
        let bank_first = match &self.ais[first].data {
            RecordData::Bank(bank) => *bank,
            _ => {
                return Err(HealthError::AccountMismatch);
            },
        };
        let bank_second = match &self.ais[second].data {
            RecordData::Bank(bank) => *bank,
            _ => {
                return Err(HealthError::AccountMismatch);
            },
        };
        let oracle_slot_first = match n_banks.checked_add(first) {
            Some(v) => if v < second + 1 {
                return Err(HealthError::ArithmeticOverflow);
            } else {
                v
            },
            None => {
                return Err(HealthError::ArithmeticOverflow);
            },
        };
        if oracle_slot_first >= self.ais.len() {
            return Err(HealthError::AccountMismatch);
        }
        let oracle_slot_second = match n_banks.checked_add(second) {
            Some(v) => v,
            None => {
                return Err(HealthError::ArithmeticOverflow);
            },
        };
        if oracle_slot_second >= self.ais.len() {
            return Err(HealthError::AccountMismatch);
        }
        let oracle_first = &self.ais[oracle_slot_first];
        let oracle_second = &self.ais[oracle_slot_second];
        if bank_first.oracle != oracle_first.key {
            return Err(HealthError::AccountMismatch);
        }
        if bank_second.oracle != oracle_second.key {
            return Err(HealthError::AccountMismatch);
        }
        let price_first = match &oracle_first.data {
            RecordData::Oracle(o) => o.price,
            _ => {
                return Err(HealthError::AccountMismatch);
            },
        };
        let price_second = match &oracle_second.data {
            RecordData::Oracle(o) => o.price,
            _ => {
                return Err(HealthError::AccountMismatch);
            },
        };
        if index1 < index2 {
            Ok((index1, price_first, Some((index2, price_second))))
        } else {
            Ok((index1, price_second, Some((index2, price_first))))
        }
    }

    /// The bank record stored at `slot`.
    pub open spec fn spec_bank_at(&self, slot: int) -> Result<Bank, HealthError> {
        if 0 <= slot < self.ais@.len() {
            match self.ais@[slot].data {
                RecordData::Bank(bank) => Ok(bank),
                _ => Err(HealthError::AccountMismatch),
            }
        } else {
            Err(HealthError::AccountMismatch)
        }
    }

    /// Reads the bank at a slot that
    /// [`ScanningAccountRetriever::banks_mut_and_oracles`] returned.
    pub fn bank_at(&self, slot: usize) -> (r: Result<Bank, HealthError>)
        ensures
            r == self.spec_bank_at(slot as int),
    {
        proof {
            vstd::std_specs::vec::axiom_spec_len(&self.ais);
        }
        if slot < self.ais.len() {
            match &self.ais[slot].data {
                RecordData::Bank(bank) => Ok(*bank),
                _ => Err(HealthError::AccountMismatch),
            }
        } else {
            Err(HealthError::AccountMismatch)
        }
    }

    /// Writes a bank back to a slot that
    /// [`ScanningAccountRetriever::banks_mut_and_oracles`] returned; only
    /// that slot's payload changes, its key and the index maps stay.
    pub fn set_bank(&mut self, slot: usize, bank: Bank) -> (r: Result<(), HealthError>)
        ensures
            old(self).spec_bank_at(slot as int) is Ok ==> r is Ok && final(self).ais@ == old(
                self,
            ).ais@.update(
                slot as int,
                AccountRecord { key: old(self).ais@[slot as int].key, data: RecordData::Bank(bank) },
            ),
            old(self).spec_bank_at(slot as int) is Err ==> r == Err::<(), HealthError>(
                HealthError::AccountMismatch,
            ) && final(self).ais@ == old(self).ais@,
            final(self).token_index_map == old(self).token_index_map,
            final(self).perp_index_map == old(self).perp_index_map,
    {
        proof {
            vstd::std_specs::vec::axiom_spec_len(&self.ais);
        }
        if slot < self.ais.len() {
            let key = self.ais[slot].key;
            match &self.ais[slot].data {
                RecordData::Bank(_) => {
                    self.ais[slot] = AccountRecord { key, data: RecordData::Bank(bank) };
                    Ok(())
                },
                _ => Err(HealthError::AccountMismatch),
            }
        } else {
            Err(HealthError::AccountMismatch)
        }
    }
}

impl AccountRetriever for ScanningAccountRetriever {
    open spec fn token_slot_ok(&self, account_index: int) -> bool {
        true
    }

    open spec fn perp_slot_ok(&self, account_index: int) -> bool {
        true
    }

    open spec fn serum_slot_ok(&self, account_index: int) -> bool {
        true
    }

    open spec fn spec_bank_and_oracle(
        &self,
        group: AccountKey,
        account_index: int,
        token_index: u16,
    ) -> Result<(Bank, Fx), HealthError> {
        self.spec_scanned_bank_and_oracle(token_index)
    }

    open spec fn spec_perp_market(
        &self,
        group: AccountKey,
        account_index: int,
        perp_market_index: u16,
    ) -> Result<PerpMarket, HealthError> {
        self.spec_scanned_perp_market(perp_market_index)
    }

    open spec fn spec_serum_oo(&self, account_index: int, key: AccountKey) -> Result<
        OpenOrders,
        HealthError,
    > {
        self.spec_scanned_serum_oo(key)
    }

    fn bank_and_oracle(&self, group: AccountKey, account_index: usize, token_index: u16) -> (r:
        Result<(Bank, Fx), HealthError>) {
        self.scanned_bank_and_oracle(token_index)
    }

    fn perp_market(&self, group: AccountKey, account_index: usize, perp_market_index: u16) -> (r:
        Result<PerpMarket, HealthError>) {
        self.scanned_perp_market(perp_market_index)
    }

    fn serum_oo(&self, account_index: usize, key: AccountKey) -> (r: Result<
        OpenOrders,
        HealthError,
    >) {
        self.scanned_serum_oo(key)
    }
}

} // verus!
