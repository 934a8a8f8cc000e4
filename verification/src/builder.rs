//! Building a [`HealthCache`] from an account's active positions and a
//! retriever, and the one-call health computations on top of it.
//!
//! The `spec_` functions mirror the construction exactly, step by step, in
//! the order the executable code performs it, so that every overflow check
//! and every failure is pinned to the input that causes it.

use vstd::prelude::*;

use crate::fx::{checked_add_val, checked_mul_val, checked_sub_val, Fx, SCALE};
use crate::health::{
    spec_find_token, spec_health, find_token_info_index, HealthCache, HealthType, PerpInfo,
    Serum3Info, TokenInfo,
};
use crate::records::{
    AccountRecord, HealthError, MangoAccount, OpenOrders, PerpMarket, PerpPosition,
};
use crate::retriever::{
    new_fixed_order_account_retriever, AccountRetriever, FixedOrderAccountRetriever,
};

verus! {

pub open spec fn fits_i64(v: int) -> bool {
    i64::MIN <= v <= i64::MAX
}

/// The token entries after ingesting the first `n` active token positions:
/// for each, the bank's weights, the oracle price, and the position's native
/// amount converted to reference-unit value.
pub open spec fn spec_token_infos_built<R: AccountRetriever>(
    account: MangoAccount,
    retriever: R,
    n: int,
) -> Result<Seq<TokenInfo>, HealthError>
    decreases n,
{
    if n <= 0 {
        Ok(Seq::empty())
    } else {
        match spec_token_infos_built(account, retriever, n - 1) {
            Err(e) => Err(e),
            Ok(infos) => {
                let position = account.tokens@[n - 1];
                match retriever.spec_bank_and_oracle(account.group, n - 1, position.token_index) {
                    Err(e) => Err(e),
                    Ok(pair) => match checked_mul_val(position.native@, pair.1@) {
                        None => Err(HealthError::ArithmeticOverflow),
                        Some(balance) => Ok(
                            infos.push(
                                TokenInfo {
                                    token_index: pair.0.token_index,
                                    maint_asset_weight: pair.0.maint_asset_weight,
                                    init_asset_weight: pair.0.init_asset_weight,
                                    maint_liab_weight: pair.0.maint_liab_weight,
                                    init_liab_weight: pair.0.init_liab_weight,
                                    oracle_price: pair.1,
                                    balance: Fx { bits: balance as i128 },
                                    serum3_max_reserved: Fx { bits: 0 },
                                },
                            ),
                        ),
                    },
                }
            },
        }
    }
}

/// One spot market's ingestion: credit both sides' freely withdrawable
/// funds to their balances, then charge the market's total reserved value to
/// both sides' worst-case reservation aggregate.  Returns the updated token
/// entries and the reserved value.
pub open spec fn spec_serum3_step(
    tokens: Seq<TokenInfo>,
    oo: OpenOrders,
    base_index: int,
    quote_index: int,
) -> Result<(Seq<TokenInfo>, Fx), HealthError> {
    let base_info = tokens[base_index];
    if oo.native_pc_free + oo.referrer_rebates_accrued > u64::MAX {
        Err(HealthError::ArithmeticOverflow)
    } else {
        let base_free = (oo.native_coin_free as int) * (SCALE as int);
        let quote_free = (oo.native_pc_free + oo.referrer_rebates_accrued) * (SCALE as int);
        match checked_mul_val(base_free, base_info.oracle_price@) {
            None => Err(HealthError::ArithmeticOverflow),
            Some(base_credit) => match checked_add_val(base_info.balance@, base_credit) {
                None => Err(HealthError::ArithmeticOverflow),
                Some(new_base_balance) => {
                    let tokens1 = tokens.update(
                        base_index,
                        TokenInfo { balance: Fx { bits: new_base_balance as i128 }, ..base_info },
                    );
                    let quote_info = tokens1[quote_index];
                    match checked_mul_val(quote_free, quote_info.oracle_price@) {
                        None => Err(HealthError::ArithmeticOverflow),
                        Some(quote_credit) => match checked_add_val(
                            quote_info.balance@,
                            quote_credit,
                        ) {
                            None => Err(HealthError::ArithmeticOverflow),
                            Some(new_quote_balance) => {
                                let tokens2 = tokens1.update(
                                    quote_index,
                                    TokenInfo {
                                        balance: Fx { bits: new_quote_balance as i128 },
                                        ..quote_info
                                    },
                                );
                                if oo.native_coin_total < oo.native_coin_free {
                                    Err(HealthError::ArithmeticOverflow)
                                } else if oo.native_pc_total < oo.native_pc_free {
                                    Err(HealthError::ArithmeticOverflow)
                                } else {
                                    let reserved_base = (oo.native_coin_total
                                        - oo.native_coin_free) * (SCALE as int);
                                    let reserved_quote = (oo.native_pc_total - oo.native_pc_free)
                                        * (SCALE as int);
                                    match checked_mul_val(reserved_base, base_info.oracle_price@) {
                                        None => Err(HealthError::ArithmeticOverflow),
                                        Some(rb) => match checked_mul_val(
                                            reserved_quote,
                                            quote_info.oracle_price@,
                                        ) {
                                            None => Err(HealthError::ArithmeticOverflow),
                                            Some(rq) => match checked_add_val(rb, rq) {
                                                None => Err(HealthError::ArithmeticOverflow),
                                                Some(reserved_val) => {
                                                    let base_info2 = tokens2[base_index];
                                                    match checked_add_val(
                                                        base_info2.serum3_max_reserved@,
                                                        reserved_val,
                                                    ) {
                                                        None => Err(HealthError::ArithmeticOverflow),
                                                        Some(base_res) => {
                                                            let tokens3 = tokens2.update(
                                                                base_index,
                                                                TokenInfo {
                                                                    serum3_max_reserved: Fx {
                                                                        bits: base_res as i128,
                                                                    },
                                                                    ..base_info2
                                                                },
                                                            );
                                                            let quote_info2 = tokens3[quote_index];
                                                            match checked_add_val(
                                                                quote_info2.serum3_max_reserved@,
                                                                reserved_val,
                                                            ) {
                                                                None => Err(
                                                                    HealthError::ArithmeticOverflow,
                                                                ),
                                                                Some(quote_res) => Ok(
                                                                    (
                                                                        tokens3.update(
                                                                            quote_index,
                                                                            TokenInfo {
                                                                                serum3_max_reserved:
                                                                                    Fx {
                                                                                    bits: quote_res
                                                                                        as i128,
                                                                                },
                                                                                ..quote_info2
                                                                            },
                                                                        ),
                                                                        Fx {
                                                                            bits: reserved_val
                                                                                as i128,
                                                                        },
                                                                    ),
                                                                ),
                                                            }
                                                        },
                                                    }
                                                },
                                            },
                                        },
                                    }
                                }
                            },
                        },
                    }
                },
            },
        }
    }
}

/// The token entries and spot-market entries after ingesting the first `n`
/// active spot-market memberships, starting from the token entries
/// `tokens0`.
pub open spec fn spec_serum3_built<R: AccountRetriever>(
    account: MangoAccount,
    retriever: R,
    tokens0: Seq<TokenInfo>,
    n: int,
) -> Result<(Seq<TokenInfo>, Seq<Serum3Info>), HealthError>
    decreases n,
{
    if n <= 0 {
        Ok((tokens0, Seq::empty()))
    } else {
        match spec_serum3_built(account, retriever, tokens0, n - 1) {
            Err(e) => Err(e),
            Ok(state) => {
                let serum_account = account.serum3@[n - 1];
                match retriever.spec_serum_oo(n - 1, serum_account.open_orders) {
                    Err(e) => Err(e),
                    Ok(oo) => match spec_find_token(state.0, serum_account.base_token_index) {
                        None => Err(HealthError::TokenInfoNotFound),
                        Some(base_index) => match spec_find_token(
                            state.0,
                            serum_account.quote_token_index,
                        ) {
                            None => Err(HealthError::TokenInfoNotFound),
                            Some(quote_index) => match spec_serum3_step(
                                state.0,
                                oo,
                                base_index,
                                quote_index,
                            ) {
                                Err(e) => Err(e),
                                Ok(updated) => Ok(
                                    (
                                        updated.0,
                                        state.1.push(
                                            Serum3Info {
                                                reserved: updated.1,
                                                base_index: base_index as usize,
                                                quote_index: quote_index as usize,
                                            },
                                        ),
                                    ),
                                ),
                            },
                        },
                    },
                }
            },
        }
    }
}

/// One perp position's ingestion: pick the scenario (all resting bids fill
/// vs all resting asks fill) with the larger absolute net base exposure, and
/// store the resulting base and quote values under that scenario.  The
/// choice does not depend on the health type; that this is sound rests on
/// the weights satisfying `asset = 1 - x`, `liab = 1 + x`.
pub open spec fn spec_perp_step(
    tokens: Seq<TokenInfo>,
    perp_account: PerpPosition,
    perp_market: PerpMarket,
) -> Result<PerpInfo, HealthError> {
    match spec_find_token(tokens, perp_market.base_token_index) {
        None => Err(HealthError::TokenInfoNotFound),
        Some(base_index) => {
            let base_info = tokens[base_index];
            let base_lot_size = (perp_market.base_lot_size as int) * (SCALE as int);
            let base_lots = perp_account.base_position_lots + perp_account.taker_base_lots;
            if !fits_i64(base_lots) {
                Err(HealthError::ArithmeticOverflow)
            } else {
                let taker_quote_lots = perp_account.taker_quote_lots
                    * perp_market.quote_lot_size;
                if !fits_i64(taker_quote_lots) {
                    Err(HealthError::ArithmeticOverflow)
                } else {
                    match checked_add_val(
                        perp_account.quote_position_native@,
                        taker_quote_lots * (SCALE as int),
                    ) {
                        None => Err(HealthError::ArithmeticOverflow),
                        Some(quote_current) => {
                            let bids_net_lots = base_lots + perp_account.bids_base_lots;
                            let asks_net_lots = base_lots - perp_account.asks_base_lots;
                            if !fits_i64(bids_net_lots) {
                                Err(HealthError::ArithmeticOverflow)
                            } else if !fits_i64(asks_net_lots) {
                                Err(HealthError::ArithmeticOverflow)
                            } else {
                                match checked_mul_val(base_lot_size, base_info.oracle_price@) {
                                    None => Err(HealthError::ArithmeticOverflow),
                                    Some(lots_to_quote) => {
                                        if bids_net_lots == i64::MIN {
                                            Err(HealthError::ArithmeticOverflow)
                                        } else if asks_net_lots == i64::MIN {
                                            Err(HealthError::ArithmeticOverflow)
                                        } else {
                                            let bids_abs = if bids_net_lots < 0 {
                                                -bids_net_lots
                                            } else {
                                                bids_net_lots
                                            };
                                            let asks_abs = if asks_net_lots < 0 {
                                                -asks_net_lots
                                            } else {
                                                asks_net_lots
                                            };
                                            if bids_abs > asks_abs {
                                                spec_perp_scenario(
                                                    perp_market,
                                                    bids_net_lots * (SCALE as int),
                                                    (perp_account.bids_base_lots as int) * (
                                                    SCALE as int),
                                                    lots_to_quote,
                                                    quote_current,
                                                    true,
                                                )
                                            } else {
                                                spec_perp_scenario(
                                                    perp_market,
                                                    asks_net_lots * (SCALE as int),
                                                    (perp_account.asks_base_lots as int) * (
                                                    SCALE as int),
                                                    lots_to_quote,
                                                    quote_current,
                                                    false,
                                                )
                                            }
                                        }
                                    },
                                }
                            }
                        },
                    }
                }
            }
        },
    }
}

/// The base and quote values once a scenario is chosen: the net exposure is
/// priced to reference units, and the quote balance pays for executed bids
/// (`bids_fill`) or is paid by executed asks.
pub open spec fn spec_perp_scenario(
    perp_market: PerpMarket,
    net_lots_val: int,
    resting_lots_val: int,
    lots_to_quote: int,
    quote_current: int,
    bids_fill: bool,
) -> Result<PerpInfo, HealthError> {
    match checked_mul_val(net_lots_val, lots_to_quote) {
        None => Err(HealthError::ArithmeticOverflow),
        Some(base_val) => match checked_mul_val(resting_lots_val, lots_to_quote) {
            None => Err(HealthError::ArithmeticOverflow),
            Some(notional) => {
                let quote_val = if bids_fill {
                    checked_sub_val(quote_current, notional)
                } else {
                    checked_add_val(quote_current, notional)
                };
                match quote_val {
                    None => Err(HealthError::ArithmeticOverflow),
                    Some(q) => Ok(
                        PerpInfo {
                            init_asset_weight: perp_market.init_asset_weight,
                            init_liab_weight: perp_market.init_liab_weight,
                            maint_asset_weight: perp_market.maint_asset_weight,
                            maint_liab_weight: perp_market.maint_liab_weight,
                            base: Fx { bits: base_val as i128 },
                            quote: Fx { bits: q as i128 },
                        },
                    ),
                }
            },
        },
    }
}

/// The perp entries after ingesting the first `n` active perp positions,
/// against the final token entries `tokens`.
pub open spec fn spec_perps_built<R: AccountRetriever>(
    account: MangoAccount,
    retriever: R,
    tokens: Seq<TokenInfo>,
    n: int,
) -> Result<Seq<PerpInfo>, HealthError>
    decreases n,
{
    if n <= 0 {
        Ok(Seq::empty())
    } else {
        match spec_perps_built(account, retriever, tokens, n - 1) {
            Err(e) => Err(e),
            Ok(infos) => {
                let perp_account = account.perps@[n - 1];
                match retriever.spec_perp_market(account.group, n - 1, perp_account.market_index) {
                    Err(e) => Err(e),
                    Ok(perp_market) => match spec_perp_step(tokens, perp_account, perp_market) {
                        Err(e) => Err(e),
                        Ok(info) => Ok(infos.push(info)),
                    },
                }
            },
        }
    }
}

/// Mirror of [`new_health_cache`]: the three aggregate lists, or the error
/// the construction fails with.
pub open spec fn spec_new_health_cache<R: AccountRetriever>(
    account: MangoAccount,
    retriever: R,
) -> Result<(Seq<TokenInfo>, Seq<Serum3Info>, Seq<PerpInfo>), HealthError> {
    match spec_token_infos_built(account, retriever, account.tokens@.len() as int) {
        Err(e) => Err(e),
        Ok(tokens0) => match spec_serum3_built(
            account,
            retriever,
            tokens0,
            account.serum3@.len() as int,
        ) {
            Err(e) => Err(e),
            Ok(state) => match spec_perps_built(
                account,
                retriever,
                state.0,
                account.perps@.len() as int,
            ) {
                Err(e) => Err(e),
                Ok(perps) => Ok((state.0, state.1, perps)),
            },
        },
    }
}

proof fn lemma_tokens_built_err<R: AccountRetriever>(
    account: MangoAccount,
    retriever: R,
    n: int,
    m: int,
)
    requires
        0 <= n <= m,
        spec_token_infos_built(account, retriever, n) is Err,
    ensures
        spec_token_infos_built(account, retriever, m) == spec_token_infos_built(
            account,
            retriever,
            n,
        ),
    decreases m,
{
    if m > n {
        lemma_tokens_built_err(account, retriever, n, m - 1);
    }
}

proof fn lemma_serum3_built_err<R: AccountRetriever>(
    account: MangoAccount,
    retriever: R,
    tokens0: Seq<TokenInfo>,
    n: int,
    m: int,
)
    requires
        0 <= n <= m,
        spec_serum3_built(account, retriever, tokens0, n) is Err,
    ensures
        spec_serum3_built(account, retriever, tokens0, m) == spec_serum3_built(
            account,
            retriever,
            tokens0,
            n,
        ),
    decreases m,
{
    if m > n {
        lemma_serum3_built_err(account, retriever, tokens0, n, m - 1);
    }
}

proof fn lemma_perps_built_err<R: AccountRetriever>(
    account: MangoAccount,
    retriever: R,
    tokens: Seq<TokenInfo>,
    n: int,
    m: int,
)
    requires
        0 <= n <= m,
        spec_perps_built(account, retriever, tokens, n) is Err,
    ensures
        spec_perps_built(account, retriever, tokens, m) == spec_perps_built(
            account,
            retriever,
            tokens,
            n,
        ),
    decreases m,
{
    if m > n {
        lemma_perps_built_err(account, retriever, tokens, n, m - 1);
    }
}

fn checked_abs_i64(v: i64) -> (r: Option<i64>)
    ensures
        match r {
            Some(a) => v != i64::MIN && a == (if v < 0 {
                -v as int
            } else {
                v as int
            }),
            None => v == i64::MIN,
        },
{
    if v == i64::MIN {
        None
    } else if v < 0 {
        Some(-v)
    } else {
        Some(v)
    }
}

/// Applies one spot market's free and reserved funds to the token entries;
/// on failure the entries may be partially updated and the caller abandons
/// them.
fn ingest_serum3(
    token_infos: &mut Vec<TokenInfo>,
    oo: &OpenOrders,
    base_index: usize,
    quote_index: usize,
) -> (r: Result<Fx, HealthError>)
    requires
        base_index < old(token_infos)@.len(),
        quote_index < old(token_infos)@.len(),
    ensures
        match spec_serum3_step(old(token_infos)@, *oo, base_index as int, quote_index as int) {
            Ok(updated) => r matches Ok(f) && f == updated.1 && final(token_infos)@ == updated.0
                && final(token_infos)@.len() == old(token_infos)@.len(),
            Err(e) => r matches Err(e2) && e2 == e,
        },
{
    let base_info = token_infos[base_index];
    let base_free = Fx::from_u64(oo.native_coin_free);
    let quote_free_native = match oo.native_pc_free.checked_add(oo.referrer_rebates_accrued) {
        Some(v) => v,
        None => {
            return Err(HealthError::ArithmeticOverflow);
        },
    };
    let quote_free = Fx::from_u64(quote_free_native);
    let base_credit = match base_free.checked_mul(base_info.oracle_price) {
        Some(v) => v,
        None => {
            return Err(HealthError::ArithmeticOverflow);
        },
    };
    let new_base_balance = match base_info.balance.checked_add(base_credit) {
        Some(v) => v,
        None => {
            return Err(HealthError::ArithmeticOverflow);
        },
    };
    token_infos[base_index] = TokenInfo { balance: new_base_balance, ..base_info };
    let quote_info = token_infos[quote_index];
    let quote_credit = match quote_free.checked_mul(quote_info.oracle_price) {
        Some(v) => v,
        None => {
            return Err(HealthError::ArithmeticOverflow);
        },
    };
    let new_quote_balance = match quote_info.balance.checked_add(quote_credit) {
        Some(v) => v,
        None => {
            return Err(HealthError::ArithmeticOverflow);
        },
    };
    token_infos[quote_index] = TokenInfo { balance: new_quote_balance, ..quote_info };
    let reserved_base_native = match oo.native_coin_total.checked_sub(oo.native_coin_free) {
        Some(v) => v,
        None => {
            return Err(HealthError::ArithmeticOverflow);
        },
    };
    let reserved_quote_native = match oo.native_pc_total.checked_sub(oo.native_pc_free) {
        Some(v) => v,
        None => {
            return Err(HealthError::ArithmeticOverflow);
        },
    };
    let reserved_base = match Fx::from_u64(reserved_base_native).checked_mul(
        base_info.oracle_price,
    ) {
        Some(v) => v,
        None => {
            return Err(HealthError::ArithmeticOverflow);
        },
    };
    let reserved_quote = match Fx::from_u64(reserved_quote_native).checked_mul(
        quote_info.oracle_price,
    ) {
        Some(v) => v,
        None => {
            return Err(HealthError::ArithmeticOverflow);
        },
    };
    let reserved_balance = match reserved_base.checked_add(reserved_quote) {
        Some(v) => v,
        None => {
            return Err(HealthError::ArithmeticOverflow);
        },
    };
    let base_info2 = token_infos[base_index];
    let new_base_reserved = match base_info2.serum3_max_reserved.checked_add(reserved_balance) {
        Some(v) => v,
        None => {
            return Err(HealthError::ArithmeticOverflow);
        },
    };
    token_infos[base_index] = TokenInfo { serum3_max_reserved: new_base_reserved, ..base_info2 };
    let quote_info2 = token_infos[quote_index];
    let new_quote_reserved = match quote_info2.serum3_max_reserved.checked_add(reserved_balance) {
        Some(v) => v,
        None => {
            return Err(HealthError::ArithmeticOverflow);
        },
    };
    token_infos[quote_index] = TokenInfo { serum3_max_reserved: new_quote_reserved, ..quote_info2 };
    Ok(reserved_balance)
}

/// Computes one perp position's aggregate against the token entries.
fn ingest_perp(
    token_infos: &Vec<TokenInfo>,
    perp_account: &PerpPosition,
    perp_market: &PerpMarket,
) -> (r: Result<PerpInfo, HealthError>)
    ensures
        r == spec_perp_step(token_infos@, *perp_account, *perp_market),
{
    let base_index = match find_token_info_index(token_infos, perp_market.base_token_index) {
        Ok(i) => i,
        Err(e) => {
            return Err(e);
        },
    };
    let base_info = &token_infos[base_index];
    let base_lot_size = Fx::from_i64(perp_market.base_lot_size);
    let base_lots = match perp_account.base_position_lots.checked_add(
        perp_account.taker_base_lots,
    ) {
        Some(v) => v,
        None => {
            return Err(HealthError::ArithmeticOverflow);
        },
    };
    let taker_quote_lots = match perp_account.taker_quote_lots.checked_mul(
        perp_market.quote_lot_size,
    ) {
        Some(v) => v,
        None => {
            return Err(HealthError::ArithmeticOverflow);
        },
    };
    let taker_quote = Fx::from_i64(taker_quote_lots);
    let quote_current = match perp_account.quote_position_native.checked_add(taker_quote) {
        Some(v) => v,
        None => {
            return Err(HealthError::ArithmeticOverflow);
        },
    };
    let bids_net_lots = match base_lots.checked_add(perp_account.bids_base_lots) {
        Some(v) => v,
        None => {
            return Err(HealthError::ArithmeticOverflow);
        },
    };
    let asks_net_lots = match base_lots.checked_sub(perp_account.asks_base_lots) {
        Some(v) => v,
        None => {
            return Err(HealthError::ArithmeticOverflow);
        },
    };
    let lots_to_quote = match base_lot_size.checked_mul(base_info.oracle_price) {
        Some(v) => v,
        None => {
            return Err(HealthError::ArithmeticOverflow);
        },
    };
    let bids_abs = match checked_abs_i64(bids_net_lots) {
        Some(v) => v,
        None => {
            return Err(HealthError::ArithmeticOverflow);
        },
    };
    let asks_abs = match checked_abs_i64(asks_net_lots) {
        Some(v) => v,
        None => {
            return Err(HealthError::ArithmeticOverflow);
        },
    };
    let (net_val, resting_val, bids_fill) = if bids_abs > asks_abs {
        (
            Fx::from_i64(bids_net_lots),
            Fx::from_i64(perp_account.bids_base_lots),
            true,
        )
    } else {
        (
            Fx::from_i64(asks_net_lots),
            Fx::from_i64(perp_account.asks_base_lots),
            false,
        )
    };
    let base = match net_val.checked_mul(lots_to_quote) {
        Some(v) => v,
        None => {
            return Err(HealthError::ArithmeticOverflow);
        },
    };
    let notional = match resting_val.checked_mul(lots_to_quote) {
        Some(v) => v,
        None => {
            return Err(HealthError::ArithmeticOverflow);
        },
    };
    let quote = if bids_fill {
        match quote_current.checked_sub(notional) {
            Some(v) => v,
            None => {
                return Err(HealthError::ArithmeticOverflow);
            },
        }
    } else {
        match quote_current.checked_add(notional) {
            Some(v) => v,
            None => {
                return Err(HealthError::ArithmeticOverflow);
            },
        }
    };
    Ok(
        PerpInfo {
            init_asset_weight: perp_market.init_asset_weight,
            init_liab_weight: perp_market.init_liab_weight,
            maint_asset_weight: perp_market.maint_asset_weight,
            maint_liab_weight: perp_market.maint_liab_weight,
            base,
            quote,
        },
    )
}

/// Builds a [`HealthCache`] for an account: walks the three active-position
/// lists, pulling records from the retriever, and aggregates everything in
/// reference units.
pub fn new_health_cache<R: AccountRetriever>(account: &MangoAccount, retriever: &R) -> (r: Result<
    HealthCache,
    HealthError,
>)
    requires
        forall|i: int| 0 <= i < account.tokens@.len() ==> retriever.token_slot_ok(i),
        forall|i: int| 0 <= i < account.serum3@.len() ==> retriever.serum_slot_ok(i),
        forall|i: int| 0 <= i < account.perps@.len() ==> retriever.perp_slot_ok(i),
        forall|i: int|
            0 <= i < account.serum3@.len() ==> (#[trigger] account.serum3@[i]).base_token_index
                != account.serum3@[i].quote_token_index,
    ensures
        match spec_new_health_cache(*account, *retriever) {
            Ok(parts) => r matches Ok(c) && c.token_infos@ == parts.0 && c.serum3_infos@ == parts.1
                && c.perp_infos@ == parts.2 && c.wf(),
            Err(e) => r matches Err(e2) && e2 == e,
        },
{
    let ghost acc = *account;
    let ghost ret = *retriever;
    let mut token_infos: Vec<TokenInfo> = Vec::new();
    let mut i: usize = 0;
    while i < account.tokens.len()
        invariant
            0 <= i <= account.tokens@.len(),
            acc == *account,
            ret == *retriever,
            forall|k: int| 0 <= k < acc.tokens@.len() ==> ret.token_slot_ok(k),
            spec_token_infos_built(acc, ret, i as int) == Ok::<Seq<TokenInfo>, HealthError>(
                token_infos@,
            ),
        decreases account.tokens@.len() - i,
    {
        let position = &account.tokens[i];
        let pair = match retriever.bank_and_oracle(account.group, i, position.token_index) {
            Ok(x) => x,
            Err(e) => {
                proof {
                    lemma_tokens_built_err(acc, ret, i + 1, acc.tokens@.len() as int);
                }
                return Err(e);
            },
        };
        let balance = match position.native.checked_mul(pair.1) {
            Some(b) => b,
            None => {
                proof {
                    lemma_tokens_built_err(acc, ret, i + 1, acc.tokens@.len() as int);
                }
                return Err(HealthError::ArithmeticOverflow);
            },
        };
        token_infos.push(
            TokenInfo {
                token_index: pair.0.token_index,
                maint_asset_weight: pair.0.maint_asset_weight,
                init_asset_weight: pair.0.init_asset_weight,
                maint_liab_weight: pair.0.maint_liab_weight,
                init_liab_weight: pair.0.init_liab_weight,
                oracle_price: pair.1,
                balance,
                serum3_max_reserved: Fx::zero(),
            },
        );
        i = i + 1;
    }
    let ghost tokens0 = token_infos@;
    let mut serum3_infos: Vec<Serum3Info> = Vec::new();
    let mut i: usize = 0;
    while i < account.serum3.len()
        invariant
            0 <= i <= account.serum3@.len(),
            acc == *account,
            ret == *retriever,
            forall|k: int| 0 <= k < acc.serum3@.len() ==> ret.serum_slot_ok(k),
            spec_token_infos_built(acc, ret, acc.tokens@.len() as int) == Ok::<
                Seq<TokenInfo>,
                HealthError,
            >(tokens0),
            spec_serum3_built(acc, ret, tokens0, i as int) == Ok::<
                (Seq<TokenInfo>, Seq<Serum3Info>),
                HealthError,
            >((token_infos@, serum3_infos@)),
            forall|k: int|
                0 <= k < serum3_infos@.len() ==> (#[trigger] serum3_infos@[k]).base_index
                    < token_infos@.len() && serum3_infos@[k].quote_index < token_infos@.len(),
        decreases account.serum3@.len() - i,
    {
        let serum_account = &account.serum3[i];
        let oo = match retriever.serum_oo(i, serum_account.open_orders) {
            Ok(x) => x,
            Err(e) => {
                proof {
                    lemma_serum3_built_err(acc, ret, tokens0, i + 1, acc.serum3@.len() as int);
                }
                return Err(e);
            },
        };
        let base_index = match find_token_info_index(&token_infos, serum_account.base_token_index) {
            Ok(x) => x,
            Err(e) => {
                proof {
                    lemma_serum3_built_err(acc, ret, tokens0, i + 1, acc.serum3@.len() as int);
                }
                return Err(e);
            },
        };
        let quote_index = match find_token_info_index(
            &token_infos,
            serum_account.quote_token_index,
        ) {
            Ok(x) => x,
            Err(e) => {
                proof {
                    lemma_serum3_built_err(acc, ret, tokens0, i + 1, acc.serum3@.len() as int);
                }
                return Err(e);
            },
        };
        let reserved = match ingest_serum3(&mut token_infos, &oo, base_index, quote_index) {
            Ok(f) => f,
            Err(e) => {
                proof {
                    lemma_serum3_built_err(acc, ret, tokens0, i + 1, acc.serum3@.len() as int);
                }
                return Err(e);
            },
        };
        serum3_infos.push(Serum3Info { reserved, base_index, quote_index });
        i = i + 1;
    }
    let ghost tokens_final = token_infos@;
    let ghost serums_final = serum3_infos@;
    let mut perp_infos: Vec<PerpInfo> = Vec::new();
    let mut i: usize = 0;
    while i < account.perps.len()
        invariant
            0 <= i <= account.perps@.len(),
            acc == *account,
            ret == *retriever,
            forall|k: int| 0 <= k < acc.perps@.len() ==> ret.perp_slot_ok(k),
            tokens_final == token_infos@,
            serums_final == serum3_infos@,
            spec_token_infos_built(acc, ret, acc.tokens@.len() as int) == Ok::<
                Seq<TokenInfo>,
                HealthError,
            >(tokens0),
            spec_serum3_built(acc, ret, tokens0, acc.serum3@.len() as int) == Ok::<
                (Seq<TokenInfo>, Seq<Serum3Info>),
                HealthError,
            >((tokens_final, serums_final)),
            forall|k: int|
                0 <= k < serum3_infos@.len() ==> (#[trigger] serum3_infos@[k]).base_index
                    < token_infos@.len() && serum3_infos@[k].quote_index < token_infos@.len(),
            spec_perps_built(acc, ret, tokens_final, i as int) == Ok::<Seq<PerpInfo>, HealthError>(
                perp_infos@,
            ),
        decreases account.perps@.len() - i,
    {
        let perp_account = &account.perps[i];
        let perp_market = match retriever.perp_market(account.group, i, perp_account.market_index) {
            Ok(x) => x,
            Err(e) => {
                proof {
                    lemma_perps_built_err(acc, ret, tokens_final, i + 1, acc.perps@.len() as int);
                }
                return Err(e);
            },
        };
        let perp_info = match ingest_perp(&token_infos, perp_account, &perp_market) {
            Ok(x) => x,
            Err(e) => {
                proof {
                    lemma_perps_built_err(acc, ret, tokens_final, i + 1, acc.perps@.len() as int);
                }
                return Err(e);
            },
        };
        perp_infos.push(perp_info);
        i = i + 1;
    }
    Ok(HealthCache { token_infos, serum3_infos, perp_infos })
}

/// Mirror of [`compute_health`]: the health value's bit representation, or
/// the error.
pub open spec fn spec_compute_health<R: AccountRetriever>(
    account: MangoAccount,
    retriever: R,
    health_type: HealthType,
) -> Result<int, HealthError> {
    match spec_new_health_cache(account, retriever) {
        Err(e) => Err(e),
        Ok(parts) => match spec_health(parts.0, parts.1, parts.2, health_type) {
            None => Err(HealthError::ArithmeticOverflow),
            Some(v) => Ok(v),
        },
    }
}

/// Health of an account with an arbitrary retriever: builds the cache and
/// evaluates it once.
pub fn compute_health<R: AccountRetriever>(
    account: &MangoAccount,
    health_type: HealthType,
    retriever: &R,
) -> (r: Result<Fx, HealthError>)
    requires
        forall|i: int| 0 <= i < account.tokens@.len() ==> retriever.token_slot_ok(i),
        forall|i: int| 0 <= i < account.serum3@.len() ==> retriever.serum_slot_ok(i),
        forall|i: int| 0 <= i < account.perps@.len() ==> retriever.perp_slot_ok(i),
        forall|i: int|
            0 <= i < account.serum3@.len() ==> (#[trigger] account.serum3@[i]).base_token_index
                != account.serum3@[i].quote_token_index,
    ensures
        match spec_compute_health(*account, *retriever, health_type) {
            Ok(v) => r matches Ok(f) && f@ == v,
            Err(e) => r matches Err(e2) && e2 == e,
        },
{
    let cache = match new_health_cache(account, retriever) {
        Ok(c) => c,
        Err(e) => {
            return Err(e);
        },
    };
    cache.health(health_type)
}

/// Health of an account whose records follow the fixed layout of
/// [`FixedOrderAccountRetriever`]; the record count is validated before any
/// record is read.
pub fn compute_health_from_fixed_accounts(
    account: &MangoAccount,
    health_type: HealthType,
    ais: Vec<AccountRecord>,
) -> (r: Result<Fx, HealthError>)
    requires
        forall|i: int|
            0 <= i < account.serum3@.len() ==> (#[trigger] account.serum3@[i]).base_token_index
                != account.serum3@[i].quote_token_index,
    ensures
        ({
            let expected = 2 * account.tokens@.len() + account.perps@.len()
                + account.serum3@.len();
            &&& (ais@.len() != expected ==> (r matches Err(e) && e == (if expected <= usize::MAX {
                HealthError::WrongAccountCount
            } else {
                HealthError::ArithmeticOverflow
            })))
            &&& (ais@.len() == expected ==> exists|q: FixedOrderAccountRetriever|
                {
                    &&& #[trigger] q.ais@ == ais@
                    &&& q.n_banks == account.tokens@.len()
                    &&& q.begin_perp == 2 * account.tokens@.len()
                    &&& q.begin_serum3 == 2 * account.tokens@.len() + account.perps@.len()
                    &&& match spec_compute_health(*account, q, health_type) {
                        Ok(v) => r matches Ok(f) && f@ == v,
                        Err(e) => r matches Err(e2) && e2 == e,
                    }
                })
        }),
{
    let retriever = match new_fixed_order_account_retriever(ais, account) {
        Ok(x) => x,
        Err(e) => {
            return Err(e);
        },
    };
    compute_health(account, health_type, &retriever)
}

} // verus!
