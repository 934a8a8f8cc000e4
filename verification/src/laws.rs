//! General properties of the health evaluation, stated over the same spec
//! functions the executable contracts use.

use vstd::prelude::*;

use vstd::arithmetic::div_mod::lemma_div_pos_is_pos;
use vstd::arithmetic::mul::lemma_mul_nonnegative;

use crate::builder::{
    spec_new_health_cache, spec_serum3_built, spec_serum3_step, spec_token_infos_built,
};
use crate::fx::{mul_down, Fx, SCALE};
use crate::health::{
    arith_result, spec_find_token, spec_find_token_from, spec_health, spec_perp_contribution,
    spec_serum3_contribution, spec_serum3_side, spec_token_contribution, HealthType, PerpInfo,
    Serum3Info, TokenInfo,
};
use crate::records::{AccountKey, HealthError, MangoAccount};
use crate::retriever::AccountRetriever;

verus! {

/// An account with no active positions has health zero, under the initial
/// and the maintenance regime alike.
pub proof fn lemma_empty_cache_health_zero(health_type: HealthType)
    ensures
        spec_health(
            Seq::<TokenInfo>::empty(),
            Seq::<Serum3Info>::empty(),
            Seq::<PerpInfo>::empty(),
            health_type,
        ) == Some(0int),
{
}

/// For a cache holding a single token entry and nothing else, health is
/// exactly the balance weighted by the asset weight when the balance is
/// nonnegative and by the liability weight when it is negative — the
/// token-contribution formula itself, for either health type.
pub proof fn lemma_single_token_health(ti: TokenInfo, health_type: HealthType)
    ensures
        spec_health(
            seq![ti],
            Seq::<Serum3Info>::empty(),
            Seq::<PerpInfo>::empty(),
            health_type,
        ) == spec_token_contribution(health_type, ti, ti.balance),
{
    let s = seq![ti];
    assert(crate::health::spec_token_fold(s, health_type, 0, 0) == Some(0int));
    assert(s[0] == ti);
    match spec_token_contribution(health_type, ti, ti.balance) {
        Some(c) => {
            assert(crate::fx::fits_bits(c));
            assert(crate::fx::checked_add_val(0, c) == Some(c));
        },
        None => {
        },
    }
}

/// The sandwich property of a spot market's reservation: its contribution
/// equals the worse (smaller) of the two sides' effects, so it never
/// exceeds the effect of realizing the reservation entirely as the more
/// favorable side and never falls below the effect of the less favorable
/// side.
pub proof fn lemma_serum3_sandwich(
    si: Serum3Info,
    tokens: Seq<TokenInfo>,
    health_type: HealthType,
    v: int,
    base_side: int,
    quote_side: int,
)
    requires
        0 <= si.base_index < tokens.len(),
        0 <= si.quote_index < tokens.len(),
        si.reserved@ != 0,
        spec_serum3_side(tokens[si.base_index as int], si.reserved@, health_type) == Some(
            base_side,
        ),
        spec_serum3_side(tokens[si.quote_index as int], si.reserved@, health_type) == Some(
            quote_side,
        ),
        spec_serum3_contribution(si, tokens, health_type) == Some(v),
    ensures
        v <= (if base_side >= quote_side {
            base_side
        } else {
            quote_side
        }),
        v >= (if base_side <= quote_side {
            base_side
        } else {
            quote_side
        }),
{
}

pub open spec fn abs_int(v: int) -> int {
    if v < 0 {
        -v
    } else {
        v
    }
}

/// The health gap between the two perp scenarios, up to the positive factor
/// price times lot size: with weights of the form `asset = 1 - x`,
/// `liab = 1 + x`, filling all bids changes health by `-x * |bids_net|`
/// relative to the no-fill position and filling all asks by
/// `-x * |asks_net|`, so the bids scenario is worse by
/// `x * (|asks_net| - |bids_net|)`.
pub open spec fn scenario_gap(x: int, bids_net: int, asks_net: int) -> int {
    x * (abs_int(asks_net) - abs_int(bids_net))
}

/// Perp scenario selection is health-type-invariant: for any two positive
/// weight deviations `x1` and `x2` (such as the Init and the Maint one),
/// the bids scenario is strictly worse under `x1` exactly when it is under
/// `x2`, and both agree with the implemented test `|bids_net| > |asks_net|`.
pub proof fn lemma_perp_scenario_type_invariant(x1: int, x2: int, bids_net: int, asks_net: int)
    ensures
        x1 > 0 && x2 > 0 ==> ((scenario_gap(x1, bids_net, asks_net) < 0) <==> (scenario_gap(
            x2,
            bids_net,
            asks_net,
        ) < 0)),
        x1 > 0 ==> ((scenario_gap(x1, bids_net, asks_net) < 0) <==> abs_int(bids_net) > abs_int(
            asks_net,
        )),
{
    let d = abs_int(asks_net) - abs_int(bids_net);
    assert(x1 > 0 ==> ((x1 * d < 0) <==> (d < 0))) by (nonlinear_arith);
    assert(x2 > 0 ==> ((x2 * d < 0) <==> (d < 0))) by (nonlinear_arith);
}

/// A perp position's health contribution is never positive: unsettled perp
/// gains cannot be borrowed against.
pub proof fn lemma_perp_contribution_nonpositive(p: PerpInfo, health_type: HealthType, v: int)
    requires
        spec_perp_contribution(p, health_type) == Some(v),
    ensures
        v <= 0,
{
}

/// Every token entry's oracle price is nonnegative.
pub open spec fn prices_nonneg(tokens: Seq<TokenInfo>) -> bool {
    forall|i: int| 0 <= i < tokens.len() ==> (#[trigger] tokens[i]).oracle_price@ >= 0
}

/// Every token entry's worst-case reservation aggregate is nonnegative.
pub open spec fn reserved_nonneg(tokens: Seq<TokenInfo>) -> bool {
    forall|i: int| 0 <= i < tokens.len() ==> (#[trigger] tokens[i]).serum3_max_reserved@ >= 0
}

proof fn lemma_mul_down_nonneg(a: int, b: int)
    requires
        a >= 0,
        b >= 0,
    ensures
        mul_down(a, b) >= 0,
{
    lemma_mul_nonnegative(a, b);
    lemma_div_pos_is_pos(a * b, SCALE as int);
}

proof fn lemma_find_token_from_in_bounds(tokens: Seq<TokenInfo>, token_index: u16, i: int)
    ensures
        spec_find_token_from(tokens, token_index, i) matches Some(j) ==> 0 <= j < tokens.len(),
    decreases tokens.len() - i,
{
    if i < 0 || i >= tokens.len() {
    } else if tokens[i].token_index == token_index {
    } else {
        lemma_find_token_from_in_bounds(tokens, token_index, i + 1);
    }
}

proof fn lemma_serum3_step_preserves_nonneg(
    tokens: Seq<TokenInfo>,
    oo: crate::records::OpenOrders,
    base_index: int,
    quote_index: int,
    updated: Seq<TokenInfo>,
    reserved: Fx,
)
    requires
        0 <= base_index < tokens.len(),
        0 <= quote_index < tokens.len(),
        prices_nonneg(tokens),
        reserved_nonneg(tokens),
        spec_serum3_step(tokens, oo, base_index, quote_index) == Ok::<
            (Seq<TokenInfo>, Fx),
            HealthError,
        >((updated, reserved)),
    ensures
        prices_nonneg(updated),
        reserved_nonneg(updated),
        reserved@ >= 0,
{
    let base_info = tokens[base_index];
    assert(oo.native_pc_free + oo.referrer_rebates_accrued <= u64::MAX);
    let base_free = (oo.native_coin_free as int) * (SCALE as int);
    let quote_free = (oo.native_pc_free + oo.referrer_rebates_accrued) * (SCALE as int);
    match crate::fx::checked_mul_val(base_free, base_info.oracle_price@) {
        None => {
            assert(false);
        },
        Some(base_credit) => {
            match crate::fx::checked_add_val(base_info.balance@, base_credit) {
                None => {
                    assert(false);
                },
                Some(new_base_balance) => {
                    let tokens1 = tokens.update(
                        base_index,
                        TokenInfo { balance: Fx { bits: new_base_balance as i128 }, ..base_info },
                    );
                    let quote_info = tokens1[quote_index];
                    match crate::fx::checked_mul_val(quote_free, quote_info.oracle_price@) {
                        None => {
                            assert(false);
                        },
                        Some(quote_credit) => {
                            match crate::fx::checked_add_val(quote_info.balance@, quote_credit) {
                                None => {
                                    assert(false);
                                },
                                Some(new_quote_balance) => {
                                    let tokens2 = tokens1.update(
                                        quote_index,
                                        TokenInfo {
                                            balance: Fx { bits: new_quote_balance as i128 },
                                            ..quote_info
                                        },
                                    );
                                    assert(oo.native_coin_total >= oo.native_coin_free);
                                    assert(oo.native_pc_total >= oo.native_pc_free);
                                    let reserved_base = (oo.native_coin_total
                                        - oo.native_coin_free) * (SCALE as int);
                                    let reserved_quote = (oo.native_pc_total - oo.native_pc_free)
                                        * (SCALE as int);
                                    match crate::fx::checked_mul_val(
                                        reserved_base,
                                        base_info.oracle_price@,
                                    ) {
                                        None => {
                                            assert(false);
                                        },
                                        Some(rb) => {
                                            match crate::fx::checked_mul_val(
                                                reserved_quote,
                                                quote_info.oracle_price@,
                                            ) {
                                                None => {
                                                    assert(false);
                                                },
                                                Some(rq) => {
                                                    assert(base_info.oracle_price@ >= 0);
                                                    assert(quote_info.oracle_price@
                                                        == tokens[quote_index].oracle_price@);
                                                    lemma_mul_down_nonneg(
                                                        reserved_base,
                                                        base_info.oracle_price@,
                                                    );
                                                    lemma_mul_down_nonneg(
                                                        reserved_quote,
                                                        quote_info.oracle_price@,
                                                    );
                                                    match crate::fx::checked_add_val(rb, rq) {
                                                        None => {
                                                            assert(false);
                                                        },
                                                        Some(reserved_val) => {
                                                            assert(reserved_val >= 0);
                                                            let base_info2 = tokens2[base_index];
                                                            match crate::fx::checked_add_val(
                                                                base_info2.serum3_max_reserved@,
                                                                reserved_val,
                                                            ) {
                                                                None => {
                                                                    assert(false);
                                                                },
                                                                Some(base_res) => {
                                                                    let tokens3 = tokens2.update(
                                                                        base_index,
                                                                        TokenInfo {
                                                                            serum3_max_reserved: Fx {
                                                                                bits: base_res
                                                                                    as i128,
                                                                            },
                                                                            ..base_info2
                                                                        },
                                                                    );
                                                                    let quote_info2 =
                                                                        tokens3[quote_index];
                                                                    match crate::fx::checked_add_val(
                                                                        quote_info2.serum3_max_reserved@,
                                                                        reserved_val,
                                                                    ) {
                                                                        None => {
                                                                            assert(false);
                                                                        },
                                                                        Some(quote_res) => {
                                                                            assert(reserved@
                                                                                == reserved_val);
                                                                            assert(updated
                                                                                == tokens3.update(
                                                                                quote_index,
                                                                                TokenInfo {
                                                                                    serum3_max_reserved:
                                                                                        Fx {
                                                                                        bits:
                                                                                            quote_res
                                                                                            as i128,
                                                                                    },
                                                                                    ..quote_info2
                                                                                },
                                                                            ));
                                                                            assert forall|k: int|
                                                                                0 <= k
                                                                                    < updated.len() implies (
                                                                            #[trigger] updated[k]).oracle_price@
                                                                                >= 0
                                                                                && updated[k].serum3_max_reserved@
                                                                                >= 0 by {
                                                                                assert(tokens[k].oracle_price@
                                                                                    >= 0);
                                                                                assert(tokens[k].serum3_max_reserved@
                                                                                    >= 0);
                                                                            }
                                                                        },
                                                                    }
                                                                },
                                                            }
                                                        },
                                                    }
                                                },
                                            }
                                        },
                                    }
                                },
                            }
                        },
                    }
                },
            }
        },
    }
}

proof fn lemma_serum3_built_nonneg<R: AccountRetriever>(
    account: MangoAccount,
    retriever: R,
    tokens0: Seq<TokenInfo>,
    n: int,
    tokens: Seq<TokenInfo>,
    serums: Seq<Serum3Info>,
)
    requires
        n >= 0,
        prices_nonneg(tokens0),
        reserved_nonneg(tokens0),
        spec_serum3_built(account, retriever, tokens0, n) == Ok::<
            (Seq<TokenInfo>, Seq<Serum3Info>),
            HealthError,
        >((tokens, serums)),
    ensures
        prices_nonneg(tokens),
        reserved_nonneg(tokens),
        forall|k: int| 0 <= k < serums.len() ==> (#[trigger] serums[k]).reserved@ >= 0,
    decreases n,
{
    if n <= 0 {
    } else {
        match spec_serum3_built(account, retriever, tokens0, n - 1) {
            Err(_) => {
                assert(false);
            },
            Ok(state) => {
                lemma_serum3_built_nonneg(account, retriever, tokens0, n - 1, state.0, state.1);
                let serum_account = account.serum3@[n - 1];
                match retriever.spec_serum_oo(n - 1, serum_account.open_orders) {
                    Err(_) => {
                        assert(false);
                    },
                    Ok(oo) => {
                        match spec_find_token(state.0, serum_account.base_token_index) {
                            None => {
                                assert(false);
                            },
                            Some(bi) => {
                                lemma_find_token_from_in_bounds(
                                    state.0,
                                    serum_account.base_token_index,
                                    0,
                                );
                                match spec_find_token(state.0, serum_account.quote_token_index) {
                                    None => {
                                        assert(false);
                                    },
                                    Some(qi) => {
                                        lemma_find_token_from_in_bounds(
                                            state.0,
                                            serum_account.quote_token_index,
                                            0,
                                        );
                                        match spec_serum3_step(state.0, oo, bi, qi) {
                                            Err(_) => {
                                                assert(false);
                                            },
                                            Ok(updated) => {
                                                lemma_serum3_step_preserves_nonneg(
                                                    state.0,
                                                    oo,
                                                    bi,
                                                    qi,
                                                    updated.0,
                                                    updated.1,
                                                );
                                            },
                                        }
                                    },
                                }
                            },
                        }
                    },
                }
            },
        }
    }
}

proof fn lemma_tokens_built_nonneg<R: AccountRetriever>(
    account: MangoAccount,
    retriever: R,
    n: int,
    tokens: Seq<TokenInfo>,
)
    requires
        n >= 0,
        forall|g: AccountKey, i: int, tk: u16|
            (#[trigger] retriever.spec_bank_and_oracle(g, i, tk)) matches Ok(pair) ==> pair.1@
                >= 0,
        spec_token_infos_built(account, retriever, n) == Ok::<Seq<TokenInfo>, HealthError>(tokens),
    ensures
        prices_nonneg(tokens),
        reserved_nonneg(tokens),
    decreases n,
{
    if n <= 0 {
    } else {
        match spec_token_infos_built(account, retriever, n - 1) {
            Err(_) => {
                assert(false);
            },
            Ok(infos) => {
                lemma_tokens_built_nonneg(account, retriever, n - 1, infos);
            },
        }
    }
}

/// The invariant of the worst-case reservation aggregate: as long as the
/// retriever supplies nonnegative oracle prices, every token entry of a
/// freshly built cache has `serum3_max_reserved >= 0`, and every spot
/// market entry a nonnegative reserved value.
pub proof fn lemma_serum3_max_reserved_nonnegative<R: AccountRetriever>(
    account: MangoAccount,
    retriever: R,
    tokens: Seq<TokenInfo>,
    serums: Seq<Serum3Info>,
    perps: Seq<PerpInfo>,
)
    requires
        forall|g: AccountKey, i: int, tk: u16|
            (#[trigger] retriever.spec_bank_and_oracle(g, i, tk)) matches Ok(pair) ==> pair.1@
                >= 0,
        spec_new_health_cache(account, retriever) == Ok::<
            (Seq<TokenInfo>, Seq<Serum3Info>, Seq<PerpInfo>),
            HealthError,
        >((tokens, serums, perps)),
    ensures
        reserved_nonneg(tokens),
        forall|k: int| 0 <= k < serums.len() ==> (#[trigger] serums[k]).reserved@ >= 0,
{
    match spec_token_infos_built(account, retriever, account.tokens@.len() as int) {
        Err(_) => {
            assert(false);
        },
        Ok(tokens0) => {
            lemma_tokens_built_nonneg(account, retriever, account.tokens@.len() as int, tokens0);
            match spec_serum3_built(account, retriever, tokens0, account.serum3@.len() as int) {
                Err(_) => {
                    assert(false);
                },
                Ok(state) => {
                    lemma_serum3_built_nonneg(
                        account,
                        retriever,
                        tokens0,
                        account.serum3@.len() as int,
                        state.0,
                        state.1,
                    );
                },
            }
        },
    }
}

/// Health evaluation is deterministic: any two results that satisfy the
/// evaluation contract for the same cache state are identical, bit for bit.
pub proof fn lemma_health_idempotent(
    tokens: Seq<TokenInfo>,
    serums: Seq<Serum3Info>,
    perps: Seq<PerpInfo>,
    health_type: HealthType,
    r1: Result<Fx, HealthError>,
    r2: Result<Fx, HealthError>,
)
    requires
        arith_result(r1, spec_health(tokens, serums, perps, health_type)),
        arith_result(r2, spec_health(tokens, serums, perps, health_type)),
    ensures
        r1 == r2,
{
}

} // verus!
