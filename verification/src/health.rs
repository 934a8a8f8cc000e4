//! The health cache and its evaluation.
//!
//! A [`HealthCache`] is a per-account snapshot of token, spot-open-orders and
//! perp aggregates, all pre-converted into the common reference unit.  The
//! spec functions in this module mirror the evaluation exactly at the level
//! of the fixed-point bit representation; `None` stands for an arithmetic
//! overflow, which the executable functions report as
//! [`HealthError::ArithmeticOverflow`].

use vstd::prelude::*;

use crate::fx::{checked_add_val, checked_mul_val, Fx};
use crate::records::HealthError;

verus! {

/// Initial health decides whether new risk may be opened; maintenance health
/// decides whether the account must be liquidated.  Both are weighted sums of
/// assets minus liabilities; maintenance uses weights closer to one.
#[derive(Clone, Copy, Debug, PartialEq, Eq, Structural)]
pub enum HealthType {
    Init,
    Maint,
}

/// Balances below this fixed-point bit value (about `1e-6` in value) are
/// treated as dust by the liquidatable-assets query.
pub const BANKRUPTCY_DUST_THRESHOLD_BITS: i128 = 281474977;

/// Per-token aggregate: weights and oracle price copied from the bank,
/// `balance` and `serum3_max_reserved` in reference-unit native value.
#[derive(Clone, Copy, Debug)]
pub struct TokenInfo {
    pub token_index: u16,
    pub maint_asset_weight: Fx,
    pub init_asset_weight: Fx,
    pub maint_liab_weight: Fx,
    pub init_liab_weight: Fx,
    /// Unit price used for every conversion of this token.
    pub oracle_price: Fx,
    /// Net value of the position plus all freely withdrawable open-order
    /// funds of this token.
    pub balance: Fx,
    /// Worst-case upper bound of the value reserved in open orders over all
    /// markets this token participates in; never negative.
    pub serum3_max_reserved: Fx,
}

impl TokenInfo {
    pub open spec fn spec_asset_weight(self, health_type: HealthType) -> Fx {
        match health_type {
            HealthType::Init => self.init_asset_weight,
            HealthType::Maint => self.maint_asset_weight,
        }
    }

    pub open spec fn spec_liab_weight(self, health_type: HealthType) -> Fx {
        match health_type {
            HealthType::Init => self.init_liab_weight,
            HealthType::Maint => self.maint_liab_weight,
        }
    }

    pub fn asset_weight(&self, health_type: HealthType) -> (r: Fx)
        ensures
            r == self.spec_asset_weight(health_type),
    {
        match health_type {
            HealthType::Init => self.init_asset_weight,
            HealthType::Maint => self.maint_asset_weight,
        }
    }

    pub fn liab_weight(&self, health_type: HealthType) -> (r: Fx)
        ensures
            r == self.spec_liab_weight(health_type),
    {
        match health_type {
            HealthType::Init => self.init_liab_weight,
            HealthType::Maint => self.maint_liab_weight,
        }
    }
}

/// Per-spot-market aggregate: the reserved value of that market's open
/// orders and the positions of the two traded tokens in the cache's token
/// list.
#[derive(Clone, Copy, Debug)]
pub struct Serum3Info {
    pub reserved: Fx,
    pub base_index: usize,
    pub quote_index: usize,
}

/// Per-perp-position aggregate under the already chosen worst-case scenario:
/// `base` still needs weighting, `quote` does not.
#[derive(Clone, Copy, Debug)]
pub struct PerpInfo {
    pub maint_asset_weight: Fx,
    pub init_asset_weight: Fx,
    pub maint_liab_weight: Fx,
    pub init_liab_weight: Fx,
    pub base: Fx,
    pub quote: Fx,
}

/// Relates an executable arithmetic result to its mirror: `Ok` carries
/// exactly the mirrored value, `Err` is an overflow report and happens
/// exactly when the mirror overflowed.
pub open spec fn arith_result(r: Result<Fx, HealthError>, v: Option<int>) -> bool {
    match r {
        Ok(f) => v == Some(f@),
        Err(e) => v is None && e == HealthError::ArithmeticOverflow,
    }
}

/// Health contribution of a token balance: the balance weighted by the asset
/// weight when nonnegative and by the liability weight when negative.
pub open spec fn spec_token_contribution(
    health_type: HealthType,
    info: TokenInfo,
    balance: Fx,
) -> Option<int> {
    let weight = if balance@ < 0 {
        info.spec_liab_weight(health_type)
    } else {
        info.spec_asset_weight(health_type)
    };
    checked_mul_val(balance@, weight@)
}

/// Health contribution for a given balance, independent of the balance
/// stored in the `TokenInfo`.
pub fn health_contribution(health_type: HealthType, info: &TokenInfo, balance: Fx) -> (r: Result<
    Fx,
    HealthError,
>)
    ensures
        arith_result(r, spec_token_contribution(health_type, *info, balance)),
{
    let weight = if balance.is_negative() {
        info.liab_weight(health_type)
    } else {
        info.asset_weight(health_type)
    };
    match balance.checked_mul(weight) {
        Some(v) => Ok(v),
        None => Err(HealthError::ArithmeticOverflow),
    }
}

/// How much health would change if the reserved balance resolved entirely
/// into the passed token, assuming the reservation is applied last: the part
/// of it below the token's worst-case balance ceiling counts as asset, the
/// rest as liability.
pub open spec fn spec_serum3_side(info: TokenInfo, reserved: int, health_type: HealthType) -> Option<
    int,
> {
    match checked_add_val(info.balance@, info.serum3_max_reserved@) {
        None => None,
        Some(max_balance) => {
            let asset_part = if max_balance >= reserved {
                reserved
            } else if max_balance < 0 {
                0
            } else {
                max_balance
            };
            let liab_part = if max_balance >= reserved {
                0
            } else if max_balance < 0 {
                reserved
            } else {
                reserved - max_balance
            };
            match checked_mul_val(info.spec_asset_weight(health_type)@, asset_part) {
                None => None,
                Some(a) => match checked_mul_val(info.spec_liab_weight(health_type)@, liab_part) {
                    None => None,
                    Some(l) => checked_add_val(a, l),
                },
            }
        },
    }
}

fn serum3_side_effect(info: &TokenInfo, reserved: Fx, health_type: HealthType) -> (r: Result<
    Fx,
    HealthError,
>)
    ensures
        arith_result(r, spec_serum3_side(*info, reserved@, health_type)),
{
    let max_balance = match info.balance.checked_add(info.serum3_max_reserved) {
        Some(v) => v,
        None => {
            return Err(HealthError::ArithmeticOverflow);
        },
    };
    let zero = Fx::zero();
    let (asset_part, liab_part) = if max_balance.bits >= reserved.bits {
        (reserved, zero)
    } else if max_balance.is_negative() {
        (zero, reserved)
    } else {
        (max_balance, Fx::from_bits(reserved.bits - max_balance.bits))
    };
    let a = match info.asset_weight(health_type).checked_mul(asset_part) {
        Some(v) => v,
        None => {
            return Err(HealthError::ArithmeticOverflow);
        },
    };
    let l = match info.liab_weight(health_type).checked_mul(liab_part) {
        Some(v) => v,
        None => {
            return Err(HealthError::ArithmeticOverflow);
        },
    };
    match a.checked_add(l) {
        Some(v) => Ok(v),
        None => Err(HealthError::ArithmeticOverflow),
    }
}

/// Health contribution of one spot market's reservation: zero when nothing
/// is reserved, otherwise the worse (smaller) of the two sides' effects.
pub open spec fn spec_serum3_contribution(
    si: Serum3Info,
    tokens: Seq<TokenInfo>,
    health_type: HealthType,
) -> Option<int> {
    if si.reserved@ == 0 {
        Some(0)
    } else {
        match spec_serum3_side(tokens[si.base_index as int], si.reserved@, health_type) {
            None => None,
            Some(base_side) => match spec_serum3_side(
                tokens[si.quote_index as int],
                si.reserved@,
                health_type,
            ) {
                None => None,
                Some(quote_side) => Some(
                    if base_side <= quote_side {
                        base_side
                    } else {
                        quote_side
                    },
                ),
            },
        }
    }
}

impl Serum3Info {
    pub fn health_contribution(&self, health_type: HealthType, token_infos: &Vec<TokenInfo>) -> (r:
        Result<Fx, HealthError>)
        requires
            self.base_index < token_infos@.len(),
            self.quote_index < token_infos@.len(),
        ensures
            arith_result(r, spec_serum3_contribution(*self, token_infos@, health_type)),
    {
        if self.reserved.is_zero() {
            return Ok(Fx::zero());
        }
        let base_side = match serum3_side_effect(
            &token_infos[self.base_index],
            self.reserved,
            health_type,
        ) {
            Ok(v) => v,
            Err(e) => {
                return Err(e);
            },
        };
        let quote_side = match serum3_side_effect(
            &token_infos[self.quote_index],
            self.reserved,
            health_type,
        ) {
            Ok(v) => v,
            Err(e) => {
                return Err(e);
            },
        };
        Ok(base_side.min(quote_side))
    }
}

pub open spec fn spec_perp_weight(p: PerpInfo, health_type: HealthType) -> Fx {
    match (health_type, p.base@ < 0) {
        (HealthType::Init, true) => p.init_liab_weight,
        (HealthType::Init, false) => p.init_asset_weight,
        (HealthType::Maint, true) => p.maint_liab_weight,
        (HealthType::Maint, false) => p.maint_asset_weight,
    }
}

/// Health contribution of one perp position: the weighted base exposure plus
/// the quote balance, capped at zero.  The cap reflects that unsettled perp
/// gains cannot be borrowed against.
pub open spec fn spec_perp_contribution(p: PerpInfo, health_type: HealthType) -> Option<int> {
    match checked_mul_val(spec_perp_weight(p, health_type)@, p.base@) {
        None => None,
        Some(wb) => match checked_add_val(p.quote@, wb) {
            None => None,
            Some(v) => Some(
                if v <= 0 {
                    v
                } else {
                    0
                },
            ),
        },
    }
}

impl PerpInfo {
    /// Total health contribution from perp balances.
    ///
    /// Due to isolation of perp markets, perp positions may never be
    /// borrowed against before settling: the contribution is capped at zero.
    pub fn health_contribution(&self, health_type: HealthType) -> (r: Result<Fx, HealthError>)
        ensures
            arith_result(r, spec_perp_contribution(*self, health_type)),
            r matches Ok(f) ==> f@ <= 0,
    {
        let weight = match (health_type, self.base.is_negative()) {
            (HealthType::Init, true) => self.init_liab_weight,
            (HealthType::Init, false) => self.init_asset_weight,
            (HealthType::Maint, true) => self.maint_liab_weight,
            (HealthType::Maint, false) => self.maint_asset_weight,
        };
        let wb = match weight.checked_mul(self.base) {
            Some(v) => v,
            None => {
                return Err(HealthError::ArithmeticOverflow);
            },
        };
        match self.quote.checked_add(wb) {
            Some(v) => Ok(v.min(Fx::zero())),
            None => Err(HealthError::ArithmeticOverflow),
        }
    }
}

/// The running health after folding in the contributions of the first `n`
/// token entries, starting from `acc`.
pub open spec fn spec_token_fold(
    tokens: Seq<TokenInfo>,
    health_type: HealthType,
    n: int,
    acc: int,
) -> Option<int>
    decreases n,
{
    if n <= 0 {
        Some(acc)
    } else {
        match spec_token_fold(tokens, health_type, n - 1, acc) {
            None => None,
            Some(h) => match spec_token_contribution(
                health_type,
                tokens[n - 1],
                tokens[n - 1].balance,
            ) {
                None => None,
                Some(c) => checked_add_val(h, c),
            },
        }
    }
}

/// The running health after folding in the first `n` spot-market
/// contributions, starting from `acc`.
pub open spec fn spec_serum3_fold(
    tokens: Seq<TokenInfo>,
    serums: Seq<Serum3Info>,
    health_type: HealthType,
    n: int,
    acc: int,
) -> Option<int>
    decreases n,
{
    if n <= 0 {
        Some(acc)
    } else {
        match spec_serum3_fold(tokens, serums, health_type, n - 1, acc) {
            None => None,
            Some(h) => match spec_serum3_contribution(serums[n - 1], tokens, health_type) {
                None => None,
                Some(c) => checked_add_val(h, c),
            },
        }
    }
}

/// The running health after folding in the first `n` perp contributions,
/// starting from `acc`.
pub open spec fn spec_perp_fold(
    perps: Seq<PerpInfo>,
    health_type: HealthType,
    n: int,
    acc: int,
) -> Option<int>
    decreases n,
{
    if n <= 0 {
        Some(acc)
    } else {
        match spec_perp_fold(perps, health_type, n - 1, acc) {
            None => None,
            Some(h) => match spec_perp_contribution(perps[n - 1], health_type) {
                None => None,
                Some(c) => checked_add_val(h, c),
            },
        }
    }
}

/// The health of a cache: the sum of all token, spot-market and perp
/// contributions, every intermediate step checked against overflow.
pub open spec fn spec_health(
    tokens: Seq<TokenInfo>,
    serums: Seq<Serum3Info>,
    perps: Seq<PerpInfo>,
    health_type: HealthType,
) -> Option<int> {
    match spec_token_fold(tokens, health_type, tokens.len() as int, 0) {
        None => None,
        Some(h1) => match spec_serum3_fold(tokens, serums, health_type, serums.len() as int, h1) {
            None => None,
            Some(h2) => spec_perp_fold(perps, health_type, perps.len() as int, h2),
        },
    }
}

proof fn lemma_token_fold_none(
    tokens: Seq<TokenInfo>,
    health_type: HealthType,
    n: int,
    m: int,
    acc: int,
)
    requires
        0 <= n <= m,
        spec_token_fold(tokens, health_type, n, acc) is None,
    ensures
        spec_token_fold(tokens, health_type, m, acc) is None,
    decreases m,
{
    if m > n {
        lemma_token_fold_none(tokens, health_type, n, m - 1, acc);
    }
}

proof fn lemma_serum3_fold_none(
    tokens: Seq<TokenInfo>,
    serums: Seq<Serum3Info>,
    health_type: HealthType,
    n: int,
    m: int,
    acc: int,
)
    requires
        0 <= n <= m,
        spec_serum3_fold(tokens, serums, health_type, n, acc) is None,
    ensures
        spec_serum3_fold(tokens, serums, health_type, m, acc) is None,
    decreases m,
{
    if m > n {
        lemma_serum3_fold_none(tokens, serums, health_type, n, m - 1, acc);
    }
}

proof fn lemma_perp_fold_none(
    perps: Seq<PerpInfo>,
    health_type: HealthType,
    n: int,
    m: int,
    acc: int,
)
    requires
        0 <= n <= m,
        spec_perp_fold(perps, health_type, n, acc) is None,
    ensures
        spec_perp_fold(perps, health_type, m, acc) is None,
    decreases m,
{
    if m > n {
        lemma_perp_fold_none(perps, health_type, n, m - 1, acc);
    }
}

/// First index of the token entry for `token_index` at or after `i`.
pub open spec fn spec_find_token_from(tokens: Seq<TokenInfo>, token_index: u16, i: int) -> Option<
    int,
>
    decreases tokens.len() - i,
{
    if i < 0 || i >= tokens.len() {
        None
    } else if tokens[i].token_index == token_index {
        Some(i)
    } else {
        spec_find_token_from(tokens, token_index, i + 1)
    }
}

/// First index of the token entry for `token_index`, if the token has an
/// active position.
pub open spec fn spec_find_token(tokens: Seq<TokenInfo>, token_index: u16) -> Option<int> {
    spec_find_token_from(tokens, token_index, 0)
}

/// Position of the `TokenInfo` for `token_index`, or `TokenInfoNotFound`.
pub fn find_token_info_index(infos: &Vec<TokenInfo>, token_index: u16) -> (r: Result<
    usize,
    HealthError,
>)
    ensures
        match spec_find_token(infos@, token_index) {
            Some(i) => r matches Ok(j) && j == i && i < infos@.len(),
            None => r == Err::<usize, HealthError>(HealthError::TokenInfoNotFound),
        },
{
    let mut i: usize = 0;
    while i < infos.len()
        invariant
            0 <= i <= infos@.len(),
            spec_find_token(infos@, token_index) == spec_find_token_from(
                infos@,
                token_index,
                i as int,
            ),
        decreases infos@.len() - i,
    {
        if infos[i].token_index == token_index {
            return Ok(i);
        }
        i = i + 1;
    }
    Err(HealthError::TokenInfoNotFound)
}

/// Snapshot of an account's health inputs: per-token, per-spot-market and
/// per-perp aggregates, pre-converted into the reference unit.  Built once
/// per health query context; queried repeatedly without re-reading records.
#[derive(Debug)]
pub struct HealthCache {
    pub token_infos: Vec<TokenInfo>,
    pub serum3_infos: Vec<Serum3Info>,
    pub perp_infos: Vec<PerpInfo>,
}

impl HealthCache {
    /// Every spot-market entry points at valid token entries.
    pub open spec fn wf(&self) -> bool {
        forall|i: int|
            0 <= i < self.serum3_infos@.len() ==> (#[trigger] self.serum3_infos@[i]).base_index
                < self.token_infos@.len() && self.serum3_infos@[i].quote_index
                < self.token_infos@.len()
    }

    /// Health under the given weighting regime: the checked sum of all
    /// contributions, in the order token entries, spot markets, perps.
    pub fn health(&self, health_type: HealthType) -> (r: Result<Fx, HealthError>)
        requires
            self.wf(),
        ensures
            arith_result(
                r,
                spec_health(self.token_infos@, self.serum3_infos@, self.perp_infos@, health_type),
            ),
    {
        let ghost tokens = self.token_infos@;
        let ghost serums = self.serum3_infos@;
        let ghost perps = self.perp_infos@;
        let mut health = Fx::zero();
        let mut i: usize = 0;
        while i < self.token_infos.len()
            invariant
                self.wf(),
                tokens == self.token_infos@,
                0 <= i <= tokens.len(),
                spec_token_fold(tokens, health_type, i as int, 0) == Some(health@),
            decreases tokens.len() - i,
        {
            let contribution = match health_contribution(
                health_type,
                &self.token_infos[i],
                self.token_infos[i].balance,
            ) {
                Ok(c) => c,
                Err(e) => {
                    proof {
                        lemma_token_fold_none(
                            tokens,
                            health_type,
                            i + 1,
                            tokens.len() as int,
                            0,
                        );
                    }
                    return Err(e);
                },
            };
            health = match health.checked_add(contribution) {
                Some(h) => h,
                None => {
                    proof {
                        lemma_token_fold_none(
                            tokens,
                            health_type,
                            i + 1,
                            tokens.len() as int,
                            0,
                        );
                    }
                    return Err(HealthError::ArithmeticOverflow);
                },
            };
            i = i + 1;
        }
        let ghost h1 = health@;
        let mut i: usize = 0;
        while i < self.serum3_infos.len()
            invariant
                self.wf(),
                tokens == self.token_infos@,
                serums == self.serum3_infos@,
                0 <= i <= serums.len(),
                spec_token_fold(tokens, health_type, tokens.len() as int, 0) == Some(h1),
                spec_serum3_fold(tokens, serums, health_type, i as int, h1) == Some(health@),
            decreases serums.len() - i,
        {
            let contribution = match self.serum3_infos[i].health_contribution(
                health_type,
                &self.token_infos,
            ) {
                Ok(c) => c,
                Err(e) => {
                    proof {
                        lemma_serum3_fold_none(
                            tokens,
                            serums,
                            health_type,
                            i + 1,
                            serums.len() as int,
                            h1,
                        );
                    }
                    return Err(e);
                },
            };
            health = match health.checked_add(contribution) {
                Some(h) => h,
                None => {
                    proof {
                        lemma_serum3_fold_none(
                            tokens,
                            serums,
                            health_type,
                            i + 1,
                            serums.len() as int,
                            h1,
                        );
                    }
                    return Err(HealthError::ArithmeticOverflow);
                },
            };
            i = i + 1;
        }
        let ghost h2 = health@;
        let mut i: usize = 0;
        while i < self.perp_infos.len()
            invariant
                self.wf(),
                tokens == self.token_infos@,
                serums == self.serum3_infos@,
                perps == self.perp_infos@,
                0 <= i <= perps.len(),
                spec_token_fold(tokens, health_type, tokens.len() as int, 0) == Some(h1),
                spec_serum3_fold(tokens, serums, health_type, serums.len() as int, h1) == Some(h2),
                spec_perp_fold(perps, health_type, i as int, h2) == Some(health@),
            decreases perps.len() - i,
        {
            let contribution = match self.perp_infos[i].health_contribution(health_type) {
                Ok(c) => c,
                Err(e) => {
                    proof {
                        lemma_perp_fold_none(
                            perps,
                            health_type,
                            i + 1,
                            perps.len() as int,
                            h2,
                        );
                    }
                    return Err(e);
                },
            };
            health = match health.checked_add(contribution) {
                Some(h) => h,
                None => {
                    proof {
                        lemma_perp_fold_none(
                            perps,
                            health_type,
                            i + 1,
                            perps.len() as int,
                            h2,
                        );
                    }
                    return Err(HealthError::ArithmeticOverflow);
                },
            };
            i = i + 1;
        }
        Ok(health)
    }

    /// Adjusts the token list for a hypothetical balance change: the delta,
    /// converted at the token's cached oracle price, is added to the matching
    /// entry's balance.  Fails when the token has no entry or the arithmetic
    /// overflows; the cache is unchanged on failure.
    pub fn adjust_token_balance(&mut self, token_index: u16, change: Fx) -> (r: Result<
        (),
        HealthError,
    >)
        ensures
            match spec_adjust_token_balance(old(self).token_infos@, token_index, change) {
                Ok(t) => r is Ok && final(self).token_infos@ == t && final(self).serum3_infos
                    == old(self).serum3_infos && final(self).perp_infos == old(self).perp_infos,
                Err(e) => r == Err::<(), HealthError>(e) && *final(self) == *old(self),
            },
            final(self).wf() == old(self).wf(),
    {
        let i = match find_token_info_index(&self.token_infos, token_index) {
            Ok(i) => i,
            Err(e) => {
                return Err(e);
            },
        };
        let entry = self.token_infos[i];
        let delta = match change.checked_mul(entry.oracle_price) {
            Some(v) => v,
            None => {
                return Err(HealthError::ArithmeticOverflow);
            },
        };
        let new_balance = match entry.balance.checked_add(delta) {
            Some(v) => v,
            None => {
                return Err(HealthError::ArithmeticOverflow);
            },
        };
        self.token_infos[i] = TokenInfo { balance: new_balance, ..entry };
        Ok(())
    }

    /// Does the account still hold anything a liquidator could seize: a
    /// token balance above the dust threshold, reserved spot funds, or a
    /// perp position with base exposure or quote value above the threshold?
    pub fn has_liquidatable_assets(&self) -> (r: bool)
        ensures
            r == spec_has_liquidatable_assets(self.token_infos@, self.perp_infos@),
    {
        let mut i: usize = 0;
        while i < self.token_infos.len()
            invariant
                0 <= i <= self.token_infos@.len(),
                forall|j: int|
                    0 <= j < i ==> !((#[trigger] self.token_infos@[j]).balance@
                        > BANKRUPTCY_DUST_THRESHOLD_BITS || self.token_infos@[j].serum3_max_reserved@
                        > 0),
            decreases self.token_infos@.len() - i,
        {
            let ti = &self.token_infos[i];
            if ti.balance.bits > BANKRUPTCY_DUST_THRESHOLD_BITS || ti.serum3_max_reserved.is_positive() {
                proof {
                    assert(self.token_infos@[i as int].balance@ > BANKRUPTCY_DUST_THRESHOLD_BITS
                        || self.token_infos@[i as int].serum3_max_reserved@ > 0);
                }
                return true;
            }
            proof {
                assert(!(self.token_infos@[i as int].balance@ > BANKRUPTCY_DUST_THRESHOLD_BITS
                    || self.token_infos@[i as int].serum3_max_reserved@ > 0));
            }
            i = i + 1;
        }
        let mut i: usize = 0;
        while i < self.perp_infos.len()
            invariant
                0 <= i <= self.perp_infos@.len(),
                !spec_token_has_assets(self.token_infos@),
                forall|j: int|
                    0 <= j < i ==> !((#[trigger] self.perp_infos@[j]).base@ != 0
                        || self.perp_infos@[j].quote@ > BANKRUPTCY_DUST_THRESHOLD_BITS),
            decreases self.perp_infos@.len() - i,
        {
            let p = &self.perp_infos[i];
            if !p.base.is_zero() || p.quote.bits > BANKRUPTCY_DUST_THRESHOLD_BITS {
                proof {
                    assert(self.perp_infos@[i as int].base@ != 0 || self.perp_infos@[i as int].quote@
                        > BANKRUPTCY_DUST_THRESHOLD_BITS);
                }
                return true;
            }
            proof {
                assert(!(self.perp_infos@[i as int].base@ != 0 || self.perp_infos@[i as int].quote@
                    > BANKRUPTCY_DUST_THRESHOLD_BITS));
            }
            i = i + 1;
        }
        false
    }

    /// Does the account owe anything: a negative token balance, a negative
    /// perp quote value, or any perp base exposure?
    pub fn has_borrows(&self) -> (r: bool)
        ensures
            r == spec_has_borrows(self.token_infos@, self.perp_infos@),
    {
        let mut i: usize = 0;
        while i < self.token_infos.len()
            invariant
                0 <= i <= self.token_infos@.len(),
                forall|j: int| 0 <= j < i ==> (#[trigger] self.token_infos@[j]).balance@ >= 0,
            decreases self.token_infos@.len() - i,
        {
            if self.token_infos[i].balance.is_negative() {
                return true;
            }
            i = i + 1;
        }
        let mut i: usize = 0;
        while i < self.perp_infos.len()
            invariant
                0 <= i <= self.perp_infos@.len(),
                forall|j: int| 0 <= j < self.token_infos@.len() ==> (#[trigger] self.token_infos@[j]).balance@ >= 0,
                forall|j: int|
                    0 <= j < i ==> !((#[trigger] self.perp_infos@[j]).quote@ < 0
                        || self.perp_infos@[j].base@ != 0),
            decreases self.perp_infos@.len() - i,
        {
            let p = &self.perp_infos[i];
            if p.quote.is_negative() || !p.base.is_zero() {
                return true;
            }
            i = i + 1;
        }
        false
    }
}

/// Mirror of [`HealthCache::adjust_token_balance`]: the token list after the
/// adjustment, or the error it fails with.
pub open spec fn spec_adjust_token_balance(
    tokens: Seq<TokenInfo>,
    token_index: u16,
    change: Fx,
) -> Result<Seq<TokenInfo>, HealthError> {
    match spec_find_token(tokens, token_index) {
        None => Err(HealthError::TokenInfoNotFound),
        Some(i) => {
            let ti = tokens[i];
            match checked_mul_val(change@, ti.oracle_price@) {
                None => Err(HealthError::ArithmeticOverflow),
                Some(d) => match checked_add_val(ti.balance@, d) {
                    None => Err(HealthError::ArithmeticOverflow),
                    Some(nb) => Ok(
                        tokens.update(i, TokenInfo { balance: Fx { bits: nb as i128 }, ..ti }),
                    ),
                },
            }
        },
    }
}

/// Is any token entry above the dust threshold or backed by reserved spot
/// funds?
pub open spec fn spec_token_has_assets(tokens: Seq<TokenInfo>) -> bool {
    exists|i: int|
        0 <= i < tokens.len() && ((#[trigger] tokens[i]).balance@ > BANKRUPTCY_DUST_THRESHOLD_BITS
            || tokens[i].serum3_max_reserved@ > 0)
}

/// Mirror of [`HealthCache::has_liquidatable_assets`].
pub open spec fn spec_has_liquidatable_assets(
    tokens: Seq<TokenInfo>,
    perps: Seq<PerpInfo>,
) -> bool {
    spec_token_has_assets(tokens) || exists|i: int|
        0 <= i < perps.len() && ((#[trigger] perps[i]).base@ != 0 || perps[i].quote@
            > BANKRUPTCY_DUST_THRESHOLD_BITS)
}

/// Mirror of [`HealthCache::has_borrows`].
pub open spec fn spec_has_borrows(tokens: Seq<TokenInfo>, perps: Seq<PerpInfo>) -> bool {
    (exists|i: int| 0 <= i < tokens.len() && (#[trigger] tokens[i]).balance@ < 0) || exists|i: int|
        0 <= i < perps.len() && ((#[trigger] perps[i]).quote@ < 0 || perps[i].base@ != 0)
}

} // verus!
