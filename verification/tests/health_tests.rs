use std::str::FromStr;

use fixed::types::I80F48;

use mango_health::compute_health;
use mango_health::fx::Fx;
use mango_health::health::{HealthCache, HealthType, BANKRUPTCY_DUST_THRESHOLD_BITS};
use mango_health::records::{
    AccountRecord, Bank, HealthError, MangoAccount, OpenOrders, Oracle, PerpMarket, PerpPosition,
    RecordData, Serum3Orders, TokenPosition,
};
use mango_health::retriever::ScanningAccountRetriever;

fn fx(v: f64) -> Fx {
    Fx::from_bits(I80F48::from_num(v).to_bits())
}

fn fx_to_f64(v: Fx) -> f64 {
    I80F48::from_bits(v.to_bits()).to_num::<f64>()
}

fn health_eq(a: Fx, b: f64) -> bool {
    if (fx_to_f64(a) - b).abs() < 0.001 {
        true
    } else {
        println!("health is {}, but expected {}", fx_to_f64(a), b);
        false
    }
}

fn mock_bank_and_oracle(
    group: u64,
    token_index: u16,
    price: f64,
    init_weights: f64,
    maint_weights: f64,
) -> (AccountRecord, AccountRecord) {
    let oracle_key = 7000 + token_index as u64;
    let bank = Bank {
        group,
        token_index,
        oracle: oracle_key,
        init_asset_weight: fx(1.0 - init_weights),
        init_liab_weight: fx(1.0 + init_weights),
        maint_asset_weight: fx(1.0 - maint_weights),
        maint_liab_weight: fx(1.0 + maint_weights),
    };
    let bank_record = AccountRecord { key: 1000 + token_index as u64, data: RecordData::Bank(bank) };
    let oracle_record = AccountRecord {
        key: oracle_key,
        data: RecordData::Oracle(Oracle { price: fx(price) }),
    };
    (bank_record, oracle_record)
}

fn mock_perp_market(
    group: u64,
    perp_market_index: u16,
    base_token_index: u16,
    init_weights: f64,
    maint_weights: f64,
    quote_lot_size: i64,
    base_lot_size: i64,
) -> AccountRecord {
    let market = PerpMarket {
        group,
        perp_market_index,
        base_token_index,
        base_lot_size,
        quote_lot_size,
        init_asset_weight: fx(1.0 - init_weights),
        init_liab_weight: fx(1.0 + init_weights),
        maint_asset_weight: fx(1.0 - maint_weights),
        maint_liab_weight: fx(1.0 + maint_weights),
    };
    AccountRecord { key: 9000 + perp_market_index as u64, data: RecordData::PerpMarket(market) }
}

fn zeroed_open_orders() -> OpenOrders {
    OpenOrders {
        native_coin_total: 0,
        native_coin_free: 0,
        native_pc_total: 0,
        native_pc_free: 0,
        referrer_rebates_accrued: 0,
    }
}

// Run a health test that includes all the side values (like
// referrer_rebates_accrued).
#[test]
fn test_health0() {
    let group: u64 = 42;

    let (bank1, oracle1) = mock_bank_and_oracle(group, 1, 1.0, 0.2, 0.1);
    let (bank2, oracle2) = mock_bank_and_oracle(group, 4, 5.0, 0.5, 0.3);

    let oo1_key: u64 = 5001;
    let mut oo1 = zeroed_open_orders();
    oo1.native_pc_total = 21;
    oo1.native_coin_total = 18;
    oo1.native_pc_free = 1;
    oo1.native_coin_free = 3;
    oo1.referrer_rebates_accrued = 2;

    let perp1 = mock_perp_market(group, 9, 4, 0.2, 0.1, 100, 10);

    let account = MangoAccount {
        group,
        tokens: vec![
            TokenPosition { token_index: 1, native: fx(100.0) },
            TokenPosition { token_index: 4, native: fx(-10.0) },
        ],
        serum3: vec![Serum3Orders {
            open_orders: oo1_key,
            base_token_index: 4,
            quote_token_index: 1,
        }],
        perps: vec![PerpPosition {
            market_index: 9,
            base_position_lots: 3,
            quote_position_native: fx(-310.0),
            bids_base_lots: 7,
            asks_base_lots: 11,
            taker_base_lots: 1,
            taker_quote_lots: 2,
        }],
    };

    let ais = vec![
        bank1,
        bank2,
        oracle1,
        oracle2,
        perp1,
        AccountRecord { key: oo1_key, data: RecordData::OpenOrders(oo1) },
    ];

    let retriever = ScanningAccountRetriever::new(ais, group).unwrap();

    // for bank1/oracle1, including open orders (scenario: bids execute)
    let health1 = (100.0 + 1.0 + 2.0 + (20.0 + 15.0 * 5.0)) * 0.8;
    // for bank2/oracle2
    let health2 = (-10.0 + 3.0) * 5.0 * 1.5;
    // for perp (scenario: bids execute)
    let health3 =
        (3.0 + 7.0 + 1.0) * 10.0 * 5.0 * 0.8 + (-310.0 + 2.0 * 100.0 - 7.0 * 10.0 * 5.0);
    assert!(health_eq(
        compute_health(&account, HealthType::Init, &retriever).unwrap(),
        health1 + health2 + health3
    ));
}

#[derive(Default)]
struct TestHealth1Case {
    token1: i64,
    token2: i64,
    token3: i64,
    oo_1_2: (u64, u64),
    oo_1_3: (u64, u64),
    perp1: (i64, i64, i64, i64),
    expected_health: f64,
}

fn test_health1_runner(testcase: &TestHealth1Case) {
    let group: u64 = 42;

    let (bank1, oracle1) = mock_bank_and_oracle(group, 1, 1.0, 0.2, 0.1);
    let (bank2, oracle2) = mock_bank_and_oracle(group, 4, 5.0, 0.5, 0.3);
    let (bank3, oracle3) = mock_bank_and_oracle(group, 5, 10.0, 0.5, 0.3);

    let oo1_key: u64 = 5001;
    let mut oo1 = zeroed_open_orders();
    oo1.native_pc_total = testcase.oo_1_2.0;
    oo1.native_coin_total = testcase.oo_1_2.1;

    let oo2_key: u64 = 5002;
    let mut oo2 = zeroed_open_orders();
    oo2.native_pc_total = testcase.oo_1_3.0;
    oo2.native_coin_total = testcase.oo_1_3.1;

    let perp1 = mock_perp_market(group, 9, 4, 0.2, 0.1, 100, 10);

    let account = MangoAccount {
        group,
        tokens: vec![
            TokenPosition { token_index: 1, native: fx(testcase.token1 as f64) },
            TokenPosition { token_index: 4, native: fx(testcase.token2 as f64) },
            TokenPosition { token_index: 5, native: fx(testcase.token3 as f64) },
        ],
        serum3: vec![
            Serum3Orders { open_orders: oo1_key, base_token_index: 4, quote_token_index: 1 },
            Serum3Orders { open_orders: oo2_key, base_token_index: 5, quote_token_index: 1 },
        ],
        perps: vec![PerpPosition {
            market_index: 9,
            base_position_lots: testcase.perp1.0,
            quote_position_native: fx(testcase.perp1.1 as f64),
            bids_base_lots: testcase.perp1.2,
            asks_base_lots: testcase.perp1.3,
            taker_base_lots: 0,
            taker_quote_lots: 0,
        }],
    };

    let ais = vec![
        bank1,
        bank2,
        bank3,
        oracle1,
        oracle2,
        oracle3,
        perp1,
        AccountRecord { key: oo1_key, data: RecordData::OpenOrders(oo1) },
        AccountRecord { key: oo2_key, data: RecordData::OpenOrders(oo2) },
    ];

    let retriever = ScanningAccountRetriever::new(ais, group).unwrap();

    assert!(health_eq(
        compute_health(&account, HealthType::Init, &retriever).unwrap(),
        testcase.expected_health
    ));
}

// Check some specific health constellations.
#[test]
fn test_health1() {
    let base_price = 5.0;
    let base_lots_to_quote = 10.0 * base_price;
    let testcases = vec![
        TestHealth1Case { // 0
            token1: 100,
            token2: -10,
            oo_1_2: (20, 15),
            perp1: (3, -131, 7, 11),
            expected_health:
                // for token1, including open orders (scenario: bids execute)
                (100.0 + (20.0 + 15.0 * base_price)) * 0.8
                // for token2
                - 10.0 * base_price * 1.5
                // for perp (scenario: bids execute)
                + (3.0 + 7.0) * base_lots_to_quote * 0.8 + (-131.0 - 7.0 * base_lots_to_quote),
            ..Default::default()
        },
        TestHealth1Case { // 1
            token1: -100,
            token2: 10,
            oo_1_2: (20, 15),
            perp1: (-10, -131, 7, 11),
            expected_health:
                // for token1
                -100.0 * 1.2
                // for token2, including open orders (scenario: asks execute)
                + (10.0 * base_price + (20.0 + 15.0 * base_price)) * 0.5
                // for perp (scenario: asks execute)
                + (-10.0 - 11.0) * base_lots_to_quote * 1.2 + (-131.0 + 11.0 * base_lots_to_quote),
            ..Default::default()
        },
        TestHealth1Case {
            // 2
            perp1: (-1, 100, 0, 0),
            expected_health: 0.0,
            ..Default::default()
        },
        TestHealth1Case {
            // 3
            perp1: (1, -100, 0, 0),
            expected_health: -100.0 + 0.8 * 1.0 * base_lots_to_quote,
            ..Default::default()
        },
        TestHealth1Case {
            // 4
            perp1: (10, 100, 0, 0),
            expected_health: 0.0,
            ..Default::default()
        },
        TestHealth1Case {
            // 5
            perp1: (30, -100, 0, 0),
            expected_health: 0.0,
            ..Default::default()
        },
        TestHealth1Case { // 6, reserved oo funds
            token1: -100,
            token2: -10,
            token3: -10,
            oo_1_2: (1, 1),
            oo_1_3: (1, 1),
            expected_health:
                // tokens
                -100.0 * 1.2 - 10.0 * 5.0 * 1.5 - 10.0 * 10.0 * 1.5
                // oo_1_2 (-> token1)
                + (1.0 + 5.0) * 1.2
                // oo_1_3 (-> token1)
                + (1.0 + 10.0) * 1.2,
            ..Default::default()
        },
        TestHealth1Case { // 7, reserved oo funds cross the zero balance level
            token1: -14,
            token2: -10,
            token3: -10,
            oo_1_2: (1, 1),
            oo_1_3: (1, 1),
            expected_health:
                // tokens
                -14.0 * 1.2 - 10.0 * 5.0 * 1.5 - 10.0 * 10.0 * 1.5
                // oo_1_2 (-> token1)
                + 3.0 * 1.2 + 3.0 * 0.8
                // oo_1_3 (-> token1)
                + 8.0 * 1.2 + 3.0 * 0.8,
            ..Default::default()
        },
        TestHealth1Case { // 8, reserved oo funds in a non-quote currency
            token1: -100,
            token2: -100,
            token3: -1,
            oo_1_2: (0, 0),
            oo_1_3: (10, 1),
            expected_health:
                // tokens
                -100.0 * 1.2 - 100.0 * 5.0 * 1.5 - 10.0 * 1.5
                // oo_1_3 (-> token3)
                + 10.0 * 1.5 + 10.0 * 0.5,
            ..Default::default()
        },
        TestHealth1Case { // 9, like 8 but oo_1_2 flips the oo_1_3 target
            token1: -100,
            token2: -100,
            token3: -1,
            oo_1_2: (100, 0),
            oo_1_3: (10, 1),
            expected_health:
                // tokens
                -100.0 * 1.2 - 100.0 * 5.0 * 1.5 - 10.0 * 1.5
                // oo_1_2 (-> token1)
                + 80.0 * 1.2 + 20.0 * 0.8
                // oo_1_3 (-> token1)
                + 20.0 * 0.8,
            ..Default::default()
        },
    ];

    for (i, testcase) in testcases.iter().enumerate() {
        println!("checking testcase {}", i);
        test_health1_runner(testcase);
    }
}

// An account with no active positions has health zero under both regimes.
#[test]
fn test_empty_account_health_is_zero() {
    let group: u64 = 7;
    let account = MangoAccount { group, tokens: vec![], serum3: vec![], perps: vec![] };
    let retriever = ScanningAccountRetriever::new(vec![], group).unwrap();
    let init = compute_health(&account, HealthType::Init, &retriever).unwrap();
    let maint = compute_health(&account, HealthType::Maint, &retriever).unwrap();
    assert_eq!(init.to_bits(), 0);
    assert_eq!(maint.to_bits(), 0);
}

// A single token's health is exactly balance times the applicable weight,
// for both health types and both balance signs.
#[test]
fn test_single_token_weighting() {
    let group: u64 = 7;
    for &(native, price, init_w, maint_w) in
        [(100.0, 2.0, 0.2, 0.1), (-40.0, 2.5, 0.4, 0.2)].iter()
    {
        let (bank, oracle) = mock_bank_and_oracle(group, 1, price, init_w, maint_w);
        let account = MangoAccount {
            group,
            tokens: vec![TokenPosition { token_index: 1, native: fx(native) }],
            serum3: vec![],
            perps: vec![],
        };
        let retriever = ScanningAccountRetriever::new(vec![bank, oracle], group).unwrap();
        let balance: f64 = native * price;
        let init_weight = if balance >= 0.0 { 1.0 - init_w } else { 1.0 + init_w };
        let maint_weight = if balance >= 0.0 { 1.0 - maint_w } else { 1.0 + maint_w };
        assert!(health_eq(
            compute_health(&account, HealthType::Init, &retriever).unwrap(),
            balance * init_weight
        ));
        assert!(health_eq(
            compute_health(&account, HealthType::Maint, &retriever).unwrap(),
            balance * maint_weight
        ));
    }
}

// The spot reservation contribution equals the smaller of the two sides'
// effects and lies between the two (the sandwich property, on concrete
// values): with base worth much less than quote, the base side is assumed.
#[test]
fn test_serum3_reservation_takes_worse_side() {
    let group: u64 = 7;
    let (bank1, oracle1) = mock_bank_and_oracle(group, 1, 1.0, 0.2, 0.1);
    let (bank2, oracle2) = mock_bank_and_oracle(group, 2, 5.0, 0.5, 0.3);
    let oo_key: u64 = 5001;
    let mut oo = zeroed_open_orders();
    oo.native_coin_total = 10;
    oo.native_pc_total = 4;
    let account = MangoAccount {
        group,
        tokens: vec![
            TokenPosition { token_index: 1, native: fx(0.0) },
            TokenPosition { token_index: 2, native: fx(0.0) },
        ],
        serum3: vec![Serum3Orders { open_orders: oo_key, base_token_index: 2, quote_token_index: 1 }],
        perps: vec![],
    };
    let ais = vec![
        bank1,
        bank2,
        oracle1,
        oracle2,
        AccountRecord { key: oo_key, data: RecordData::OpenOrders(oo) },
    ];
    let retriever = ScanningAccountRetriever::new(ais, group).unwrap();
    // reserved value = 10 * 5 + 4 * 1 = 54, both balances zero.
    // base side (token 2, weights 0.5/1.5): 54 * 0.5 = 27
    // quote side (token 1, weights 0.8/1.2): 54 * 0.8 = 43.2
    let base_side: f64 = 54.0 * 0.5;
    let quote_side: f64 = 54.0 * 0.8;
    let h = compute_health(&account, HealthType::Init, &retriever).unwrap();
    assert!(health_eq(h, base_side.min(quote_side)));
    assert!(fx_to_f64(h) <= base_side.max(quote_side) + 0.001);
    assert!(fx_to_f64(h) >= base_side.min(quote_side) - 0.001);
}

// The perp scenario choice (bids vs asks) is the same for Init and Maint:
// with |bids_net| > |asks_net| both regimes price the bids scenario.
#[test]
fn test_perp_scenario_choice_same_for_both_types() {
    let group: u64 = 7;
    let (bank, oracle) = mock_bank_and_oracle(group, 4, 5.0, 0.5, 0.3);
    let perp = mock_perp_market(group, 9, 4, 0.2, 0.1, 100, 10);
    let account = MangoAccount {
        group,
        tokens: vec![TokenPosition { token_index: 4, native: fx(0.0) }],
        serum3: vec![],
        perps: vec![PerpPosition {
            market_index: 9,
            base_position_lots: 3,
            quote_position_native: fx(-500.0),
            bids_base_lots: 7,
            asks_base_lots: 1,
            taker_base_lots: 0,
            taker_quote_lots: 0,
        }],
    };
    let ais = vec![bank, oracle, perp];
    let retriever = ScanningAccountRetriever::new(ais, group).unwrap();
    let lots_to_quote = 10.0 * 5.0;
    // bids_net = 10, asks_net = 2: the bids scenario is chosen either way.
    let expected = |w: f64| -> f64 {
        ((3.0 + 7.0) * lots_to_quote * w + (-500.0 - 7.0 * lots_to_quote)).min(0.0)
    };
    assert!(health_eq(
        compute_health(&account, HealthType::Init, &retriever).unwrap(),
        expected(0.8)
    ));
    assert!(health_eq(
        compute_health(&account, HealthType::Maint, &retriever).unwrap(),
        expected(0.9)
    ));
}

// Perp health is never positive, even for a large unsettled gain.
#[test]
fn test_perp_health_capped_at_zero() {
    let group: u64 = 7;
    let (bank, oracle) = mock_bank_and_oracle(group, 4, 5.0, 0.5, 0.3);
    let perp = mock_perp_market(group, 9, 4, 0.2, 0.1, 100, 10);
    let cases: Vec<(i64, f64, i64, i64)> = vec![
        (10, 100.0, 0, 0),
        (-10, 10000.0, 3, 5),
        (0, 12.5, 0, 0),
        (2, -1.0, 1, 1),
    ];
    for &(base_lots, quote, bids, asks) in cases.iter() {
        let account = MangoAccount {
            group,
            tokens: vec![TokenPosition { token_index: 4, native: fx(0.0) }],
            serum3: vec![],
            perps: vec![PerpPosition {
                market_index: 9,
                base_position_lots: base_lots,
                quote_position_native: fx(quote),
                bids_base_lots: bids,
                asks_base_lots: asks,
                taker_base_lots: 0,
                taker_quote_lots: 0,
            }],
        };
        let ais = vec![bank, oracle, perp];
        let retriever = ScanningAccountRetriever::new(ais, group).unwrap();
        let h = compute_health(&account, HealthType::Init, &retriever).unwrap();
        assert!(h.to_bits() <= 0);
    }
}

// Evaluating an unmodified cache twice yields bit-identical results.
#[test]
fn test_health_idempotent() {
    let group: u64 = 7;
    let (bank1, oracle1) = mock_bank_and_oracle(group, 1, 1.0, 0.2, 0.1);
    let (bank2, oracle2) = mock_bank_and_oracle(group, 4, 5.0, 0.5, 0.3);
    let oo_key: u64 = 5001;
    let mut oo = zeroed_open_orders();
    oo.native_pc_total = 21;
    oo.native_coin_total = 18;
    oo.native_pc_free = 1;
    oo.native_coin_free = 3;
    let account = MangoAccount {
        group,
        tokens: vec![
            TokenPosition { token_index: 1, native: fx(100.0) },
            TokenPosition { token_index: 4, native: fx(-10.0) },
        ],
        serum3: vec![Serum3Orders { open_orders: oo_key, base_token_index: 4, quote_token_index: 1 }],
        perps: vec![],
    };
    let ais = vec![
        bank1,
        bank2,
        oracle1,
        oracle2,
        AccountRecord { key: oo_key, data: RecordData::OpenOrders(oo) },
    ];
    let retriever = ScanningAccountRetriever::new(ais, group).unwrap();
    let cache = mango_health::new_health_cache(&account, &retriever).unwrap();
    let h1 = cache.health(HealthType::Init).unwrap();
    let h2 = cache.health(HealthType::Init).unwrap();
    assert_eq!(h1.to_bits(), h2.to_bits());
}

// Adjusting a token balance re-prices the delta at the cached oracle price;
// an unknown token is reported.
#[test]
fn test_adjust_token_balance() {
    let group: u64 = 7;
    let (bank, oracle) = mock_bank_and_oracle(group, 4, 5.0, 0.5, 0.3);
    let account = MangoAccount {
        group,
        tokens: vec![TokenPosition { token_index: 4, native: fx(10.0) }],
        serum3: vec![],
        perps: vec![],
    };
    let retriever = ScanningAccountRetriever::new(vec![bank, oracle], group).unwrap();
    let mut cache = mango_health::new_health_cache(&account, &retriever).unwrap();
    cache.adjust_token_balance(4, fx(2.0)).unwrap();
    // balance becomes (10 + 2) * 5 = 60, weighted by 0.5.
    assert!(health_eq(cache.health(HealthType::Init).unwrap(), 60.0 * 0.5));
    assert_eq!(
        cache.adjust_token_balance(5, fx(1.0)),
        Err(HealthError::TokenInfoNotFound)
    );
}

// Dust threshold edges for the liquidatable-assets and borrows queries.
#[test]
fn test_has_liquidatable_assets_and_borrows() {
    let group: u64 = 7;
    let (bank, oracle) = mock_bank_and_oracle(group, 4, 1.0, 0.5, 0.3);
    let build = |native: Fx| {
        let account = MangoAccount {
            group,
            tokens: vec![TokenPosition { token_index: 4, native }],
            serum3: vec![],
            perps: vec![],
        };
        let retriever = ScanningAccountRetriever::new(vec![bank, oracle], group).unwrap();
        mango_health::new_health_cache(&account, &retriever).unwrap()
    };
    // Exactly at the threshold: not liquidatable (the comparison is strict).
    let at_threshold = build(Fx::from_bits(BANKRUPTCY_DUST_THRESHOLD_BITS));
    assert!(!at_threshold.has_liquidatable_assets());
    assert!(!at_threshold.has_borrows());
    // One bit above: liquidatable.
    let above = build(Fx::from_bits(BANKRUPTCY_DUST_THRESHOLD_BITS + 1));
    assert!(above.has_liquidatable_assets());
    assert!(!above.has_borrows());
    // Negative balance: a borrow, not a liquidatable asset.
    let negative = build(fx(-1.0));
    assert!(!negative.has_liquidatable_assets());
    assert!(negative.has_borrows());
    // Empty cache: neither.
    let empty = HealthCache { token_infos: vec![], serum3_infos: vec![], perp_infos: vec![] };
    assert!(!empty.has_liquidatable_assets());
    assert!(!empty.has_borrows());
}

// The dust threshold constant is one microunit in 48-bit fixed point, as
// the fixed crate parses it.
#[test]
fn test_dust_threshold_constant() {
    let parsed = I80F48::from_str("0.000001").unwrap();
    assert_eq!(parsed.to_bits() as i128, BANKRUPTCY_DUST_THRESHOLD_BITS);
}

// The fixed-point multiplication behaves as its contract says: exact
// products, rounding toward negative infinity, and overflow reported.
#[test]
fn test_fx_multiplication() {
    assert_eq!(
        Fx::from_i64(6).checked_mul(Fx::from_i64(7)).unwrap(),
        Fx::from_i64(42)
    );
    // (1/2^48) * (-1/2^48) rounds down to -1/2^48, not up to zero.
    assert_eq!(
        Fx::from_bits(1).checked_mul(Fx::from_bits(-1)).unwrap(),
        Fx::from_bits(-1)
    );
    assert!(Fx::from_bits(i128::MAX).checked_mul(Fx::from_i64(2)).is_none());
    assert_eq!(
        Fx::from_bits(i128::MAX).checked_mul(Fx::from_i64(1)).unwrap(),
        Fx::from_bits(i128::MAX)
    );
}

// An overflowing balance conversion surfaces as ArithmeticOverflow.
#[test]
fn test_arithmetic_overflow_reported() {
    let group: u64 = 7;
    let (bank, oracle) = mock_bank_and_oracle(group, 4, 1000000.0, 0.5, 0.3);
    let account = MangoAccount {
        group,
        tokens: vec![TokenPosition { token_index: 4, native: Fx::from_bits(i128::MAX) }],
        serum3: vec![],
        perps: vec![],
    };
    let retriever = ScanningAccountRetriever::new(vec![bank, oracle], group).unwrap();
    assert_eq!(
        compute_health(&account, HealthType::Init, &retriever),
        Err(HealthError::ArithmeticOverflow)
    );
}

// A spot market whose tokens have no active position is reported.
#[test]
fn test_serum3_token_not_found() {
    let group: u64 = 7;
    let (bank, oracle) = mock_bank_and_oracle(group, 1, 1.0, 0.2, 0.1);
    let oo_key: u64 = 5001;
    let account = MangoAccount {
        group,
        tokens: vec![TokenPosition { token_index: 1, native: fx(1.0) }],
        serum3: vec![Serum3Orders { open_orders: oo_key, base_token_index: 2, quote_token_index: 1 }],
        perps: vec![],
    };
    let ais = vec![
        bank,
        oracle,
        AccountRecord { key: oo_key, data: RecordData::OpenOrders(zeroed_open_orders()) },
    ];
    let retriever = ScanningAccountRetriever::new(ais, group).unwrap();
    assert_eq!(
        compute_health(&account, HealthType::Init, &retriever),
        Err(HealthError::TokenInfoNotFound)
    );
}
