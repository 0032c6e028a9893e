use ethers::types::{H160, H256, U256};
use mempool_arbitrage::bundle::{
    bundle_status_from_code, create_combined_call, submission_outcome, validate_target_block, Bundle,
    BundleStatus, BundleTracker, FastLaneClient,
};
use mempool_arbitrage::decoder::{encode_action_call, PendingTx, QuickSwapAction};
use mempool_arbitrage::error::PipelineError;
use mempool_arbitrage::ingest::SeenTransactions;
use mempool_arbitrage::monitor::MempoolMonitor;
use mempool_arbitrage::opportunity::{
    analyze_arbitrage, estimate_gas_cost, execution_plan, should_execute, ArbitrageOpportunity,
    OpportunityPolicy, OpportunityStore,
};
use mempool_arbitrage::paths::generate_arbitrage_paths;
use mempool_arbitrage::routers::{parse_quickswap_tx, quickswap_router_address};
use mempool_arbitrage::simulation::{
    calculate_path_profit, resolve_price_impact, select_best_path, simulate_complex_path, AdvancedSimulationEngine,
    PathQuote, SimulationCache, SimulationInputs, SimulationResult, DEFAULT_DEPTH,
};

fn addr(b: u8) -> H160 {
    H160([b; 20])
}

fn hash(b: u8) -> H256 {
    H256([b; 32])
}

fn quote(path: Vec<H160>, gross: u64, fees: u64, slippage: u64) -> PathQuote {
    PathQuote {
        path,
        gross_output: U256::from(gross),
        fees: U256::from(fees),
        slippage: U256::from(slippage),
    }
}

fn inputs(impact: u64) -> SimulationInputs {
    SimulationInputs {
        price_impact: U256::from(impact),
        base_cost: U256::zero(),
        gas_estimate: U256::from(9_000_000u64),
        success_probability_bps: 8500,
    }
}

fn opportunity(profit: U256) -> ArbitrageOpportunity {
    ArbitrageOpportunity {
        token_in: addr(1),
        token_out: addr(1),
        amount_in: U256::exp10(18),
        expected_profit: profit,
        path: vec![addr(1), addr(2), addr(1)],
        routers: vec![addr(0xa), addr(0xb)],
        pool_address: addr(0xc),
        fee: 3000,
        amounts: vec![U256::exp10(18)],
        flash_loan_contract: addr(0xf),
    }
}

#[test]
fn same_hash_twice_is_forwarded_once() {
    let mut seen = SeenTransactions::new();
    assert!(seen.observe(hash(1)));
    assert!(!seen.observe(hash(1)));
    assert!(seen.contains(&hash(1)));
    assert!(!seen.contains(&hash(2)));
    let out = seen.observe_all(&vec![hash(2), hash(3), hash(2), hash(1), hash(3)]);
    assert_eq!(out, vec![hash(2), hash(3)]);
}

#[test]
fn hashes_sharing_a_bucket_stay_distinct() {
    let mut a = [0u8; 32];
    let mut b = [0u8; 32];
    a[31] = 1;
    b[31] = 2;
    let mut seen = SeenTransactions::new();
    assert!(seen.observe(H256(a)));
    assert!(seen.observe(H256(b)));
    assert!(!seen.observe(H256(a)));
    assert!(!seen.observe(H256(b)));
}

#[test]
fn path_profit_subtracts_fees_and_slippage() {
    let q = PathQuote {
        path: vec![addr(1), addr(2), addr(1)],
        gross_output: U256::from(15).pow(U256::from(15)),
        fees: U256::from(2).pow(U256::from(15)),
        slippage: U256::from(1).pow(U256::from(15)),
    };
    assert_eq!(calculate_path_profit(&q, U256::zero()), U256::from(437_893_890_380_826_606u64));
    assert_eq!(calculate_path_profit(&q, U256::from(437_893_890_380_826_607u64)), U256::zero());
    assert_eq!(calculate_path_profit(&quote(vec![], 5, 10, 0), U256::zero()), U256::zero());
}

#[test]
fn best_path_prefers_profit_then_fewer_hops() {
    let quotes = vec![
        quote(vec![addr(1), addr(2), addr(3), addr(1)], 100, 0, 0),
        quote(vec![addr(1), addr(2), addr(1)], 100, 0, 0),
        quote(vec![addr(1), addr(3), addr(1)], 100, 0, 0),
        quote(vec![addr(1), addr(4), addr(1)], 90, 0, 0),
    ];
    assert_eq!(select_best_path(&quotes, U256::zero(), DEFAULT_DEPTH), Some(1));
    let quotes = vec![
        quote(vec![addr(1), addr(2), addr(1)], 50, 0, 0),
        quote(vec![addr(1), addr(2), addr(3), addr(1)], 70, 0, 0),
    ];
    assert_eq!(select_best_path(&quotes, U256::zero(), DEFAULT_DEPTH), Some(1));
    assert_eq!(select_best_path(&quotes, U256::zero(), 2), Some(0));
}

#[test]
fn zero_profit_still_selects_the_shortest_best_path() {
    let quotes = vec![
        quote(vec![addr(1), addr(2), addr(3), addr(1)], 10, 10, 0),
        quote(vec![addr(1), addr(2), addr(1)], 10, 10, 0),
        quote(vec![addr(1)], 1000, 0, 0),
    ];
    assert_eq!(select_best_path(&quotes, U256::zero(), DEFAULT_DEPTH), Some(1));
    let r = simulate_complex_path(&quotes, DEFAULT_DEPTH, &inputs(150));
    assert_eq!(r.expected_profit, U256::zero());
    assert_eq!(r.optimal_path, vec![addr(1), addr(2), addr(1)]);
    assert_eq!(r.price_impact, U256::from(150u64));
    assert_eq!(r.success_probability_bps, 8500);
}

#[test]
fn no_candidate_within_depth_selects_nothing() {
    let quotes = vec![
        quote(vec![addr(1)], 1000, 0, 0),
        quote(vec![addr(1), addr(2), addr(3), addr(4), addr(1)], 1000, 0, 0),
    ];
    assert_eq!(select_best_path(&quotes, U256::zero(), DEFAULT_DEPTH), None);
    let r = simulate_complex_path(&quotes, DEFAULT_DEPTH, &inputs(150));
    assert_eq!(r.expected_profit, U256::zero());
    assert!(r.optimal_path.is_empty());
    assert!(simulate_complex_path(&vec![], DEFAULT_DEPTH, &inputs(1)).optimal_path.is_empty());
}

#[test]
fn engine_and_monitor_start_with_the_known_routers() {
    let engine = AdvancedSimulationEngine::new();
    let names: Vec<&str> = engine.dex_routers.routers.iter().map(|r| r.name.as_str()).collect();
    assert_eq!(names, vec!["QuickSwap", "SushiSwap", "UniswapV3"]);
    let expected: Vec<H160> = [
        "0xa5E0829CaCEd8fFDD4De3c43696c57F7D7A678ff",
        "0x1b02dA8Cb0d097eB8D57A175b88c7D8b47997506",
        "0xE592427A0AEce92De3Edee1F18E0157C05861564",
    ]
    .iter()
    .map(|a| a.parse().unwrap())
    .collect();
    let addresses: Vec<H160> = engine.dex_routers.routers.iter().map(|r| r.address).collect();
    assert_eq!(addresses, expected);
    assert!(engine.simulation_cache.lookup(&hash(1)).is_none());
    let monitor = MempoolMonitor::new(addr(0xf));
    let addresses: Vec<H160> = monitor.routers.routers.iter().map(|r| r.address).collect();
    assert_eq!(addresses, expected);
    assert_eq!(monitor.policy.min_price_impact, U256::from(100u64));
    assert_eq!(monitor.policy.min_profit, U256::exp10(15));
    assert_eq!(monitor.policy.trade_size, U256::exp10(18));
    assert_eq!(monitor.policy.fee, 3000);
    let w: H160 = "0x0d500B1d8E8eF31E21C99d1Db9A6444d3ADf1270".parse().unwrap();
    assert_eq!(mempool_arbitrage::routers::wmatic_address(), w);
}

#[test]
fn simulating_the_same_hash_twice_is_identical() {
    let mut engine = AdvancedSimulationEngine::new();
    let first = vec![quote(vec![addr(1), addr(2), addr(1)], 500, 100, 0)];
    let second = vec![quote(vec![addr(1), addr(3), addr(1)], 9000, 0, 0)];
    let a = engine.simulate_multi_dex_arbitrage(hash(4), &first, DEFAULT_DEPTH, &inputs(150));
    let b = engine.simulate_multi_dex_arbitrage(hash(4), &second, DEFAULT_DEPTH, &inputs(999));
    assert_eq!(a.expected_profit, U256::from(400u64));
    assert_eq!(b.expected_profit, a.expected_profit);
    assert_eq!(b.optimal_path, a.optimal_path);
    assert_eq!(b.price_impact, a.price_impact);
    assert_eq!(b.gas_estimate, a.gas_estimate);
    let c = engine.simulate_multi_dex_arbitrage(hash(5), &second, DEFAULT_DEPTH, &inputs(999));
    assert_eq!(c.expected_profit, U256::from(9000u64));
}

#[test]
fn cache_keeps_the_first_recorded_result() {
    let mut cache = SimulationCache::new();
    assert!(cache.lookup(&hash(1)).is_none());
    let first = simulate_complex_path(&vec![quote(vec![addr(1), addr(2)], 5, 0, 0)], 3, &inputs(1));
    let second = simulate_complex_path(&vec![quote(vec![addr(1), addr(3)], 8, 0, 0)], 3, &inputs(2));
    let r1 = cache.record(hash(1), first);
    let r2 = cache.record(hash(1), second);
    assert_eq!(r1.expected_profit, U256::from(5u64));
    assert_eq!(r2.expected_profit, U256::from(5u64));
    assert_eq!(cache.lookup(&hash(1)).unwrap().optimal_path, vec![addr(1), addr(2)]);
}

fn simulated(impact: u64, profit: U256, path: Vec<H160>) -> SimulationResult {
    SimulationResult {
        price_impact: U256::from(impact),
        expected_profit: profit,
        gas_estimate: U256::zero(),
        success_probability_bps: 8500,
        optimal_path: path,
    }
}

#[test]
fn opportunities_need_impact_and_profit_above_thresholds() {
    let policy = OpportunityPolicy::default_policy();
    let path = vec![addr(1), addr(2), addr(1)];
    let ok = simulated(150, U256::from(2) * U256::exp10(15), path.clone());
    let o = analyze_arbitrage(&ok, &policy, vec![addr(0xa)], addr(0xc), addr(0xf)).unwrap();
    assert_eq!(o.token_in, addr(1));
    assert_eq!(o.token_out, addr(1));
    assert_eq!(o.amount_in, U256::exp10(18));
    assert_eq!(o.expected_profit, U256::from(2) * U256::exp10(15));
    assert_eq!(o.path, path);
    assert_eq!(o.amounts, vec![U256::exp10(18)]);
    assert_eq!(o.fee, 3000);
    let low_impact = simulated(100, U256::from(2) * U256::exp10(15), path.clone());
    assert!(analyze_arbitrage(&low_impact, &policy, vec![], addr(0xc), addr(0xf)).is_none());
    let low_profit = simulated(150, U256::exp10(15), path.clone());
    assert!(analyze_arbitrage(&low_profit, &policy, vec![], addr(0xc), addr(0xf)).is_none());
    let no_path = simulated(150, U256::from(2) * U256::exp10(15), vec![addr(1)]);
    assert!(analyze_arbitrage(&no_path, &policy, vec![], addr(0xc), addr(0xf)).is_none());
}

#[test]
fn unprofitable_opportunity_is_discarded() {
    let o = opportunity(U256::from(2_000_000u64));
    assert!(!should_execute(&o, U256::from(10u64)));
    assert!(should_execute(&o, U256::from(6u64)));
    let at_cost = opportunity(U256::from(1_800_000u64));
    assert!(!should_execute(&at_cost, U256::from(6u64)));
    assert!(!should_execute(&o, U256::MAX));
    assert_eq!(estimate_gas_cost(U256::from(10u64), 300_000), Some(U256::from(3_000_000u64)));
    assert_eq!(estimate_gas_cost(U256::MAX, 2), None);
    let plan = execution_plan(&vec![o, opportunity(U256::from(4_000_000u64))], U256::from(10u64));
    assert_eq!(plan, vec![false, true]);
}

#[test]
fn store_is_drained_each_cycle() {
    let mut store = OpportunityStore::new();
    store.push(opportunity(U256::one()));
    store.push(opportunity(U256::from(2u64)));
    assert_eq!(store.len(), 2);
    let taken = store.drain();
    assert_eq!(taken.len(), 2);
    assert_eq!(taken[1].expected_profit, U256::from(2u64));
    assert_eq!(store.len(), 0);
}

#[test]
fn target_block_must_lie_in_the_window() {
    let current = 1000u64;
    assert_eq!(validate_target_block(current, current), Err(PipelineError::StaleBundleTarget));
    assert_eq!(validate_target_block(current - 1, current), Err(PipelineError::StaleBundleTarget));
    assert_eq!(validate_target_block(current + 6, current), Err(PipelineError::StaleBundleTarget));
    assert_eq!(validate_target_block(current + 1, current), Ok(()));
    assert_eq!(validate_target_block(current + 5, current), Ok(()));
    assert_eq!(validate_target_block(u64::MAX, u64::MAX - 1), Ok(()));
}

#[test]
fn multi_leg_bundle_has_three_flagged_legs() {
    let client = FastLaneClient::new(addr(0xfa), addr(0x50));
    let o = opportunity(U256::exp10(16));
    let gas_price = U256::from(40_000_000_000u64);
    let bundle = client.create_arbitrage_bundle(&o, gas_price, 500, 1_700_000_000);
    assert_eq!(bundle.transactions.len(), 3);
    let flags: Vec<bool> = bundle.transactions.iter().map(|t| t.can_revert).collect();
    assert_eq!(flags, vec![false, true, false]);
    assert_eq!(bundle.block_number, 501);
    assert_eq!(bundle.target_block, Some(501));
    assert_eq!(bundle.min_timestamp, None);
    assert_eq!(bundle.max_timestamp, Some(1_700_000_120));
    assert!(bundle.reverting_tx_hashes.is_empty());
    let loan = &bundle.transactions[0].tx;
    assert_eq!(loan.to, addr(0xf));
    assert_eq!(loan.gas, U256::from(300_000u64));
    assert_eq!(loan.gas_price, gas_price);
    assert_eq!(loan.value, U256::zero());
    assert_eq!(&loan.data[..4], &ethers::utils::id("executeFlashLoan(address,address,uint256,address[])"));
    let arb = &bundle.transactions[1].tx;
    assert_eq!(arb.to, addr(0x50));
    assert_eq!(arb.gas, U256::from(500_000u64));
    assert_eq!(&arb.data[..4], &ethers::utils::id("executeArbitrage(address[],uint256[],address[])"));
    let repay = &bundle.transactions[2].tx;
    assert_eq!(repay.gas, U256::from(200_000u64));
    assert_eq!(repay.data.len(), 4 + 64);
    assert_eq!(U256::from_big_endian(&repay.data[36..68]), U256::exp10(18));
    let wrapped = Bundle::MultiLeg(bundle);
    assert_eq!(wrapped.validate(500), Ok(()));
    assert_eq!(wrapped.validate(501), Err(PipelineError::StaleBundleTarget));
    assert_eq!(wrapped.validate(495), Err(PipelineError::StaleBundleTarget));
}

#[test]
fn combined_call_targets_the_next_block() {
    let o = opportunity(U256::exp10(16));
    let call = create_combined_call(&o, 77);
    assert_eq!(call.target_block, 78);
    assert_eq!(call.contract, addr(0xf));
    assert_eq!(
        &call.data[..4],
        &ethers::utils::id("executeFlashLoanArbitrage(address,address,uint256,uint256,uint24,address[],uint256[],address[])")
    );
    assert_eq!(U256::from_big_endian(&call.data[4 + 128..4 + 160]), U256::from(3000u64));
    assert_eq!(Bundle::Combined(call).validate(77), Ok(()));
}

#[test]
fn missing_receipt_is_a_failed_submission() {
    assert_eq!(submission_outcome::<()>(Ok(None)), Err(PipelineError::BundleSubmissionFailed));
    assert_eq!(submission_outcome::<&str>(Err("rejected")), Err(PipelineError::BundleSubmissionFailed));
    assert_eq!(submission_outcome::<()>(Ok(Some(hash(9)))), Ok(hash(9)));
}

#[test]
fn status_codes_and_transitions() {
    assert_eq!(bundle_status_from_code(0), BundleStatus::Pending);
    assert_eq!(bundle_status_from_code(1), BundleStatus::Included);
    assert_eq!(bundle_status_from_code(2), BundleStatus::Failed);
    assert_eq!(bundle_status_from_code(7), BundleStatus::Pending);
    let mut t = BundleTracker::new(hash(4), Some(100));
    assert_eq!(t.update(7, 50), BundleStatus::Pending);
    assert_eq!(t.update(3, 100), BundleStatus::Pending);
    assert_eq!(t.update(3, 101), BundleStatus::Timeout);
    let mut t = BundleTracker::new(hash(1), Some(100));
    assert_eq!(t.update(0, 50), BundleStatus::Pending);
    assert_eq!(t.update(2, 60), BundleStatus::Failed);
    assert_eq!(t.update(1, 70), BundleStatus::Failed);
    let mut t = BundleTracker::new(hash(2), Some(100));
    assert_eq!(t.update(0, 101), BundleStatus::Timeout);
    assert_eq!(t.update(1, 102), BundleStatus::Timeout);
    let mut t = BundleTracker::new(hash(3), None);
    assert_eq!(t.update(0, u64::MAX), BundleStatus::Pending);
}

#[test]
fn swap_to_included_bundle_end_to_end() {
    let token_a = addr(0xaa);
    let token_b = addr(0xbb);
    let amount_in = U256::exp10(18);
    let action = QuickSwapAction::SwapExactTokensForTokens {
        amount_in,
        amount_out_min: U256::one(),
        path: vec![token_a, token_b],
        to: addr(0x33),
        deadline: U256::from(1_700_000_100u64),
    };
    let tx = PendingTx {
        hash: hash(0x77),
        from: addr(0x33),
        to: Some(quickswap_router_address()),
        value: U256::zero(),
        input: encode_action_call(&action),
        gas_price: U256::from(30_000_000_000u64),
    };
    let mut monitor = MempoolMonitor::new(addr(0xf));
    assert!(monitor.process_transaction(&tx));
    assert!(!monitor.process_transaction(&tx));
    let decoded = parse_quickswap_tx(&tx).unwrap().unwrap();
    assert_eq!(decoded.get_path(), vec![token_a, token_b]);

    let mut engine = AdvancedSimulationEngine::new();
    let profit = U256::from(2) * U256::exp10(15);
    let quotes = vec![PathQuote {
        path: vec![token_a, token_b, token_a],
        gross_output: profit,
        fees: U256::zero(),
        slippage: U256::zero(),
    }];
    let sim = engine.simulate_multi_dex_arbitrage(tx.hash, &quotes, DEFAULT_DEPTH, &inputs(150));
    assert_eq!(sim.expected_profit, profit);
    assert!(monitor.record_simulation(&sim, vec![addr(0xa), addr(0xb)], addr(0xc)));
    let mut ready = monitor.take_opportunities();
    assert_eq!(ready.len(), 1);
    let o = ready.pop().unwrap();
    assert_eq!(o.expected_profit, profit);

    let gas_price = U256::from(1_000_000_000u64);
    assert!(should_execute(&o, gas_price));
    let current_block = 42_000_000u64;
    let client = FastLaneClient::new(addr(0xfa), addr(0x50));
    let bundle = Bundle::MultiLeg(client.create_arbitrage_bundle(&o, gas_price, current_block, 1_700_000_000));
    assert_eq!(bundle.target_block(), current_block + 1);
    assert_eq!(bundle.validate(current_block), Ok(()));
    let bundle_hash = submission_outcome::<()>(Ok(Some(hash(0x99)))).unwrap();
    let mut tracker = BundleTracker::new(bundle_hash, Some(1_700_000_120));
    assert_eq!(tracker.status, BundleStatus::Pending);
    assert_eq!(tracker.update(0, 1_700_000_002), BundleStatus::Pending);
    assert_eq!(tracker.update(1, 1_700_000_004), BundleStatus::Included);
}

fn pool(liquidity: u64) -> mempool_arbitrage::simulation::PoolData {
    mempool_arbitrage::simulation::PoolData {
        token0: addr(1),
        token1: addr(2),
        fee: 500,
        liquidity: U256::from(liquidity),
        sqrt_price_x96: U256::from(79_228_162_514_264_337_593_543_950_336u128),
    }
}

#[test]
fn pool_state_is_read_once() {
    let mut cache = mempool_arbitrage::simulation::PoolCache::new();
    cache.refresh(addr(0x10), pool(5));
    cache.refresh(addr(0x20), pool(6));
    cache.refresh(addr(0x10), pool(7));
    let first = cache.take(&addr(0x10)).unwrap();
    assert_eq!(first.liquidity, U256::from(7u64));
    assert!(cache.take(&addr(0x10)).is_none());
    assert_eq!(cache.take(&addr(0x20)).unwrap().liquidity, U256::from(6u64));
    assert!(cache.take(&addr(0x30)).is_none());
}

#[test]
fn monitor_screens_and_stores() {
    let mut monitor = MempoolMonitor::new(addr(0xf));
    let elsewhere = PendingTx {
        hash: hash(1),
        from: addr(2),
        to: Some(addr(3)),
        value: U256::zero(),
        input: vec![],
        gas_price: U256::one(),
    };
    assert!(!monitor.process_transaction(&elsewhere));
    let rejected = simulated(50, U256::exp10(17), vec![addr(1), addr(2), addr(1)]);
    assert!(!monitor.record_simulation(&rejected, vec![], addr(0xc)));
    assert!(monitor.take_opportunities().is_empty());
    let accepted = simulated(150, U256::exp10(17), vec![addr(1), addr(2), addr(1)]);
    assert!(monitor.record_simulation(&accepted, vec![addr(0xa)], addr(0xc)));
    let taken = monitor.take_opportunities();
    assert_eq!(taken.len(), 1);
    assert_eq!(taken[0].flash_loan_contract, addr(0xf));
    assert_eq!(taken[0].pool_address, addr(0xc));
    assert!(monitor.take_opportunities().is_empty());
}

#[test]
fn price_impact_falls_back_to_the_estimate() {
    assert_eq!(resolve_price_impact(Some(U256::from(150u64)), Some(U256::from(90u64))), Ok(U256::from(150u64)));
    assert_eq!(resolve_price_impact(None, Some(U256::from(90u64))), Ok(U256::from(90u64)));
    assert_eq!(resolve_price_impact(None, None), Err(PipelineError::SimulationUnavailable));
}

#[test]
fn unresolved_window_is_reported_as_timeout() {
    let mut t = BundleTracker::new(hash(8), Some(10));
    assert_eq!(t.report(), Ok(BundleStatus::Pending));
    t.update(0, 11);
    assert_eq!(t.report(), Err(PipelineError::Timeout));
    let mut t = BundleTracker::new(hash(9), Some(10));
    t.update(1, 5);
    assert_eq!(t.report(), Ok(BundleStatus::Included));
}

#[test]
fn cycles_through_distinct_tokens_up_to_the_depth() {
    let w = addr(1);
    let u = addr(2);
    let t = addr(3);
    let cycles = generate_arbitrage_paths(w, &vec![u, t, w], 3);
    assert_eq!(cycles, vec![vec![w, u, w], vec![w, t, w], vec![w, u, t, w], vec![w, t, u, w]]);
    let short = generate_arbitrage_paths(w, &vec![u, t], 2);
    assert_eq!(short, vec![vec![w, u, w], vec![w, t, w]]);
    assert!(generate_arbitrage_paths(w, &vec![u, t], 1).is_empty());
    assert!(generate_arbitrage_paths(w, &vec![], 3).is_empty());
    assert_eq!(generate_arbitrage_paths(w, &vec![u, t], 4).len(), 4);
}
