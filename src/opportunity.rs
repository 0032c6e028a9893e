//! Arbitrage opportunities: materialising them from simulation results, the
//! store that holds them between scheduler cycles, and the profitability
//! gate that decides which are executed.
use vstd::prelude::*;
use ethers::types::{H160, U256};
use crate::decoder::copy_path;
use crate::eth::{u256_checked_mul_u64, u256_from_u64, u256_lt, u256_bound, u256_value};
use crate::routers::DEFAULT_FEE;
use crate::simulation::SimulationResult;

verus! {

/// Gas units that one arbitrage execution is assumed to use.
pub const ASSUMED_GAS_UNITS: u64 = 300000;

/// An arbitrage found behind a pending transaction: the tokens it starts and
/// ends with, the amount borrowed, the expected profit, the hop path, the
/// router of each hop, the pool that lends, its fee tier, the amount of each
/// hop and the flash-loan contract that executes it.
#[derive(Debug)]
pub struct ArbitrageOpportunity {
    pub token_in: H160,
    pub token_out: H160,
    pub amount_in: U256,
    pub expected_profit: U256,
    pub path: Vec<H160>,
    pub routers: Vec<H160>,
    pub pool_address: H160,
    pub fee: u32,
    pub amounts: Vec<U256>,
    pub flash_loan_contract: H160,
}

/// The thresholds and sizes with which opportunities are materialised.
#[derive(Debug)]
pub struct OpportunityPolicy {
    /// Least price impact, in basis points, worth an arbitrage (exclusive).
    pub min_price_impact: U256,
    /// Least expected profit worth an arbitrage (exclusive).
    pub min_profit: U256,
    /// The amount borrowed for each arbitrage.
    pub trade_size: U256,
    /// The fee tier of the lending pool.
    pub fee: u32,
}

impl OpportunityPolicy {
    /// An impact above 1%, a profit above 10^15 wei, a loan of 10^18 wei
    /// and the default fee tier.
    pub fn default_policy() -> (r: OpportunityPolicy)
        ensures
            u256_value(r.min_price_impact) == 100,
            u256_value(r.min_profit) == 1_000_000_000_000_000,
            u256_value(r.trade_size) == 1_000_000_000_000_000_000,
            r.fee == DEFAULT_FEE,
    {
        OpportunityPolicy {
            min_price_impact: u256_from_u64(100),
            min_profit: u256_from_u64(1_000_000_000_000_000),
            trade_size: u256_from_u64(1_000_000_000_000_000_000),
            fee: DEFAULT_FEE,
        }
    }
}

/// A simulation result clears the policy's thresholds with a usable path.
pub open spec fn worth_executing(sim: SimulationResult, policy: OpportunityPolicy) -> bool {
    &&& u256_value(sim.price_impact) > u256_value(policy.min_price_impact)
    &&& u256_value(sim.expected_profit) > u256_value(policy.min_profit)
    &&& sim.optimal_path@.len() >= 2
}

/// `o` is the opportunity materialised from a simulation result under a
/// policy, with the given hop routers, lending pool and flash-loan contract.
pub open spec fn materialized_from(
    o: ArbitrageOpportunity,
    sim: SimulationResult,
    policy: OpportunityPolicy,
    routers: Seq<H160>,
    pool_address: H160,
    flash_loan_contract: H160,
) -> bool {
    &&& o.token_in == sim.optimal_path@[0]
    &&& o.token_out == sim.optimal_path@.last()
    &&& o.amount_in == policy.trade_size
    &&& o.expected_profit == sim.expected_profit
    &&& o.path@ == sim.optimal_path@
    &&& o.routers@ == routers
    &&& o.pool_address == pool_address
    &&& o.fee == policy.fee
    &&& o.amounts@ == seq![policy.trade_size]
    &&& o.flash_loan_contract == flash_loan_contract
}

/// Materialises the opportunity behind a simulated transaction where its
/// impact and profit clear the policy's thresholds; the simulator itself
/// never filters.
pub fn analyze_arbitrage(
    sim: &SimulationResult,
    policy: &OpportunityPolicy,
    routers: Vec<H160>,
    pool_address: H160,
    flash_loan_contract: H160,
) -> (r: Option<ArbitrageOpportunity>)
    ensures
        r is Some <==> worth_executing(*sim, *policy),
        r matches Some(o) ==> materialized_from(
            o,
            *sim,
            *policy,
            routers@,
            pool_address,
            flash_loan_contract,
        ),
{
    if !u256_lt(policy.min_price_impact, sim.price_impact) {
        return None;
    }
    if !u256_lt(policy.min_profit, sim.expected_profit) {
        return None;
    }
    let n = sim.optimal_path.len();
    if n < 2 {
        return None;
    }
    let mut amounts: Vec<U256> = Vec::new();
    amounts.push(policy.trade_size);
    Some(ArbitrageOpportunity {
        token_in: sim.optimal_path[0],
        token_out: sim.optimal_path[n - 1],
        amount_in: policy.trade_size,
        expected_profit: sim.expected_profit,
        path: copy_path(&sim.optimal_path),
        routers,
        pool_address,
        fee: policy.fee,
        amounts,
        flash_loan_contract,
    })
}

/// The opportunities awaiting the scheduler, in order of discovery.
#[derive(Debug)]
pub struct OpportunityStore {
    items: Vec<ArbitrageOpportunity>,
}

impl View for OpportunityStore {
    type V = Seq<ArbitrageOpportunity>;

    closed spec fn view(&self) -> Seq<ArbitrageOpportunity> {
        self.items@
    }
}

impl OpportunityStore {
    /// An empty store.
    pub fn new() -> (r: OpportunityStore)
        ensures
            r@ == Seq::<ArbitrageOpportunity>::empty(),
    {
        OpportunityStore { items: Vec::new() }
    }

    /// Appends an opportunity.
    pub fn push(&mut self, o: ArbitrageOpportunity)
        ensures
            final(self)@ == old(self)@.push(o),
    {
        self.items.push(o);
    }

    /// How many opportunities wait.
    pub fn len(&self) -> (r: usize)
        ensures
            r == self@.len(),
    {
        self.items.len()
    }

    /// Takes every waiting opportunity, leaving the store empty.
    pub fn drain(&mut self) -> (r: Vec<ArbitrageOpportunity>)
        ensures
            r@ == old(self)@,
            final(self)@ == Seq::<ArbitrageOpportunity>::empty(),
    {
        let mut taken: Vec<ArbitrageOpportunity> = Vec::new();
        std::mem::swap(&mut taken, &mut self.items);
        taken
    }
}

/// Executing pays: the expected profit exceeds the gas price times the gas
/// units, so the net profit is positive.
pub open spec fn net_positive(profit: U256, gas_price: U256, gas_units: u64) -> bool {
    u256_value(profit) > u256_value(gas_price) * gas_units
}

/// The gas cost of `gas_units` at `gas_price`, or `None` where it does not
/// fit in 256 bits.
pub fn estimate_gas_cost(gas_price: U256, gas_units: u64) -> (r: Option<U256>)
    ensures
        r is Some <==> u256_value(gas_price) * gas_units < u256_bound(),
        r matches Some(c) ==> u256_value(c) == u256_value(gas_price) * gas_units,
{
    u256_checked_mul_u64(gas_price, gas_units)
}

/// Whether an opportunity is worth executing at the current gas price: its
/// expected profit net of `ASSUMED_GAS_UNITS` of gas is positive.
pub fn should_execute(opportunity: &ArbitrageOpportunity, gas_price: U256) -> (r: bool)
    ensures
        r == net_positive(opportunity.expected_profit, gas_price, ASSUMED_GAS_UNITS),
{
    match estimate_gas_cost(gas_price, ASSUMED_GAS_UNITS) {
        Some(cost) => u256_lt(cost, opportunity.expected_profit),
        None => false,
    }
}

/// For each opportunity of a scheduler cycle, whether it is handed to the
/// bundle builder (`true`) or discarded.
pub fn execution_plan(opportunities: &Vec<ArbitrageOpportunity>, gas_price: U256) -> (r: Vec<bool>)
    ensures
        r@.len() == opportunities@.len(),
        forall|i: int|
            0 <= i < r@.len() ==> #[trigger] r@[i] == net_positive(
                opportunities@[i].expected_profit,
                gas_price,
                ASSUMED_GAS_UNITS,
            ),
{
    let mut r: Vec<bool> = Vec::new();
    let mut i: usize = 0;
    while i < opportunities.len()
        invariant
            i <= opportunities@.len(),
            r@.len() == i,
            forall|j: int|
                0 <= j < i ==> #[trigger] r@[j] == net_positive(
                    opportunities@[j].expected_profit,
                    gas_price,
                    ASSUMED_GAS_UNITS,
                ),
        decreases opportunities@.len() - i,
    {
        r.push(should_execute(&opportunities[i], gas_price));
        i = i + 1;
    }
    r
}

} // verus!
