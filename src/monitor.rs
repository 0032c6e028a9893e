//! The decisions of the mempool monitor around the simulator: which pending
//! transactions are worth simulating, and which simulated ones become
//! opportunities for the scheduler.
use vstd::prelude::*;
use ethers::types::{H160, H256};
use crate::decoder::{knows_router, PendingTx, RouterRegistry};
use crate::ingest::SeenTransactions;
use crate::opportunity::{
    analyze_arbitrage, materialized_from, worth_executing, ArbitrageOpportunity, OpportunityPolicy, OpportunityStore,
};
use crate::eth::u256_value;
use crate::routers::{is_known_registry, known_routers, DEFAULT_FEE};
use crate::simulation::SimulationResult;

verus! {

/// The monitor's state: the hashes seen, the routers watched, the
/// opportunities found and the policy and flash-loan contract with which
/// they are materialised.
#[derive(Debug)]
pub struct MempoolMonitor {
    pub flash_loan_contract: H160,
    pub routers: RouterRegistry,
    pub policy: OpportunityPolicy,
    pub processed_txs: SeenTransactions,
    pub opportunities: OpportunityStore,
}

impl MempoolMonitor {
    /// A monitor of the known routers with the default policy, having seen nothing.
    pub fn new(contract_address: H160) -> (r: MempoolMonitor)
        ensures
            r.flash_loan_contract == contract_address,
            is_known_registry(r.routers.routers@),
            u256_value(r.policy.min_price_impact) == 100,
            u256_value(r.policy.min_profit) == 1_000_000_000_000_000,
            u256_value(r.policy.trade_size) == 1_000_000_000_000_000_000,
            r.policy.fee == DEFAULT_FEE,
            r.processed_txs@ == Set::<H256>::empty(),
            r.opportunities@.len() == 0,
    {
        MempoolMonitor {
            flash_loan_contract: contract_address,
            routers: known_routers(),
            policy: OpportunityPolicy::default_policy(),
            processed_txs: SeenTransactions::new(),
            opportunities: OpportunityStore::new(),
        }
    }

    /// Records a pending transaction as seen and says whether it goes on to
    /// simulation: it was not seen before and it calls a known router.
    pub fn process_transaction(&mut self, tx: &PendingTx) -> (r: bool)
        ensures
            final(self).processed_txs@ == old(self).processed_txs@.insert(tx.hash),
            r == (!old(self).processed_txs@.contains(tx.hash) && (tx.to matches Some(to)
                && knows_router(old(self).routers.routers@, to))),
            final(self).routers == old(self).routers,
            final(self).opportunities@ == old(self).opportunities@,
    {
        if !self.processed_txs.observe(tx.hash) {
            return false;
        }
        self.routers.is_swap_transaction(tx)
    }

    /// Stores the opportunity behind a simulated transaction where it clears
    /// the policy; whether one was stored.
    pub fn record_simulation(&mut self, sim: &SimulationResult, routers: Vec<H160>, pool_address: H160) -> (r: bool)
        ensures
            r == worth_executing(*sim, old(self).policy),
            r ==> final(self).opportunities@.len() == old(self).opportunities@.len() + 1
                && final(self).opportunities@.drop_last() == old(self).opportunities@
                && materialized_from(
                final(self).opportunities@.last(),
                *sim,
                old(self).policy,
                routers@,
                pool_address,
                old(self).flash_loan_contract,
            ),
            final(self).policy == old(self).policy,
            final(self).flash_loan_contract == old(self).flash_loan_contract,
            !r ==> final(self).opportunities@ == old(self).opportunities@,
            final(self).processed_txs@ == old(self).processed_txs@,
    {
        match analyze_arbitrage(sim, &self.policy, routers, pool_address, self.flash_loan_contract) {
            Some(o) => {
                self.opportunities.push(o);
                true
            },
            None => false,
        }
    }

    /// Takes every stored opportunity for a scheduler cycle.
    pub fn take_opportunities(&mut self) -> (r: Vec<ArbitrageOpportunity>)
        ensures
            r@ == old(self).opportunities@,
            final(self).opportunities@.len() == 0,
            final(self).processed_txs@ == old(self).processed_txs@,
    {
        self.opportunities.drain()
    }
}

} // verus!
