//! Opportunity simulation: scoring candidate arbitrage paths, choosing the
//! best, and a cache that makes simulation idempotent per transaction hash.
use vstd::prelude::*;
use ethers::types::{H160, H256, U256};
use crate::decoder::{copy_path, RouterRegistry};
use crate::error::PipelineError;
use crate::eth::{same_hash, u256_from_u64, u256_lt, u256_saturating_sub, u256_value};
use crate::routers::{is_known_registry, known_routers};

verus! {

/// The state of one exchange pool.
#[derive(Debug)]
pub struct PoolData {
    pub token0: H160,
    pub token1: H160,
    pub fee: u32,
    pub liquidity: U256,
    pub sqrt_price_x96: U256,
}

/// A pool's state and the pool it belongs to.
#[derive(Debug)]
pub struct PoolEntry {
    pub pool: H160,
    pub data: PoolData,
}

/// No two entries are for the same pool.
pub open spec fn distinct_pools(entries: Seq<PoolEntry>) -> bool {
    forall|i: int, j: int|
        0 <= i < entries.len() && 0 <= j < entries.len() && i != j ==> (#[trigger] entries[i]).pool
            != (#[trigger] entries[j]).pool
}

/// The pool states of a sequence of entries, keyed by pool address.
pub open spec fn pool_states(entries: Seq<PoolEntry>) -> Map<H160, PoolData> {
    Map::new(
        |a: H160| exists|i: int| 0 <= i < entries.len() && (#[trigger] entries[i]).pool == a,
        |a: H160| entries[choose|i: int| 0 <= i < entries.len() && (#[trigger] entries[i]).pool == a].data,
    )
}

proof fn lemma_pool_state_at(entries: Seq<PoolEntry>, i: int)
    requires
        distinct_pools(entries),
        0 <= i < entries.len(),
    ensures
        pool_states(entries).contains_key(entries[i].pool),
        pool_states(entries)[entries[i].pool] == entries[i].data,
{
    let a = entries[i].pool;
    assert(entries[i].pool == a);
    let k = choose|k: int| 0 <= k < entries.len() && (#[trigger] entries[k]).pool == a;
    assert(entries[k].pool == a);
}

/// Pool states by pool address, each good for one read: reading a state
/// removes it, so no state serves more than one simulation cycle.
#[derive(Debug)]
pub struct PoolCache {
    entries: Vec<PoolEntry>,
}

impl PoolCache {
    /// No two entries are for the same pool.
    pub closed spec fn well_formed(&self) -> bool {
        distinct_pools(self.entries@)
    }
}

impl View for PoolCache {
    type V = Map<H160, PoolData>;

    closed spec fn view(&self) -> Map<H160, PoolData> {
        pool_states(self.entries@)
    }
}

impl PoolCache {
    /// An empty cache.
    pub fn new() -> (r: PoolCache)
        ensures
            r.well_formed(),
            r@ == Map::<H160, PoolData>::empty(),
    {
        let r = PoolCache { entries: Vec::new() };
        assert(r@ =~= Map::<H160, PoolData>::empty());
        r
    }

    fn position(&self, pool: &H160) -> (r: Option<usize>)
        ensures
            r matches Some(i) ==> i < self.entries@.len() && self.entries@[i as int].pool == *pool,
            r is None ==> !self@.contains_key(*pool),
    {
        let mut i: usize = 0;
        while i < self.entries.len()
            invariant
                i <= self.entries@.len(),
                forall|j: int| 0 <= j < i ==> (#[trigger] self.entries@[j]).pool != *pool,
            decreases self.entries@.len() - i,
        {
            if crate::eth::same_address(&self.entries[i].pool, pool) {
                return Some(i);
            }
            i = i + 1;
        }
        None
    }

    /// Stores the latest state of a pool, replacing what was there.
    pub fn refresh(&mut self, pool: H160, data: PoolData)
        requires
            old(self).well_formed(),
        ensures
            final(self).well_formed(),
            final(self)@ == old(self)@.insert(pool, data),
    {
        let ghost old_entries = self.entries@;
        match self.position(&pool) {
            Some(i) => {
                self.entries.set(i, PoolEntry { pool, data });
                proof {
                    assert(distinct_pools(self.entries@)) by {
                        assert forall|x: int, y: int|
                            0 <= x < self.entries@.len() && 0 <= y < self.entries@.len() && x != y
                                implies (#[trigger] self.entries@[x]).pool != (#[trigger] self.entries@[y]).pool by {
                            assert(old_entries[x].pool != old_entries[y].pool);
                            assert(old_entries[i as int].pool == pool);
                        }
                    }
                    lemma_pool_state_at(self.entries@, i as int);
                    assert forall|a: H160| a != pool implies #[trigger] self@.contains_key(a)
                        == old(self)@.contains_key(a) && (self@.contains_key(a) ==> self@[a]
                        == old(self)@[a]) by {
                        if old(self)@.contains_key(a) {
                            let k = choose|k: int| 0 <= k < old_entries.len() && (#[trigger] old_entries[k]).pool == a;
                            lemma_pool_state_at(old_entries, k);
                            assert(self.entries@[k] == old_entries[k]);
                            lemma_pool_state_at(self.entries@, k);
                        }
                        if self@.contains_key(a) {
                            let k = choose|k: int| 0 <= k < self.entries@.len() && (#[trigger] self.entries@[k]).pool == a;
                            assert(old_entries[k].pool == a);
                        }
                    }
                    assert(self@ =~= old(self)@.insert(pool, data));
                }
            },
            None => {
                self.entries.push(PoolEntry { pool, data });
                proof {
                    let n = old_entries.len() as int;
                    assert(distinct_pools(self.entries@)) by {
                        assert forall|x: int, y: int|
                            0 <= x < self.entries@.len() && 0 <= y < self.entries@.len() && x != y
                                implies (#[trigger] self.entries@[x]).pool != (#[trigger] self.entries@[y]).pool by {
                            if x == n {
                                assert(old_entries[y].pool != pool) by {
                                    if old_entries[y].pool == pool {
                                        assert(old(self)@.contains_key(pool));
                                    }
                                }
                            } else if y == n {
                                assert(old_entries[x].pool != pool) by {
                                    if old_entries[x].pool == pool {
                                        assert(old(self)@.contains_key(pool));
                                    }
                                }
                            } else {
                                assert(old_entries[x].pool != old_entries[y].pool);
                            }
                        }
                    }
                    lemma_pool_state_at(self.entries@, n);
                    assert forall|a: H160| a != pool implies #[trigger] self@.contains_key(a)
                        == old(self)@.contains_key(a) && (self@.contains_key(a) ==> self@[a]
                        == old(self)@[a]) by {
                        if old(self)@.contains_key(a) {
                            let k = choose|k: int| 0 <= k < old_entries.len() && (#[trigger] old_entries[k]).pool == a;
                            lemma_pool_state_at(old_entries, k);
                            assert(self.entries@[k] == old_entries[k]);
                            lemma_pool_state_at(self.entries@, k);
                        }
                        if self@.contains_key(a) {
                            let k = choose|k: int| 0 <= k < self.entries@.len() && (#[trigger] self.entries@[k]).pool == a;
                            assert(k < n);
                            assert(old_entries[k].pool == a);
                        }
                    }
                    assert(self@ =~= old(self)@.insert(pool, data));
                }
            },
        }
    }

    /// Reads the state of a pool, which leaves the cache: the next read
    /// needs a fresh query.
    pub fn take(&mut self, pool: &H160) -> (r: Option<PoolData>)
        requires
            old(self).well_formed(),
        ensures
            final(self).well_formed(),
            r is Some <==> old(self)@.contains_key(*pool),
            r matches Some(d) ==> d == old(self)@[*pool],
            final(self)@ == old(self)@.remove(*pool),
    {
        let ghost old_entries = self.entries@;
        match self.position(pool) {
            None => {
                assert(self@ =~= old(self)@.remove(*pool));
                None
            },
            Some(i) => {
                proof {
                    lemma_pool_state_at(old_entries, i as int);
                }
                let entry = self.entries.remove(i);
                proof {
                    assert(distinct_pools(self.entries@)) by {
                        assert forall|x: int, y: int|
                            0 <= x < self.entries@.len() && 0 <= y < self.entries@.len() && x != y
                                implies (#[trigger] self.entries@[x]).pool != (#[trigger] self.entries@[y]).pool by {
                            let ox = if x < i { x } else { x + 1 };
                            let oy = if y < i { y } else { y + 1 };
                            assert(self.entries@[x] == old_entries[ox]);
                            assert(self.entries@[y] == old_entries[oy]);
                            assert(old_entries[ox].pool != old_entries[oy].pool);
                        }
                    }
                    assert forall|a: H160| #[trigger] self@.contains_key(a)
                        == old(self)@.remove(*pool).contains_key(a) && (self@.contains_key(a) ==> self@[a]
                        == old(self)@[a]) by {
                        if self@.contains_key(a) {
                            let k = choose|k: int| 0 <= k < self.entries@.len() && (#[trigger] self.entries@[k]).pool == a;
                            let ok = if k < i { k } else { k + 1 };
                            assert(self.entries@[k] == old_entries[ok]);
                            assert(ok != i as int);
                            assert(old_entries[ok].pool != old_entries[i as int].pool);
                            lemma_pool_state_at(old_entries, ok);
                            lemma_pool_state_at(self.entries@, k);
                        }
                        if old(self)@.contains_key(a) && a != *pool {
                            let k = choose|k: int| 0 <= k < old_entries.len() && (#[trigger] old_entries[k]).pool == a;
                            assert(k != i as int);
                            let nk = if k < i { k } else { k - 1 };
                            assert(self.entries@[nk] == old_entries[k]);
                        }
                    }
                    assert(self@ =~= old(self)@.remove(*pool));
                }
                Some(entry.data)
            },
        }
    }
}

/// A candidate arbitrage path with what the quote source and the fee and
/// slippage models say of it.
#[derive(Debug)]
pub struct PathQuote {
    pub path: Vec<H160>,
    pub gross_output: U256,
    pub fees: U256,
    pub slippage: U256,
}

/// The outcome of simulating a transaction: the price impact it causes
/// (basis points), the profit of the best path, the gas cost of executing
/// it, the estimated chance of success (basis points) and the path itself
/// (empty where no path is profitable).
#[derive(Debug)]
pub struct SimulationResult {
    pub price_impact: U256,
    pub expected_profit: U256,
    pub gas_estimate: U256,
    pub success_probability_bps: u32,
    pub optimal_path: Vec<H160>,
}

/// The mathematical content of a `SimulationResult`.
pub struct SimulationModel {
    pub price_impact: U256,
    pub expected_profit: U256,
    pub gas_estimate: U256,
    pub success_probability_bps: u32,
    pub optimal_path: Seq<H160>,
}

impl View for SimulationResult {
    type V = SimulationModel;

    open spec fn view(&self) -> SimulationModel {
        SimulationModel {
            price_impact: self.price_impact,
            expected_profit: self.expected_profit,
            gas_estimate: self.gas_estimate,
            success_probability_bps: self.success_probability_bps,
            optimal_path: self.optimal_path@,
        }
    }
}

impl SimulationResult {
    /// An identical copy.
    pub fn duplicate(&self) -> (r: SimulationResult)
        ensures
            r@ == self@,
    {
        SimulationResult {
            price_impact: self.price_impact,
            expected_profit: self.expected_profit,
            gas_estimate: self.gas_estimate,
            success_probability_bps: self.success_probability_bps,
            optimal_path: copy_path(&self.optimal_path),
        }
    }
}

/// The expected profit of a path: gross output less fees, slippage and the
/// base cost, and zero where those exceed the output.
pub open spec fn path_profit(q: PathQuote, base_cost: U256) -> nat {
    let g = u256_value(q.gross_output) as int;
    let cost = u256_value(q.fees) + u256_value(q.slippage) + u256_value(base_cost);
    if g >= cost {
        (g - cost) as nat
    } else {
        0
    }
}

/// A path can be executed within `max_depth` hops.
pub open spec fn within_depth(q: PathQuote, max_depth: usize) -> bool {
    2 <= q.path@.len() <= max_depth + 1
}

/// Path `a` is preferred to path `b`: more profit, or as much over fewer hops.
pub open spec fn preferred(a: PathQuote, b: PathQuote, base_cost: U256) -> bool {
    ||| path_profit(a, base_cost) > path_profit(b, base_cost)
    ||| path_profit(a, base_cost) == path_profit(b, base_cost) && a.path@.len() < b.path@.len()
}

/// `i` is the chosen candidate: within depth, preferred to no other
/// candidate within depth, and preferred to every earlier one.
pub open spec fn is_best_path(quotes: Seq<PathQuote>, base_cost: U256, max_depth: usize, i: int) -> bool {
    &&& 0 <= i < quotes.len()
    &&& within_depth(quotes[i], max_depth)
    &&& forall|j: int|
        0 <= j < quotes.len() && within_depth(#[trigger] quotes[j], max_depth) ==> !preferred(
            quotes[j],
            quotes[i],
            base_cost,
        )
    &&& forall|j: int|
        0 <= j < i && within_depth(#[trigger] quotes[j], max_depth) ==> preferred(
            quotes[i],
            quotes[j],
            base_cost,
        )
}

/// No candidate lies within depth.
pub open spec fn none_within_depth(quotes: Seq<PathQuote>, max_depth: usize) -> bool {
    forall|j: int| 0 <= j < quotes.len() ==> !within_depth(#[trigger] quotes[j], max_depth)
}

/// The expected profit of one candidate path.
pub fn calculate_path_profit(q: &PathQuote, base_cost: U256) -> (r: U256)
    ensures
        u256_value(r) == path_profit(*q, base_cost),
{
    let after_fees = u256_saturating_sub(q.gross_output, q.fees);
    let after_slippage = u256_saturating_sub(after_fees, q.slippage);
    u256_saturating_sub(after_slippage, base_cost)
}

/// Chooses the candidate path with the most expected profit within
/// `max_depth` hops, preferring fewer hops among equals and the earlier
/// among identical ones; `None` only where no candidate lies within depth.
/// It never filters on profit: a best path of zero profit is still chosen.
pub fn select_best_path(quotes: &Vec<PathQuote>, base_cost: U256, max_depth: usize) -> (r: Option<usize>)
    ensures
        r matches Some(i) ==> is_best_path(quotes@, base_cost, max_depth, i as int),
        r is None <==> none_within_depth(quotes@, max_depth),
{
    let mut best: Option<usize> = None;
    let mut best_profit = u256_from_u64(0);
    let mut i: usize = 0;
    while i < quotes.len()
        invariant
            i <= quotes@.len(),
            best is None ==> none_within_depth(quotes@.subrange(0, i as int), max_depth),
            best matches Some(b) ==> {
                &&& b < i
                &&& u256_value(best_profit) == path_profit(quotes@[b as int], base_cost)
                &&& within_depth(quotes@[b as int], max_depth)
                &&& forall|j: int|
                    0 <= j < i && within_depth(#[trigger] quotes@[j], max_depth) ==> !preferred(
                        quotes@[j],
                        quotes@[b as int],
                        base_cost,
                    )
                &&& forall|j: int|
                    0 <= j < b && within_depth(#[trigger] quotes@[j], max_depth) ==> preferred(
                        quotes@[b as int],
                        quotes@[j],
                        base_cost,
                    )
            },
        decreases quotes@.len() - i,
    {
        let q = &quotes[i];
        let len = q.path.len();
        if 2 <= len && len - 1 <= max_depth {
            let profit = calculate_path_profit(q, base_cost);
            let better = match best {
                None => true,
                Some(b) => u256_lt(best_profit, profit) || (!u256_lt(profit, best_profit)
                    && len < quotes[b].path.len()),
            };
            if better {
                proof {
                    assert forall|j: int|
                        0 <= j < i && within_depth(#[trigger] quotes@[j], max_depth) implies preferred(
                            quotes@[i as int],
                            quotes@[j],
                            base_cost,
                        ) by {
                        if best is None {
                            assert(quotes@.subrange(0, i as int)[j] == quotes@[j]);
                        }
                    }
                }
                best = Some(i);
                best_profit = profit;
            }
        }
        proof {
            assert forall|j: int|
                0 <= j < i + 1 && within_depth(#[trigger] quotes@.subrange(0, i + 1)[j], max_depth)
                    implies quotes@.subrange(0, i + 1)[j] == quotes@[j] by {}
            if best is None {
                assert forall|j: int| 0 <= j < i + 1 implies !within_depth(
                    #[trigger] quotes@.subrange(0, i + 1)[j],
                    max_depth,
                ) by {
                    if j < i {
                        assert(quotes@.subrange(0, i as int)[j] == quotes@[j]);
                    }
                }
            }
        }
        i = i + 1;
    }
    proof {
        assert(quotes@.subrange(0, quotes@.len() as int) =~= quotes@);
        if let Some(b) = best {
            assert(!none_within_depth(quotes@, max_depth)) by {
                assert(within_depth(quotes@[b as int], max_depth));
            }
        }
    }
    best
}

/// The price impact that a sandbox run shows: `impact_on_success` where the
/// transaction executed, none where it reverted, and no measurement where
/// the sandbox could not run it.
pub fn impact_of_sandbox_run(executed: Option<bool>, impact_on_success: U256) -> (r: Option<U256>)
    ensures
        executed == Some(true) ==> r == Some(impact_on_success),
        executed == Some(false) ==> r == Some(U256([0, 0, 0, 0])),
        executed is None ==> r is None,
{
    match executed {
        Some(true) => Some(impact_on_success),
        Some(false) => Some(u256_from_u64(0)),
        None => None,
    }
}

/// The price impact of a transaction: the sandbox's measurement where it
/// ran, else the closed-form estimate; `SimulationUnavailable` where
/// neither is at hand.
pub fn resolve_price_impact(measured: Option<U256>, estimated: Option<U256>) -> (r: Result<U256, PipelineError>)
    ensures
        measured matches Some(m) ==> r == Ok::<U256, PipelineError>(m),
        measured is None ==> (estimated matches Some(e) ==> r == Ok::<U256, PipelineError>(e)),
        measured is None && estimated is None ==> r == Err::<U256, PipelineError>(
            PipelineError::SimulationUnavailable,
        ),
{
    match measured {
        Some(m) => Ok(m),
        None => match estimated {
            Some(e) => Ok(e),
            None => Err(PipelineError::SimulationUnavailable),
        },
    }
}

/// What the simulator knows of a transaction besides the candidate paths:
/// the price impact measured or estimated for it, the base cost of an
/// arbitrage, the gas cost of executing one and the estimated chance of
/// success.
#[derive(Debug)]
pub struct SimulationInputs {
    pub price_impact: U256,
    pub base_cost: U256,
    pub gas_estimate: U256,
    pub success_probability_bps: u32,
}

/// What simulating with these candidates gives: the best path within depth
/// and its profit, whatever that profit; no path and zero profit only where
/// no candidate lies within depth.
pub open spec fn simulation_of(
    quotes: Seq<PathQuote>,
    max_depth: usize,
    inputs: SimulationInputs,
    r: SimulationModel,
) -> bool {
    &&& r.price_impact == inputs.price_impact
    &&& r.gas_estimate == inputs.gas_estimate
    &&& r.success_probability_bps == inputs.success_probability_bps
    &&& none_within_depth(quotes, max_depth) ==> u256_value(r.expected_profit) == 0
        && r.optimal_path.len() == 0
    &&& !none_within_depth(quotes, max_depth) ==> exists|i: int|
        is_best_path(quotes, inputs.base_cost, max_depth, i) && r.optimal_path == quotes[i].path@
            && u256_value(r.expected_profit) == path_profit(quotes[i], inputs.base_cost)
}

/// Scores the candidate paths of a transaction and keeps the best.
pub fn simulate_complex_path(quotes: &Vec<PathQuote>, max_depth: usize, inputs: &SimulationInputs) -> (r: SimulationResult)
    ensures
        simulation_of(quotes@, max_depth, *inputs, r@),
{
    match select_best_path(quotes, inputs.base_cost, max_depth) {
        None => SimulationResult {
            price_impact: inputs.price_impact,
            expected_profit: u256_from_u64(0),
            gas_estimate: inputs.gas_estimate,
            success_probability_bps: inputs.success_probability_bps,
            optimal_path: Vec::new(),
        },
        Some(i) => {
            let q = &quotes[i];
            SimulationResult {
                price_impact: inputs.price_impact,
                expected_profit: calculate_path_profit(q, inputs.base_cost),
                gas_estimate: inputs.gas_estimate,
                success_probability_bps: inputs.success_probability_bps,
                optimal_path: copy_path(&q.path),
            }
        },
    }
}

/// A cached simulation result and the transaction it belongs to.
#[derive(Debug)]
pub struct CacheEntry {
    pub hash: H256,
    pub result: SimulationResult,
}

/// `i` is the first entry for hash `h`.
pub open spec fn first_entry(entries: Seq<CacheEntry>, h: H256, i: int) -> bool {
    &&& 0 <= i < entries.len()
    &&& entries[i].hash == h
    &&& forall|j: int| 0 <= j < i ==> (#[trigger] entries[j]).hash != h
}

/// The results of a sequence of cache entries, keyed by hash; the first
/// entry for a hash counts.
pub open spec fn cached_results(entries: Seq<CacheEntry>) -> Map<H256, SimulationModel> {
    Map::new(
        |h: H256| exists|i: int| 0 <= i < entries.len() && (#[trigger] entries[i]).hash == h,
        |h: H256| entries[choose|i: int| first_entry(entries, h, i)].result@,
    )
}

proof fn lemma_first_entry(entries: Seq<CacheEntry>, h: H256, i: int)
    requires
        first_entry(entries, h, i),
    ensures
        cached_results(entries).contains_key(h),
        cached_results(entries)[h] == entries[i].result@,
{
    let k = choose|k: int| first_entry(entries, h, k);
    assert(first_entry(entries, h, k));
    if k < i {
        assert(entries[k].hash != h);
    } else if i < k {
        assert(entries[i].hash != h);
    }
}

proof fn lemma_some_first_entry(entries: Seq<CacheEntry>, h: H256, w: int)
    requires
        0 <= w < entries.len(),
        entries[w].hash == h,
    ensures
        exists|k: int| first_entry(entries, h, k),
    decreases w,
{
    if exists|j: int| 0 <= j < w && (#[trigger] entries[j]).hash == h {
        let j = choose|j: int| 0 <= j < w && (#[trigger] entries[j]).hash == h;
        lemma_some_first_entry(entries, h, j);
    } else {
        assert(first_entry(entries, h, w));
    }
}

/// Simulation results by transaction hash, immutable once recorded.
#[derive(Debug)]
pub struct SimulationCache {
    entries: Vec<CacheEntry>,
}

/// One simulation through the cache: the cached result where there is one,
/// else the fresh result, which is then recorded.
pub open spec fn cache_step(cache: Map<H256, SimulationModel>, h: H256, fresh: SimulationModel) -> (
    Map<H256, SimulationModel>,
    SimulationModel,
) {
    if cache.contains_key(h) {
        (cache, cache[h])
    } else {
        (cache.insert(h, fresh), fresh)
    }
}

/// Simulating the same transaction twice gives identical results, whatever
/// the second computation would have given, and leaves the cache as the
/// first left it.
pub proof fn lemma_simulation_idempotent(
    cache: Map<H256, SimulationModel>,
    h: H256,
    first: SimulationModel,
    second: SimulationModel,
)
    ensures
        cache_step(cache_step(cache, h, first).0, h, second).1 == cache_step(cache, h, first).1,
        cache_step(cache_step(cache, h, first).0, h, second).0 == cache_step(cache, h, first).0,
{
}

impl View for SimulationCache {
    type V = Map<H256, SimulationModel>;

    closed spec fn view(&self) -> Map<H256, SimulationModel> {
        cached_results(self.entries@)
    }
}

impl SimulationCache {
    /// An empty cache.
    pub fn new() -> (r: SimulationCache)
        ensures
            r@ == Map::<H256, SimulationModel>::empty(),
    {
        let r = SimulationCache { entries: Vec::new() };
        assert(r@ =~= Map::<H256, SimulationModel>::empty());
        r
    }

    fn position(&self, h: &H256) -> (r: Option<usize>)
        ensures
            r matches Some(i) ==> first_entry(self.entries@, *h, i as int),
            r is None ==> !self@.contains_key(*h),
    {
        let mut i: usize = 0;
        while i < self.entries.len()
            invariant
                i <= self.entries@.len(),
                forall|j: int| 0 <= j < i ==> (#[trigger] self.entries@[j]).hash != *h,
            decreases self.entries@.len() - i,
        {
            if same_hash(&self.entries[i].hash, h) {
                return Some(i);
            }
            i = i + 1;
        }
        None
    }

    /// The cached result of a transaction, as a copy.
    pub fn lookup(&self, h: &H256) -> (r: Option<SimulationResult>)
        ensures
            r is Some <==> self@.contains_key(*h),
            r matches Some(x) ==> x@ == self@[*h],
    {
        match self.position(h) {
            None => None,
            Some(i) => {
                proof {
                    lemma_first_entry(self.entries@, *h, i as int);
                }
                Some(self.entries[i].result.duplicate())
            },
        }
    }

    /// Records a fresh result unless one is cached already, and returns a
    /// copy of the result that stands: a result once recorded never changes.
    pub fn record(&mut self, h: H256, fresh: SimulationResult) -> (r: SimulationResult)
        ensures
            (final(self)@, r@) == cache_step(old(self)@, h, fresh@),
    {
        match self.position(&h) {
            Some(i) => {
                proof {
                    lemma_first_entry(self.entries@, h, i as int);
                }
                self.entries[i].result.duplicate()
            },
            None => {
                let out = fresh.duplicate();
                let ghost old_entries = self.entries@;
                self.entries.push(CacheEntry { hash: h, result: fresh });
                proof {
                    let n = old_entries.len() as int;
                    assert(first_entry(self.entries@, h, n)) by {
                        assert forall|j: int| 0 <= j < n implies (#[trigger] self.entries@[j]).hash != h by {
                            assert(self.entries@[j] == old_entries[j]);
                        }
                    }
                    lemma_first_entry(self.entries@, h, n);
                    assert forall|x: H256| x != h implies #[trigger] self@.contains_key(x)
                        == old(self)@.contains_key(x) && (self@.contains_key(x) ==> self@[x]
                        == old(self)@[x]) by {
                        if old(self)@.contains_key(x) {
                            let w = choose|w: int| 0 <= w < old_entries.len() && (#[trigger] old_entries[w]).hash == x;
                            lemma_some_first_entry(old_entries, x, w);
                            let k = choose|k: int| first_entry(old_entries, x, k);
                            lemma_first_entry(old_entries, x, k);
                            assert(self.entries@[k] == old_entries[k]);
                            assert(first_entry(self.entries@, x, k));
                            lemma_first_entry(self.entries@, x, k);
                        }
                        if self@.contains_key(x) {
                            let w = choose|w: int| 0 <= w < self.entries@.len() && (#[trigger] self.entries@[w]).hash == x;
                            assert(w < n);
                            assert(old_entries[w].hash == x);
                        }
                    }
                    assert(self@ =~= old(self)@.insert(h, fresh@));
                }
                out
            },
        }
    }
}

/// The search depth, in hops, where the caller names none.
pub const DEFAULT_DEPTH: usize = 3;

/// The simulator: the routers whose pools it searches across and the cache
/// of its results.
#[derive(Debug)]
pub struct AdvancedSimulationEngine {
    pub dex_routers: RouterRegistry,
    pub pool_cache: PoolCache,
    pub simulation_cache: SimulationCache,
}

impl AdvancedSimulationEngine {
    /// A simulator over the known routers, with nothing cached.
    pub fn new() -> (r: AdvancedSimulationEngine)
        ensures
            is_known_registry(r.dex_routers.routers@),
            r.pool_cache.well_formed(),
            r.pool_cache@ == Map::<H160, PoolData>::empty(),
            r.simulation_cache@ == Map::<H256, SimulationModel>::empty(),
    {
        AdvancedSimulationEngine {
            dex_routers: known_routers(),
            pool_cache: PoolCache::new(),
            simulation_cache: SimulationCache::new(),
        }
    }

    /// Simulates a transaction: the cached result where there is one, else
    /// the best of the candidate paths within `depth` hops, which is cached.
    pub fn simulate_multi_dex_arbitrage(
        &mut self,
        tx_hash: H256,
        quotes: &Vec<PathQuote>,
        depth: usize,
        inputs: &SimulationInputs,
    ) -> (r: SimulationResult)
        ensures
            final(self).dex_routers == old(self).dex_routers,
            final(self).pool_cache == old(self).pool_cache,
            old(self).simulation_cache@.contains_key(tx_hash) ==> r@ == old(
                self,
            ).simulation_cache@[tx_hash] && final(self).simulation_cache@ == old(
                self,
            ).simulation_cache@,
            !old(self).simulation_cache@.contains_key(tx_hash) ==> simulation_of(
                quotes@,
                depth,
                *inputs,
                r@,
            ) && final(self).simulation_cache@ == old(self).simulation_cache@.insert(tx_hash, r@),
    {
        match self.simulation_cache.lookup(&tx_hash) {
            Some(r) => r,
            None => {
                let fresh = simulate_complex_path(quotes, depth, inputs);
                self.simulation_cache.record(tx_hash, fresh)
            },
        }
    }
}

} // verus!
