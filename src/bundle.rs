//! Bundles: the flash-loan, arbitrage and repayment legs of an opportunity,
//! or one combined call, with a target block that must lie just ahead of the
//! chain; their submission outcome and the tracking of their status.
use vstd::prelude::*;
use ethers::abi::Token;
use ethers::types::{H160, H256, U256};
use crate::abi::{abi_encoding, encode_call, selector_of};
use crate::decoder::{address_array_token, is_address_array};
use crate::error::PipelineError;
use crate::eth::u256_from_u64;
use crate::opportunity::ArbitrageOpportunity;

verus! {

/// Blocks ahead of the current one that a bundle may target at most.
pub const MAX_TARGET_HORIZON: u64 = 5;

/// Seconds after the current block during which a bundle stays valid.
pub const BUNDLE_VALIDITY_SECS: u64 = 120;

/// Gas limit of the flash-loan leg.
pub const FLASH_LOAN_GAS: u64 = 300000;

/// Gas limit of the arbitrage leg.
pub const ARBITRAGE_GAS: u64 = 500000;

/// Gas limit of the repayment leg.
pub const REPAYMENT_GAS: u64 = 200000;

/// The status of a submitted bundle; all but `Pending` are final.
#[derive(Clone, Copy, Debug, PartialEq, Eq, Structural)]
pub enum BundleStatus {
    Pending,
    Included,
    Failed,
    Timeout,
}

/// An unsigned contract call.
#[derive(Debug)]
pub struct CallRequest {
    pub to: H160,
    pub value: U256,
    pub gas_price: U256,
    pub gas: U256,
    pub data: Vec<u8>,
}

/// One leg of a bundle, and whether the bundle stands if it reverts.
#[derive(Debug)]
pub struct FastLaneTransaction {
    pub tx: CallRequest,
    pub can_revert: bool,
}

/// A bundle of legs for the relay, with the block it is built for, an
/// optional timestamp window and its target block.
#[derive(Debug)]
pub struct FastLaneBundle {
    pub transactions: Vec<FastLaneTransaction>,
    pub block_number: u64,
    pub min_timestamp: Option<u64>,
    pub max_timestamp: Option<u64>,
    pub reverting_tx_hashes: Vec<H256>,
    pub target_block: Option<u64>,
}

/// One pre-encoded call into the combined flash-loan-and-arbitrage contract.
#[derive(Debug)]
pub struct CombinedCall {
    pub contract: H160,
    pub data: Vec<u8>,
    pub target_block: u64,
}

/// The two shapes of bundle behind one interface.
#[derive(Debug)]
pub enum Bundle {
    MultiLeg(FastLaneBundle),
    Combined(CombinedCall),
}

/// Whether a token is the ABI array of the given integers.
pub open spec fn is_uint_array(t: Token, values: Seq<U256>) -> bool {
    match t {
        Token::Array(v) => v@ == values.map_values(|x: U256| Token::Uint(x)),
        _ => false,
    }
}

/// An ABI array token of the given integers.
pub fn uint_array_token(values: &Vec<U256>) -> (r: Token)
    ensures
        is_uint_array(r, values@),
{
    let mut items: Vec<Token> = Vec::new();
    let mut i: usize = 0;
    while i < values.len()
        invariant
            i <= values@.len(),
            items@.len() == i,
            forall|j: int| 0 <= j < i ==> #[trigger] items@[j] == Token::Uint(values@[j]),
        decreases values@.len() - i,
    {
        items.push(Token::Uint(values[i]));
        i = i + 1;
    }
    assert(items@ =~= values@.map_values(|x: U256| Token::Uint(x)));
    Token::Array(items)
}

/// A call request carries `data` to `to` with no value, at `gas_price`, with a gas limit of `gas`.
pub open spec fn is_call(tx: CallRequest, to: H160, gas_price: U256, gas: u64, data: Seq<u8>) -> bool {
    &&& tx.to == to
    &&& tx.value == U256([0, 0, 0, 0])
    &&& tx.gas_price == gas_price
    &&& tx.gas == U256([gas, 0, 0, 0])
    &&& tx.data@ == data
}

/// The flash-loan leg: `executeFlashLoan(tokenIn, tokenOut, amountIn, path)`
/// on the opportunity's flash-loan contract.
pub open spec fn is_flash_loan_tx(tx: CallRequest, o: ArbitrageOpportunity, gas_price: U256) -> bool {
    exists|args: Seq<Token>|
        {
            &&& args.len() == 4
            &&& args[0] == Token::Address(o.token_in)
            &&& args[1] == Token::Address(o.token_out)
            &&& args[2] == Token::Uint(o.amount_in)
            &&& is_address_array(args[3], o.path@)
            &&& is_call(
                tx,
                o.flash_loan_contract,
                gas_price,
                FLASH_LOAN_GAS,
                selector_of("executeFlashLoan(address,address,uint256,address[])"@) + abi_encoding(
                    args,
                ),
            )
        }
}

/// The arbitrage leg: `executeArbitrage(path, amounts, routers)` on the solver contract.
pub open spec fn is_arbitrage_tx(tx: CallRequest, o: ArbitrageOpportunity, solver: H160, gas_price: U256) -> bool {
    exists|args: Seq<Token>|
        {
            &&& args.len() == 3
            &&& is_address_array(args[0], o.path@)
            &&& is_uint_array(args[1], o.amounts@)
            &&& is_address_array(args[2], o.routers@)
            &&& is_call(
                tx,
                solver,
                gas_price,
                ARBITRAGE_GAS,
                selector_of("executeArbitrage(address[],uint256[],address[])"@) + abi_encoding(
                    args,
                ),
            )
        }
}

/// The repayment leg: `repayFlashLoan(tokenIn, amountIn)` on the flash-loan contract.
pub open spec fn is_repayment_tx(tx: CallRequest, o: ArbitrageOpportunity, gas_price: U256) -> bool {
    exists|args: Seq<Token>|
        {
            &&& args.len() == 2
            &&& args[0] == Token::Address(o.token_in)
            &&& args[1] == Token::Uint(o.amount_in)
            &&& is_call(
                tx,
                o.flash_loan_contract,
                gas_price,
                REPAYMENT_GAS,
                selector_of("repayFlashLoan(address,uint256)"@) + abi_encoding(args),
            )
        }
}

/// The bundle client: the relay's contract and the solver contract that
/// runs the arbitrage leg.
#[derive(Debug)]
pub struct FastLaneClient {
    pub fastlane_contract: H160,
    pub solver_contract: H160,
}

impl FastLaneClient {
    pub fn new(fastlane_address: H160, solver_address: H160) -> (r: FastLaneClient)
        ensures
            r.fastlane_contract == fastlane_address,
            r.solver_contract == solver_address,
    {
        FastLaneClient { fastlane_contract: fastlane_address, solver_contract: solver_address }
    }

    /// The flash-loan leg of an opportunity.
    pub fn create_flash_loan_tx(&self, o: &ArbitrageOpportunity, gas_price: U256) -> (r: CallRequest)
        ensures
            is_flash_loan_tx(r, *o, gas_price),
    {
        let mut args: Vec<Token> = Vec::new();
        args.push(Token::Address(o.token_in));
        args.push(Token::Address(o.token_out));
        args.push(Token::Uint(o.amount_in));
        args.push(address_array_token(&o.path));
        let data = encode_call("executeFlashLoan(address,address,uint256,address[])", args.as_slice());
        let r = CallRequest {
            to: o.flash_loan_contract,
            value: u256_from_u64(0),
            gas_price,
            gas: u256_from_u64(FLASH_LOAN_GAS),
            data,
        };
        assert({
            &&& args@.len() == 4
            &&& args@[0] == Token::Address(o.token_in)
            &&& args@[1] == Token::Address(o.token_out)
            &&& args@[2] == Token::Uint(o.amount_in)
            &&& is_address_array(args@[3], o.path@)
            &&& is_call(r, o.flash_loan_contract, gas_price, FLASH_LOAN_GAS,
                selector_of("executeFlashLoan(address,address,uint256,address[])"@) + abi_encoding(args@))
        });
        r
    }

    /// The arbitrage leg of an opportunity, run by the solver contract.
    pub fn create_arbitrage_tx(&self, o: &ArbitrageOpportunity, gas_price: U256) -> (r: CallRequest)
        ensures
            is_arbitrage_tx(r, *o, self.solver_contract, gas_price),
    {
        let mut args: Vec<Token> = Vec::new();
        args.push(address_array_token(&o.path));
        args.push(uint_array_token(&o.amounts));
        args.push(address_array_token(&o.routers));
        let data = encode_call("executeArbitrage(address[],uint256[],address[])", args.as_slice());
        let r = CallRequest {
            to: self.solver_contract,
            value: u256_from_u64(0),
            gas_price,
            gas: u256_from_u64(ARBITRAGE_GAS),
            data,
        };
        assert({
            &&& args@.len() == 3
            &&& is_address_array(args@[0], o.path@)
            &&& is_uint_array(args@[1], o.amounts@)
            &&& is_address_array(args@[2], o.routers@)
            &&& is_call(r, self.solver_contract, gas_price, ARBITRAGE_GAS,
                selector_of("executeArbitrage(address[],uint256[],address[])"@) + abi_encoding(args@))
        });
        r
    }

    /// The repayment leg of an opportunity.
    pub fn create_repayment_tx(&self, o: &ArbitrageOpportunity, gas_price: U256) -> (r: CallRequest)
        ensures
            is_repayment_tx(r, *o, gas_price),
    {
        let mut args: Vec<Token> = Vec::new();
        args.push(Token::Address(o.token_in));
        args.push(Token::Uint(o.amount_in));
        let data = encode_call("repayFlashLoan(address,uint256)", args.as_slice());
        let r = CallRequest {
            to: o.flash_loan_contract,
            value: u256_from_u64(0),
            gas_price,
            gas: u256_from_u64(REPAYMENT_GAS),
            data,
        };
        assert({
            &&& args@.len() == 2
            &&& args@[0] == Token::Address(o.token_in)
            &&& args@[1] == Token::Uint(o.amount_in)
            &&& is_call(r, o.flash_loan_contract, gas_price, REPAYMENT_GAS,
                selector_of("repayFlashLoan(address,uint256)"@) + abi_encoding(args@))
        });
        r
    }

    /// The three-leg bundle of an opportunity for the block after
    /// `current_block`: the loan and its repayment must not revert, the
    /// arbitrage may; it stays valid for `BUNDLE_VALIDITY_SECS` after
    /// `current_timestamp`.
    pub fn create_arbitrage_bundle(
        &self,
        o: &ArbitrageOpportunity,
        gas_price: U256,
        current_block: u64,
        current_timestamp: u64,
    ) -> (r: FastLaneBundle)
        requires
            current_block < u64::MAX,
            current_timestamp <= u64::MAX - BUNDLE_VALIDITY_SECS,
        ensures
            r.transactions@.len() == 3,
            is_flash_loan_tx(r.transactions@[0].tx, *o, gas_price),
            !r.transactions@[0].can_revert,
            is_arbitrage_tx(r.transactions@[1].tx, *o, self.solver_contract, gas_price),
            r.transactions@[1].can_revert,
            is_repayment_tx(r.transactions@[2].tx, *o, gas_price),
            !r.transactions@[2].can_revert,
            r.block_number == current_block + 1,
            r.target_block == Some((current_block + 1) as u64),
            r.min_timestamp is None,
            r.max_timestamp == Some((current_timestamp + BUNDLE_VALIDITY_SECS) as u64),
            r.reverting_tx_hashes@.len() == 0,
    {
        let flash_loan_tx = self.create_flash_loan_tx(o, gas_price);
        let arbitrage_tx = self.create_arbitrage_tx(o, gas_price);
        let repayment_tx = self.create_repayment_tx(o, gas_price);
        let mut transactions: Vec<FastLaneTransaction> = Vec::new();
        transactions.push(FastLaneTransaction { tx: flash_loan_tx, can_revert: false });
        transactions.push(FastLaneTransaction { tx: arbitrage_tx, can_revert: true });
        transactions.push(FastLaneTransaction { tx: repayment_tx, can_revert: false });
        FastLaneBundle {
            transactions,
            block_number: current_block + 1,
            min_timestamp: None,
            max_timestamp: Some(current_timestamp + BUNDLE_VALIDITY_SECS),
            reverting_tx_hashes: Vec::new(),
            target_block: Some(current_block + 1),
        }
    }
}

/// Whether `data` is the combined call for an opportunity:
/// `executeFlashLoanArbitrage(tokenIn, tokenOut, amountIn, 0, fee, path, amounts, routers)`.
pub open spec fn is_combined_call_data(data: Seq<u8>, o: ArbitrageOpportunity) -> bool {
    exists|args: Seq<Token>|
        {
            &&& args.len() == 8
            &&& args[0] == Token::Address(o.token_in)
            &&& args[1] == Token::Address(o.token_out)
            &&& args[2] == Token::Uint(o.amount_in)
            &&& args[3] == Token::Uint(U256([0, 0, 0, 0]))
            &&& args[4] == Token::Uint(U256([o.fee as u64, 0, 0, 0]))
            &&& is_address_array(args[5], o.path@)
            &&& is_uint_array(args[6], o.amounts@)
            &&& is_address_array(args[7], o.routers@)
            &&& data == selector_of(
                "executeFlashLoanArbitrage(address,address,uint256,uint256,uint24,address[],uint256[],address[])"@,
            ) + abi_encoding(args)
        }
}

/// The single combined call of an opportunity, into its flash-loan contract,
/// for the block after `current_block`.
pub fn create_combined_call(o: &ArbitrageOpportunity, current_block: u64) -> (r: CombinedCall)
    requires
        current_block < u64::MAX,
    ensures
        r.contract == o.flash_loan_contract,
        is_combined_call_data(r.data@, *o),
        r.target_block == current_block + 1,
{
    let mut args: Vec<Token> = Vec::new();
    args.push(Token::Address(o.token_in));
    args.push(Token::Address(o.token_out));
    args.push(Token::Uint(o.amount_in));
    args.push(Token::Uint(u256_from_u64(0)));
    args.push(Token::Uint(u256_from_u64(o.fee as u64)));
    args.push(address_array_token(&o.path));
    args.push(uint_array_token(&o.amounts));
    args.push(address_array_token(&o.routers));
    let data = encode_call(
        "executeFlashLoanArbitrage(address,address,uint256,uint256,uint24,address[],uint256[],address[])",
        args.as_slice(),
    );
    assert({
        &&& args@.len() == 8
        &&& args@[0] == Token::Address(o.token_in)
        &&& args@[1] == Token::Address(o.token_out)
        &&& args@[2] == Token::Uint(o.amount_in)
        &&& args@[3] == Token::Uint(U256([0, 0, 0, 0]))
        &&& args@[4] == Token::Uint(U256([o.fee as u64, 0, 0, 0]))
        &&& is_address_array(args@[5], o.path@)
        &&& is_uint_array(args@[6], o.amounts@)
        &&& is_address_array(args@[7], o.routers@)
        &&& data@ == selector_of(
            "executeFlashLoanArbitrage(address,address,uint256,uint256,uint24,address[],uint256[],address[])"@,
        ) + abi_encoding(args@)
    });
    CombinedCall { contract: o.flash_loan_contract, data, target_block: current_block + 1 }
}

/// A target block lies in the window after the current block: later than
/// it and at most `MAX_TARGET_HORIZON` blocks ahead.
pub open spec fn target_in_window(target_block: u64, current_block: u64) -> bool {
    current_block < target_block <= current_block + MAX_TARGET_HORIZON
}

/// Checks a target block against the current block before submission.
pub fn validate_target_block(target_block: u64, current_block: u64) -> (r: Result<(), PipelineError>)
    ensures
        r is Ok <==> target_in_window(target_block, current_block),
        r matches Err(e) ==> e == PipelineError::StaleBundleTarget,
{
    if target_block <= current_block || target_block - current_block > MAX_TARGET_HORIZON {
        Err(PipelineError::StaleBundleTarget)
    } else {
        Ok(())
    }
}

/// The block a bundle targets: the target of a multi-leg bundle where it
/// names one, else the block it was built for.
pub open spec fn bundle_target(b: Bundle) -> u64 {
    match b {
        Bundle::MultiLeg(m) => match m.target_block {
            Some(t) => t,
            None => m.block_number,
        },
        Bundle::Combined(c) => c.target_block,
    }
}

impl Bundle {
    /// The block the bundle targets.
    pub fn target_block(&self) -> (r: u64)
        ensures
            r == bundle_target(*self),
    {
        match self {
            Bundle::MultiLeg(m) => match m.target_block {
                Some(t) => t,
                None => m.block_number,
            },
            Bundle::Combined(c) => c.target_block,
        }
    }

    /// Checks, before submission, that the bundle targets a block in the
    /// window after `current_block`; a stale or too distant target is
    /// rejected here, never sent to the relay.
    pub fn validate(&self, current_block: u64) -> (r: Result<(), PipelineError>)
        ensures
            r is Ok <==> target_in_window(bundle_target(*self), current_block),
            r matches Err(e) ==> e == PipelineError::StaleBundleTarget,
    {
        validate_target_block(self.target_block(), current_block)
    }
}

/// What a submission comes to, from the relay's whole answer: the hash that
/// its receipt names; `BundleSubmissionFailed` where it rejected the bundle,
/// failed to answer, or gave no receipt.
pub fn submission_outcome<E>(relay: Result<Option<H256>, E>) -> (r: Result<H256, PipelineError>)
    ensures
        relay matches Ok(Some(h)) ==> r == Ok::<H256, PipelineError>(h),
        !(relay matches Ok(Some(_))) ==> r == Err::<H256, PipelineError>(
            PipelineError::BundleSubmissionFailed,
        ),
{
    match relay {
        Ok(Some(h)) => Ok(h),
        _ => Err(PipelineError::BundleSubmissionFailed),
    }
}

/// What a status code of the relay contract reports: 1 inclusion, 2
/// failure; any other code resolves nothing, so the bundle stays pending
/// (a timeout is inferred from the bundle's window, never from a code).
pub open spec fn status_of_code(code: u8) -> BundleStatus {
    if code == 1 {
        BundleStatus::Included
    } else if code == 2 {
        BundleStatus::Failed
    } else {
        BundleStatus::Pending
    }
}

/// What a status code of the relay contract reports.
pub fn bundle_status_from_code(code: u8) -> (r: BundleStatus)
    ensures
        r == status_of_code(code),
{
    match code {
        1 => BundleStatus::Included,
        2 => BundleStatus::Failed,
        _ => BundleStatus::Pending,
    }
}

/// Whether a status is final.
pub open spec fn is_terminal(s: BundleStatus) -> bool {
    s != BundleStatus::Pending
}

/// The status after a poll: a final status never changes; a final
/// observation is taken; a pending one turns into `Timeout` once `now` is
/// past the bundle's latest timestamp.
pub open spec fn status_after(
    current: BundleStatus,
    observed: BundleStatus,
    now: u64,
    max_timestamp: Option<u64>,
) -> BundleStatus {
    if is_terminal(current) {
        current
    } else if is_terminal(observed) {
        observed
    } else if max_timestamp matches Some(m) && now > m {
        BundleStatus::Timeout
    } else {
        BundleStatus::Pending
    }
}

/// The status of one submitted bundle, as polls reveal it.
#[derive(Debug)]
pub struct BundleTracker {
    pub bundle_hash: H256,
    pub max_timestamp: Option<u64>,
    pub status: BundleStatus,
}

impl BundleTracker {
    /// A freshly submitted bundle, pending.
    pub fn new(bundle_hash: H256, max_timestamp: Option<u64>) -> (r: BundleTracker)
        ensures
            r.bundle_hash == bundle_hash,
            r.max_timestamp == max_timestamp,
            r.status == BundleStatus::Pending,
    {
        BundleTracker { bundle_hash, max_timestamp, status: BundleStatus::Pending }
    }

    /// Takes in the status code of a poll made at time `now`; final
    /// statuses stay as they are.
    pub fn update(&mut self, code: u8, now: u64) -> (r: BundleStatus)
        ensures
            final(self).bundle_hash == old(self).bundle_hash,
            final(self).max_timestamp == old(self).max_timestamp,
            final(self).status == status_after(
                old(self).status,
                status_of_code(code),
                now,
                old(self).max_timestamp,
            ),
            r == final(self).status,
            is_terminal(old(self).status) ==> final(self).status == old(self).status,
            old(self).status == BundleStatus::Pending && final(self).status == BundleStatus::Timeout
                ==> (old(self).max_timestamp matches Some(m) && now > m),
    {
        if self.status == BundleStatus::Pending {
            let observed = bundle_status_from_code(code);
            if observed != BundleStatus::Pending {
                self.status = observed;
            } else {
                match self.max_timestamp {
                    Some(m) => {
                        if now > m {
                            self.status = BundleStatus::Timeout;
                        }
                    },
                    None => {},
                }
            }
        }
        self.status
    }

    /// The status as a report: a bundle whose window elapsed unresolved is
    /// the `Timeout` error; any other status is reported as it stands.
    pub fn report(&self) -> (r: Result<BundleStatus, PipelineError>)
        ensures
            self.status == BundleStatus::Timeout ==> r == Err::<BundleStatus, PipelineError>(
                PipelineError::Timeout,
            ),
            self.status != BundleStatus::Timeout ==> r == Ok::<BundleStatus, PipelineError>(self.status),
    {
        match self.status {
            BundleStatus::Timeout => Err(PipelineError::Timeout),
            s => Ok(s),
        }
    }
}

} // verus!
