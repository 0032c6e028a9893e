//! The exchange routers of the pipeline: their addresses, the registry that
//! decodes calls to them, and the call data of the swaps sent to them.
use vstd::prelude::*;
use vstd::string::StringExecFns;
use ethers::abi::Token;
use ethers::types::{H160, U256};
use crate::abi::{abi_encoding, encode_call, selector_of};
use crate::decoder::{
    all_kinds, decode_outcome, encode_action_call, encodes_action, knows_router, outcome_view,
    signature_of, PendingTx, QuickSwapAction, RouterEntry, RouterRegistry, SwapKind, SwapModel,
};
use crate::error::PipelineError;
use crate::eth::u256_from_u64;

verus! {

/// The fee tier, in hundredths of a basis point, that pools use by default.
pub const DEFAULT_FEE: u32 = 3000;

/// The QuickSwap router on Polygon.
pub open spec fn quickswap_router() -> H160 {
    H160([0xa5, 0xe0, 0x82, 0x9c, 0xac, 0xed, 0x8f, 0xfd, 0xd4, 0xde, 0x3c, 0x43, 0x69, 0x6c, 0x57, 0xf7, 0xd7, 0xa6, 0x78, 0xff])
}

/// The SushiSwap router on Polygon.
pub open spec fn sushiswap_router() -> H160 {
    H160([0x1b, 0x02, 0xda, 0x8c, 0xb0, 0xd0, 0x97, 0xeb, 0x8d, 0x57, 0xa1, 0x75, 0xb8, 0x8c, 0x7d, 0x8b, 0x47, 0x99, 0x75, 0x06])
}

/// The Uniswap V3 swap router.
pub open spec fn uniswap_v3_router() -> H160 {
    H160([0xe5, 0x92, 0x42, 0x7a, 0x0a, 0xec, 0xe9, 0x2d, 0xe3, 0xed, 0xee, 0x1f, 0x18, 0xe0, 0x15, 0x7c, 0x05, 0x86, 0x15, 0x64])
}

/// The address of the QuickSwap router.
pub fn quickswap_router_address() -> (r: H160)
    ensures
        r == quickswap_router(),
{
    H160([0xa5, 0xe0, 0x82, 0x9c, 0xac, 0xed, 0x8f, 0xfd, 0xd4, 0xde, 0x3c, 0x43, 0x69, 0x6c, 0x57, 0xf7, 0xd7, 0xa6, 0x78, 0xff])
}

/// The address of the SushiSwap router.
pub fn sushiswap_router_address() -> (r: H160)
    ensures
        r == sushiswap_router(),
{
    H160([0x1b, 0x02, 0xda, 0x8c, 0xb0, 0xd0, 0x97, 0xeb, 0x8d, 0x57, 0xa1, 0x75, 0xb8, 0x8c, 0x7d, 0x8b, 0x47, 0x99, 0x75, 0x06])
}

/// The address of the Uniswap V3 swap router.
pub fn uniswap_v3_router_address() -> (r: H160)
    ensures
        r == uniswap_v3_router(),
{
    H160([0xe5, 0x92, 0x42, 0x7a, 0x0a, 0xec, 0xe9, 0x2d, 0xe3, 0xed, 0xee, 0x1f, 0x18, 0xe0, 0x15, 0x7c, 0x05, 0x86, 0x15, 0x64])
}

/// Wrapped MATIC on Polygon.
pub open spec fn wmatic() -> H160 {
    H160([0x0d, 0x50, 0x0b, 0x1d, 0x8e, 0x8e, 0xf3, 0x1e, 0x21, 0xc9, 0x9d, 0x1d, 0xb9, 0xa6, 0x44, 0x4d, 0x3a, 0xdf, 0x12, 0x70])
}

/// The address of wrapped MATIC on Polygon.
pub fn wmatic_address() -> (r: H160)
    ensures
        r == wmatic(),
{
    H160([0x0d, 0x50, 0x0b, 0x1d, 0x8e, 0x8e, 0xf3, 0x1e, 0x21, 0xc9, 0x9d, 0x1d, 0xb9, 0xa6, 0x44, 0x4d, 0x3a, 0xdf, 0x12, 0x70])
}

/// Bridged USDC on Polygon.
pub open spec fn usdc() -> H160 {
    H160([0x27, 0x91, 0xbc, 0xa1, 0xf2, 0xde, 0x46, 0x61, 0xed, 0x88, 0xa3, 0x0c, 0x99, 0xa7, 0xa9, 0x44, 0x9a, 0xa8, 0x41, 0x74])
}

/// The address of bridged USDC on Polygon.
pub fn usdc_address() -> (r: H160)
    ensures
        r == usdc(),
{
    H160([0x27, 0x91, 0xbc, 0xa1, 0xf2, 0xde, 0x46, 0x61, 0xed, 0x88, 0xa3, 0x0c, 0x99, 0xa7, 0xa9, 0x44, 0x9a, 0xa8, 0x41, 0x74])
}

/// USDT on Polygon.
pub open spec fn usdt() -> H160 {
    H160([0xc2, 0x13, 0x2d, 0x05, 0xd3, 0x1c, 0x91, 0x4a, 0x87, 0xc6, 0x61, 0x1c, 0x10, 0x74, 0x8a, 0xeb, 0x04, 0xb5, 0x8e, 0x8f])
}

/// The address of uSDT on Polygon.
pub fn usdt_address() -> (r: H160)
    ensures
        r == usdt(),
{
    H160([0xc2, 0x13, 0x2d, 0x05, 0xd3, 0x1c, 0x91, 0x4a, 0x87, 0xc6, 0x61, 0x1c, 0x10, 0x74, 0x8a, 0xeb, 0x04, 0xb5, 0x8e, 0x8f])
}

/// Every call kind of the decoder, in registry order.
pub fn swap_kinds() -> (r: Vec<SwapKind>)
    ensures
        r@ == all_kinds(),
{
    let mut r: Vec<SwapKind> = Vec::new();
    r.push(SwapKind::SwapExactTokensForTokens);
    r.push(SwapKind::SwapExactTokensForETH);
    r.push(SwapKind::SwapExactETHForTokens);
    r.push(SwapKind::SwapTokensForExactTokens);
    r.push(SwapKind::SwapTokensForExactETH);
    r.push(SwapKind::SwapETHForExactTokens);
    r.push(SwapKind::SwapExactTokensForTokensSupportingFeeOnTransferTokens);
    r.push(SwapKind::SwapExactTokensForETHSupportingFeeOnTransferTokens);
    r.push(SwapKind::SwapExactETHForTokensSupportingFeeOnTransferTokens);
    assert(r@ =~= all_kinds());
    r
}

/// Whether a registry entry is the QuickSwap router with a selector for
/// every call kind, in registry order.
pub open spec fn is_quickswap_entry(e: RouterEntry) -> bool {
    &&& e.address == quickswap_router()
    &&& e.selectors@.len() == all_kinds().len()
    &&& forall|i: int|
        0 <= i < all_kinds().len() ==> {
            let s = #[trigger] e.selectors@[i];
            s.kind == all_kinds()[i] && s.selector@ == selector_of(signature_of(all_kinds()[i]))
        }
}

/// A registry of the QuickSwap router alone.
pub fn quickswap_registry() -> (r: RouterRegistry)
    ensures
        r.routers@.len() == 1,
        is_quickswap_entry(r.routers@[0]),
        r.routers@[0].name@ == "QuickSwap"@,
{
    let mut r = RouterRegistry::new();
    let kinds = swap_kinds();
    r.register(quickswap_router_address(), String::from_str("QuickSwap"), &kinds);
    r
}

/// The registry of watched routers: QuickSwap with a selector for every call
/// kind, then SushiSwap and Uniswap V3 without selectors, each with its name.
pub open spec fn is_known_registry(routers: Seq<RouterEntry>) -> bool {
    &&& routers.len() == 3
    &&& is_quickswap_entry(routers[0])
    &&& routers[0].name@ == "QuickSwap"@
    &&& routers[1].address == sushiswap_router()
    &&& routers[1].name@ == "SushiSwap"@
    &&& routers[1].selectors@.len() == 0
    &&& routers[2].address == uniswap_v3_router()
    &&& routers[2].name@ == "UniswapV3"@
    &&& routers[2].selectors@.len() == 0
}

/// The routers that the pipeline watches: QuickSwap, whose calls it decodes,
/// and SushiSwap and Uniswap V3, whose calls count as swaps but are not decoded.
pub fn known_routers() -> (r: RouterRegistry)
    ensures
        is_known_registry(r.routers@),
{
    let mut r = quickswap_registry();
    let none: Vec<SwapKind> = Vec::new();
    r.register(sushiswap_router_address(), String::from_str("SushiSwap"), &none);
    r.register(uniswap_v3_router_address(), String::from_str("UniswapV3"), &none);
    r
}

/// Decodes a QuickSwap router call: `Ok(None)` for a transaction to any
/// other address, without a known selector, or whose parameters do not decode.
pub fn parse_quickswap_tx(tx: &PendingTx) -> (r: Result<Option<QuickSwapAction>, PipelineError>)
    ensures
        exists|e: RouterEntry|
            is_quickswap_entry(e) && outcome_view(r) == decode_outcome(seq![e], *tx),
        tx.to != Some(quickswap_router()) ==> r matches Ok(None),
{
    let registry = quickswap_registry();
    let r = registry.decode(tx);
    proof {
        assert(registry.routers@ =~= seq![registry.routers@[0]]);
        if let Some(to) = tx.to {
            if to != quickswap_router() {
                assert(!knows_router(registry.routers@, to));
            }
        }
    }
    r
}

/// The QuickSwap router.
#[derive(Debug)]
pub struct QuickswapRouter {
    pub address: H160,
}

/// The SushiSwap router.
#[derive(Debug)]
pub struct SushiswapRouter {
    pub address: H160,
}

/// The Uniswap V3 swap router.
#[derive(Debug)]
pub struct UniswapV3Router {
    pub address: H160,
}

/// Whether `data` is the call data of `swapExactTokensForTokens` with these arguments.
pub open spec fn is_swap_exact_tokens_call(
    data: Seq<u8>,
    amount_in: U256,
    amount_out_min: U256,
    path: Seq<H160>,
    to: H160,
    deadline: U256,
) -> bool {
    let model = SwapModel {
        kind: SwapKind::SwapExactTokensForTokens,
        fixed_amount: amount_in,
        limit_amount: amount_out_min,
        path,
        to,
        deadline,
    };
    exists|tokens: Seq<Token>|
        encodes_action(tokens, model) && data == selector_of(
            signature_of(SwapKind::SwapExactTokensForTokens),
        ) + abi_encoding(tokens)
}

fn swap_exact_tokens_call(
    amount_in: U256,
    amount_out_min: U256,
    path: Vec<H160>,
    to: H160,
    deadline: U256,
) -> (r: Vec<u8>)
    ensures
        is_swap_exact_tokens_call(r@, amount_in, amount_out_min, path@, to, deadline),
{
    let action = QuickSwapAction::SwapExactTokensForTokens {
        amount_in,
        amount_out_min,
        path,
        to,
        deadline,
    };
    encode_action_call(&action)
}

impl QuickswapRouter {
    pub fn new() -> (r: Self)
        ensures
            r.address == quickswap_router(),
    {
        QuickswapRouter { address: quickswap_router_address() }
    }

    /// The call data of an exact-input swap along `path`.
    pub fn swap_exact_tokens_for_tokens(
        &self,
        amount_in: U256,
        amount_out_min: U256,
        path: Vec<H160>,
        to: H160,
        deadline: U256,
    ) -> (r: Vec<u8>)
        ensures
            is_swap_exact_tokens_call(r@, amount_in, amount_out_min, path@, to, deadline),
    {
        swap_exact_tokens_call(amount_in, amount_out_min, path, to, deadline)
    }
}

impl SushiswapRouter {
    pub fn new() -> (r: Self)
        ensures
            r.address == sushiswap_router(),
    {
        SushiswapRouter { address: sushiswap_router_address() }
    }

    /// The call data of an exact-input swap along `path`.
    pub fn swap_exact_tokens_for_tokens(
        &self,
        amount_in: U256,
        amount_out_min: U256,
        path: Vec<H160>,
        to: H160,
        deadline: U256,
    ) -> (r: Vec<u8>)
        ensures
            is_swap_exact_tokens_call(r@, amount_in, amount_out_min, path@, to, deadline),
    {
        swap_exact_tokens_call(amount_in, amount_out_min, path, to, deadline)
    }
}

/// The arguments of a single-pool exact-input swap on Uniswap V3.
#[derive(Debug)]
pub struct ExactInputSingleParams {
    pub token_in: H160,
    pub token_out: H160,
    pub fee: u32,
    pub recipient: H160,
    pub deadline: U256,
    pub amount_in: U256,
    pub amount_out_minimum: U256,
    pub sqrt_price_limit_x96: U256,
}

/// The fields of the parameters, as the ABI tuple lists them.
pub open spec fn exact_input_single_fields(p: ExactInputSingleParams) -> Seq<Token> {
    seq![
        Token::Address(p.token_in),
        Token::Address(p.token_out),
        Token::Uint(U256([p.fee as u64, 0, 0, 0])),
        Token::Address(p.recipient),
        Token::Uint(p.deadline),
        Token::Uint(p.amount_in),
        Token::Uint(p.amount_out_minimum),
        Token::Uint(p.sqrt_price_limit_x96),
    ]
}

impl UniswapV3Router {
    pub fn new() -> (r: Self)
        ensures
            r.address == uniswap_v3_router(),
    {
        UniswapV3Router { address: uniswap_v3_router_address() }
    }

    /// The call data of `exactInputSingle` with the parameters as one tuple.
    pub fn exact_input_single(&self, params: ExactInputSingleParams) -> (r: Vec<u8>)
        ensures
            exists|args: Seq<Token>|
                args.len() == 1 && (args[0] matches Token::Tuple(items) && items@
                    == exact_input_single_fields(params)) && r@ == selector_of(
                    "exactInputSingle((address,address,uint24,address,uint256,uint256,uint256,uint160))"@,
                ) + abi_encoding(args),
    {
        let mut items: Vec<Token> = Vec::new();
        items.push(Token::Address(params.token_in));
        items.push(Token::Address(params.token_out));
        items.push(Token::Uint(u256_from_u64(params.fee as u64)));
        items.push(Token::Address(params.recipient));
        items.push(Token::Uint(params.deadline));
        items.push(Token::Uint(params.amount_in));
        items.push(Token::Uint(params.amount_out_minimum));
        items.push(Token::Uint(params.sqrt_price_limit_x96));
        assert(items@ =~= exact_input_single_fields(params));
        let ghost tuple = Token::Tuple(items);
        let mut args: Vec<Token> = Vec::new();
        args.push(Token::Tuple(items));
        assert(args@[0] == tuple);
        let r = encode_call(
            "exactInputSingle((address,address,uint24,address,uint256,uint256,uint256,uint160))",
            args.as_slice(),
        );
        assert(args@.len() == 1 && (args@[0] matches Token::Tuple(v) && v@ == exact_input_single_fields(params)));
        r
    }
}

} // verus!
