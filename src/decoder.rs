//! Decoding of exchange-router calls: a registry scoped by router address maps
//! each 4-byte selector to a call shape, whose ABI tokens are repacked into a
//! typed swap action.
use vstd::prelude::*;
use ethers::abi::{ParamType, Token};
use ethers::types::{H160, H256, U256};
use crate::abi::{abi_decode, abi_decoding, abi_encoding, encode_call, function_selector, selector_of};
use crate::error::PipelineError;
use crate::eth::same_address;

verus! {

/// A pending transaction as observed in the mempool.
#[derive(Clone, Debug)]
pub struct PendingTx {
    pub hash: H256,
    pub from: H160,
    pub to: Option<H160>,
    pub value: U256,
    pub input: Vec<u8>,
    pub gas_price: U256,
}

/// The router calls that the decoder understands.
#[derive(Clone, Copy, Debug, PartialEq, Eq, Structural)]
pub enum SwapKind {
    SwapExactTokensForTokens,
    SwapExactTokensForETH,
    SwapExactETHForTokens,
    SwapTokensForExactTokens,
    SwapTokensForExactETH,
    SwapETHForExactTokens,
    SwapExactTokensForTokensSupportingFeeOnTransferTokens,
    SwapExactTokensForETHSupportingFeeOnTransferTokens,
    SwapExactETHForTokensSupportingFeeOnTransferTokens,
}

/// Calls whose native-asset input is the transaction's value, not a parameter.
pub open spec fn value_carries_input(kind: SwapKind) -> bool {
    ||| kind == SwapKind::SwapExactETHForTokens
    ||| kind == SwapKind::SwapETHForExactTokens
    ||| kind == SwapKind::SwapExactETHForTokensSupportingFeeOnTransferTokens
}

/// Calls that fix the output amount and bound the input.
pub open spec fn is_exact_out(kind: SwapKind) -> bool {
    ||| kind == SwapKind::SwapTokensForExactTokens
    ||| kind == SwapKind::SwapTokensForExactETH
    ||| kind == SwapKind::SwapETHForExactTokens
}

/// How many ABI parameters a call of this kind has.
pub open spec fn param_count(kind: SwapKind) -> nat {
    if value_carries_input(kind) {
        4
    } else {
        5
    }
}

/// The ABI parameter types of a call of this kind.
pub open spec fn param_types_of(kind: SwapKind) -> Seq<ParamType> {
    let path = ParamType::Array(Box::new(ParamType::Address));
    if value_carries_input(kind) {
        seq![ParamType::Uint(256), path, ParamType::Address, ParamType::Uint(256)]
    } else {
        seq![
            ParamType::Uint(256),
            ParamType::Uint(256),
            path,
            ParamType::Address,
            ParamType::Uint(256),
        ]
    }
}

/// The Solidity signature of a call of this kind, whose digest gives its selector.
pub open spec fn signature_of(kind: SwapKind) -> Seq<char> {
    match kind {
        SwapKind::SwapExactTokensForTokens =>
            "swapExactTokensForTokens(uint256,uint256,address[],address,uint256)"@,
        SwapKind::SwapExactTokensForETH =>
            "swapExactTokensForETH(uint256,uint256,address[],address,uint256)"@,
        SwapKind::SwapExactETHForTokens =>
            "swapExactETHForTokens(uint256,address[],address,uint256)"@,
        SwapKind::SwapTokensForExactTokens =>
            "swapTokensForExactTokens(uint256,uint256,address[],address,uint256)"@,
        SwapKind::SwapTokensForExactETH =>
            "swapTokensForExactETH(uint256,uint256,address[],address,uint256)"@,
        SwapKind::SwapETHForExactTokens =>
            "swapETHForExactTokens(uint256,address[],address,uint256)"@,
        SwapKind::SwapExactTokensForTokensSupportingFeeOnTransferTokens =>
            "swapExactTokensForTokensSupportingFeeOnTransferTokens(uint256,uint256,address[],address,uint256)"@,
        SwapKind::SwapExactTokensForETHSupportingFeeOnTransferTokens =>
            "swapExactTokensForETHSupportingFeeOnTransferTokens(uint256,uint256,address[],address,uint256)"@,
        SwapKind::SwapExactETHForTokensSupportingFeeOnTransferTokens =>
            "swapExactETHForTokensSupportingFeeOnTransferTokens(uint256,address[],address,uint256)"@,
    }
}

impl SwapKind {
    /// The Solidity signature of the call.
    pub fn signature(&self) -> (r: &'static str)
        ensures
            r@ == signature_of(*self),
    {
        match self {
            SwapKind::SwapExactTokensForTokens =>
                "swapExactTokensForTokens(uint256,uint256,address[],address,uint256)",
            SwapKind::SwapExactTokensForETH =>
                "swapExactTokensForETH(uint256,uint256,address[],address,uint256)",
            SwapKind::SwapExactETHForTokens =>
                "swapExactETHForTokens(uint256,address[],address,uint256)",
            SwapKind::SwapTokensForExactTokens =>
                "swapTokensForExactTokens(uint256,uint256,address[],address,uint256)",
            SwapKind::SwapTokensForExactETH =>
                "swapTokensForExactETH(uint256,uint256,address[],address,uint256)",
            SwapKind::SwapETHForExactTokens =>
                "swapETHForExactTokens(uint256,address[],address,uint256)",
            SwapKind::SwapExactTokensForTokensSupportingFeeOnTransferTokens =>
                "swapExactTokensForTokensSupportingFeeOnTransferTokens(uint256,uint256,address[],address,uint256)",
            SwapKind::SwapExactTokensForETHSupportingFeeOnTransferTokens =>
                "swapExactTokensForETHSupportingFeeOnTransferTokens(uint256,uint256,address[],address,uint256)",
            SwapKind::SwapExactETHForTokensSupportingFeeOnTransferTokens =>
                "swapExactETHForTokensSupportingFeeOnTransferTokens(uint256,address[],address,uint256)",
        }
    }

    /// The ABI parameter types of the call.
    pub fn param_types(&self) -> (r: Vec<ParamType>)
        ensures
            r@ == param_types_of(*self),
    {
        let mut r: Vec<ParamType> = Vec::new();
        r.push(ParamType::Uint(256));
        if !self.value_is_input() {
            r.push(ParamType::Uint(256));
        }
        r.push(ParamType::Array(Box::new(ParamType::Address)));
        r.push(ParamType::Address);
        r.push(ParamType::Uint(256));
        proof {
            assert(r@ =~= param_types_of(*self));
        }
        r
    }

    /// Whether the native-asset input of the call is the transaction's value.
    pub fn value_is_input(&self) -> (r: bool)
        ensures
            r == value_carries_input(*self),
    {
        match self {
            SwapKind::SwapExactETHForTokens
            | SwapKind::SwapETHForExactTokens
            | SwapKind::SwapExactETHForTokensSupportingFeeOnTransferTokens => true,
            _ => false,
        }
    }

    /// Whether the call fixes its output and bounds its input.
    pub fn exact_out(&self) -> (r: bool)
        ensures
            r == is_exact_out(*self),
    {
        match self {
            SwapKind::SwapTokensForExactTokens
            | SwapKind::SwapTokensForExactETH
            | SwapKind::SwapETHForExactTokens => true,
            _ => false,
        }
    }
}

/// The call kinds of the decoder, in registry order.
pub open spec fn all_kinds() -> Seq<SwapKind> {
    seq![
        SwapKind::SwapExactTokensForTokens,
        SwapKind::SwapExactTokensForETH,
        SwapKind::SwapExactETHForTokens,
        SwapKind::SwapTokensForExactTokens,
        SwapKind::SwapTokensForExactETH,
        SwapKind::SwapETHForExactTokens,
        SwapKind::SwapExactTokensForTokensSupportingFeeOnTransferTokens,
        SwapKind::SwapExactTokensForETHSupportingFeeOnTransferTokens,
        SwapKind::SwapExactETHForTokensSupportingFeeOnTransferTokens,
    ]
}

/// A decoded swap: the call kind, its fixed amount (input for exact-in calls,
/// output for exact-out calls), its limit (least output or most input), the
/// hop path, the recipient and the deadline.
pub struct SwapModel {
    pub kind: SwapKind,
    pub fixed_amount: U256,
    pub limit_amount: U256,
    pub path: Seq<H160>,
    pub to: H160,
    pub deadline: U256,
}

/// A decoded router call.
#[derive(Clone, Debug)]
pub enum QuickSwapAction {
    SwapExactTokensForTokens {
        amount_in: U256,
        amount_out_min: U256,
        path: Vec<H160>,
        to: H160,
        deadline: U256,
    },
    SwapExactTokensForETH {
        amount_in: U256,
        amount_out_min: U256,
        path: Vec<H160>,
        to: H160,
        deadline: U256,
    },
    SwapExactETHForTokens {
        amount_in: U256,
        amount_out_min: U256,
        path: Vec<H160>,
        to: H160,
        deadline: U256,
    },
    SwapTokensForExactTokens {
        amount_out: U256,
        amount_in_max: U256,
        path: Vec<H160>,
        to: H160,
        deadline: U256,
    },
    SwapTokensForExactETH {
        amount_out: U256,
        amount_in_max: U256,
        path: Vec<H160>,
        to: H160,
        deadline: U256,
    },
    SwapETHForExactTokens {
        amount_out: U256,
        path: Vec<H160>,
        to: H160,
        deadline: U256,
        amount_in_max: U256,
    },
    SwapExactTokensForTokensSupportingFeeOnTransferTokens {
        amount_in: U256,
        amount_out_min: U256,
        path: Vec<H160>,
        to: H160,
        deadline: U256,
    },
    SwapExactTokensForETHSupportingFeeOnTransferTokens {
        amount_in: U256,
        amount_out_min: U256,
        path: Vec<H160>,
        to: H160,
        deadline: U256,
    },
    SwapExactETHForTokensSupportingFeeOnTransferTokens {
        amount_in: U256,
        amount_out_min: U256,
        path: Vec<H160>,
        to: H160,
        deadline: U256,
    },
}

impl View for QuickSwapAction {
    type V = SwapModel;

    open spec fn view(&self) -> SwapModel {
        match self {
            QuickSwapAction::SwapExactTokensForTokens { amount_in, amount_out_min, path, to, deadline } =>
                SwapModel { kind: SwapKind::SwapExactTokensForTokens, fixed_amount: *amount_in,
                    limit_amount: *amount_out_min, path: path@, to: *to, deadline: *deadline },
            QuickSwapAction::SwapExactTokensForETH { amount_in, amount_out_min, path, to, deadline } =>
                SwapModel { kind: SwapKind::SwapExactTokensForETH, fixed_amount: *amount_in,
                    limit_amount: *amount_out_min, path: path@, to: *to, deadline: *deadline },
            QuickSwapAction::SwapExactETHForTokens { amount_in, amount_out_min, path, to, deadline } =>
                SwapModel { kind: SwapKind::SwapExactETHForTokens, fixed_amount: *amount_in,
                    limit_amount: *amount_out_min, path: path@, to: *to, deadline: *deadline },
            QuickSwapAction::SwapTokensForExactTokens { amount_out, amount_in_max, path, to, deadline } =>
                SwapModel { kind: SwapKind::SwapTokensForExactTokens, fixed_amount: *amount_out,
                    limit_amount: *amount_in_max, path: path@, to: *to, deadline: *deadline },
            QuickSwapAction::SwapTokensForExactETH { amount_out, amount_in_max, path, to, deadline } =>
                SwapModel { kind: SwapKind::SwapTokensForExactETH, fixed_amount: *amount_out,
                    limit_amount: *amount_in_max, path: path@, to: *to, deadline: *deadline },
            QuickSwapAction::SwapETHForExactTokens { amount_out, path, to, deadline, amount_in_max } =>
                SwapModel { kind: SwapKind::SwapETHForExactTokens, fixed_amount: *amount_out,
                    limit_amount: *amount_in_max, path: path@, to: *to, deadline: *deadline },
            QuickSwapAction::SwapExactTokensForTokensSupportingFeeOnTransferTokens {
                amount_in, amount_out_min, path, to, deadline,
            } => SwapModel { kind: SwapKind::SwapExactTokensForTokensSupportingFeeOnTransferTokens,
                fixed_amount: *amount_in, limit_amount: *amount_out_min, path: path@, to: *to,
                deadline: *deadline },
            QuickSwapAction::SwapExactTokensForETHSupportingFeeOnTransferTokens {
                amount_in, amount_out_min, path, to, deadline,
            } => SwapModel { kind: SwapKind::SwapExactTokensForETHSupportingFeeOnTransferTokens,
                fixed_amount: *amount_in, limit_amount: *amount_out_min, path: path@, to: *to,
                deadline: *deadline },
            QuickSwapAction::SwapExactETHForTokensSupportingFeeOnTransferTokens {
                amount_in, amount_out_min, path, to, deadline,
            } => SwapModel { kind: SwapKind::SwapExactETHForTokensSupportingFeeOnTransferTokens,
                fixed_amount: *amount_in, limit_amount: *amount_out_min, path: path@, to: *to,
                deadline: *deadline },
        }
    }
}

/// A copy of a token path.
pub fn copy_path(path: &Vec<H160>) -> (r: Vec<H160>)
    ensures
        r@ == path@,
{
    let mut r: Vec<H160> = Vec::new();
    let mut i: usize = 0;
    while i < path.len()
        invariant
            i <= path@.len(),
            r@ == path@.subrange(0, i as int),
        decreases path@.len() - i,
    {
        r.push(path[i]);
        i = i + 1;
    }
    assert(r@ =~= path@);
    r
}

impl QuickSwapAction {
    /// Builds the action of the given kind from its parts.
    pub fn from_parts(
        kind: SwapKind,
        fixed_amount: U256,
        limit_amount: U256,
        path: Vec<H160>,
        to: H160,
        deadline: U256,
    ) -> (r: QuickSwapAction)
        ensures
            r@ == (SwapModel { kind, fixed_amount, limit_amount, path: path@, to, deadline }),
    {
        match kind {
            SwapKind::SwapExactTokensForTokens => QuickSwapAction::SwapExactTokensForTokens {
                amount_in: fixed_amount, amount_out_min: limit_amount, path, to, deadline,
            },
            SwapKind::SwapExactTokensForETH => QuickSwapAction::SwapExactTokensForETH {
                amount_in: fixed_amount, amount_out_min: limit_amount, path, to, deadline,
            },
            SwapKind::SwapExactETHForTokens => QuickSwapAction::SwapExactETHForTokens {
                amount_in: fixed_amount, amount_out_min: limit_amount, path, to, deadline,
            },
            SwapKind::SwapTokensForExactTokens => QuickSwapAction::SwapTokensForExactTokens {
                amount_out: fixed_amount, amount_in_max: limit_amount, path, to, deadline,
            },
            SwapKind::SwapTokensForExactETH => QuickSwapAction::SwapTokensForExactETH {
                amount_out: fixed_amount, amount_in_max: limit_amount, path, to, deadline,
            },
            SwapKind::SwapETHForExactTokens => QuickSwapAction::SwapETHForExactTokens {
                amount_out: fixed_amount, path, to, deadline, amount_in_max: limit_amount,
            },
            SwapKind::SwapExactTokensForTokensSupportingFeeOnTransferTokens =>
                QuickSwapAction::SwapExactTokensForTokensSupportingFeeOnTransferTokens {
                    amount_in: fixed_amount, amount_out_min: limit_amount, path, to, deadline,
                },
            SwapKind::SwapExactTokensForETHSupportingFeeOnTransferTokens =>
                QuickSwapAction::SwapExactTokensForETHSupportingFeeOnTransferTokens {
                    amount_in: fixed_amount, amount_out_min: limit_amount, path, to, deadline,
                },
            SwapKind::SwapExactETHForTokensSupportingFeeOnTransferTokens =>
                QuickSwapAction::SwapExactETHForTokensSupportingFeeOnTransferTokens {
                    amount_in: fixed_amount, amount_out_min: limit_amount, path, to, deadline,
                },
        }
    }

    /// The hop path of the swap.
    pub fn get_path(&self) -> (r: Vec<H160>)
        ensures
            r@ == self@.path,
    {
        match self {
            QuickSwapAction::SwapExactTokensForTokens { path, .. }
            | QuickSwapAction::SwapExactTokensForETH { path, .. }
            | QuickSwapAction::SwapExactETHForTokens { path, .. }
            | QuickSwapAction::SwapTokensForExactTokens { path, .. }
            | QuickSwapAction::SwapTokensForExactETH { path, .. }
            | QuickSwapAction::SwapETHForExactTokens { path, .. }
            | QuickSwapAction::SwapExactTokensForTokensSupportingFeeOnTransferTokens { path, .. }
            | QuickSwapAction::SwapExactTokensForETHSupportingFeeOnTransferTokens { path, .. }
            | QuickSwapAction::SwapExactETHForTokensSupportingFeeOnTransferTokens { path, .. } => {
                copy_path(path)
            },
        }
    }
}

/// The integer that a token holds, if it is one.
pub open spec fn token_uint(t: Token) -> Option<U256> {
    match t {
        Token::Uint(u) => Some(u),
        _ => None,
    }
}

/// The address that a token holds, if it is one.
pub open spec fn token_address(t: Token) -> Option<H160> {
    match t {
        Token::Address(a) => Some(a),
        _ => None,
    }
}

/// Whether every token of the sequence is an address.
pub open spec fn all_addresses(v: Seq<Token>) -> bool {
    forall|i: int| 0 <= i < v.len() ==> (#[trigger] v[i]) is Address
}

/// The addresses of a sequence of address tokens.
pub open spec fn addresses_of(v: Seq<Token>) -> Seq<H160> {
    Seq::new(v.len(), |i: int| token_address(v[i])->0)
}

/// The addresses that an array token holds, if it is an array of addresses.
pub open spec fn token_address_list(t: Token) -> Option<Seq<H160>> {
    match t {
        Token::Array(v) => if all_addresses(v@) {
            Some(addresses_of(v@))
        } else {
            None
        },
        _ => None,
    }
}

/// Whether a token is the ABI array of the given addresses.
pub open spec fn is_address_array(t: Token, path: Seq<H160>) -> bool {
    match t {
        Token::Array(v) => v@ == path.map_values(|a: H160| Token::Address(a)),
        _ => false,
    }
}

/// The swap that the decoded tokens of a call describe, with `value` the
/// transaction's value. A token count other than the schema's is an error of
/// the registry; a token of the wrong type, or a path of fewer than two
/// tokens, makes the call undecodable.
pub open spec fn action_of_tokens(kind: SwapKind, tokens: Seq<Token>, value: U256) -> Result<
    Option<SwapModel>,
    PipelineError,
> {
    if tokens.len() != param_count(kind) {
        Err(PipelineError::SchemaInconsistency)
    } else {
        let first = token_uint(tokens[0]);
        let parts = if value_carries_input(kind) {
            (Some(value), first, token_address_list(tokens[1]), token_address(tokens[2]), token_uint(tokens[3]))
        } else {
            (first, token_uint(tokens[1]), token_address_list(tokens[2]), token_address(tokens[3]), token_uint(tokens[4]))
        };
        match parts {
            (Some(a), Some(b), Some(path), Some(to), Some(deadline)) => {
                if path.len() < 2 {
                    Ok(None)
                } else {
                    let (fixed_amount, limit_amount) = if value_carries_input(kind) && is_exact_out(kind) {
                        (b, a)
                    } else {
                        (a, b)
                    };
                    Ok(Some(SwapModel { kind, fixed_amount, limit_amount, path, to, deadline }))
                }
            },
            _ => Ok(None),
        }
    }
}

/// What a decode outcome says, over the views of its actions.
pub open spec fn outcome_view(r: Result<Option<QuickSwapAction>, PipelineError>) -> Result<
    Option<SwapModel>,
    PipelineError,
> {
    match r {
        Ok(Some(a)) => Ok(Some(a@)),
        Ok(None) => Ok(None),
        Err(e) => Err(e),
    }
}

fn uint_of(t: &Token) -> (r: Option<U256>)
    ensures
        r == token_uint(*t),
{
    match t {
        Token::Uint(u) => Some(*u),
        _ => None,
    }
}

fn address_of(t: &Token) -> (r: Option<H160>)
    ensures
        r == token_address(*t),
{
    match t {
        Token::Address(a) => Some(*a),
        _ => None,
    }
}

fn address_list_of(t: &Token) -> (r: Option<Vec<H160>>)
    ensures
        r is Some <==> token_address_list(*t) is Some,
        r matches Some(v) ==> v@ == token_address_list(*t)->0,
{
    match t {
        Token::Array(items) => {
            let mut out: Vec<H160> = Vec::new();
            let mut i: usize = 0;
            while i < items.len()
                invariant
                    *t == Token::Array(*items),
                    i <= items@.len(),
                    out@.len() == i,
                    forall|j: int| 0 <= j < i ==> (#[trigger] items@[j]) is Address,
                    forall|j: int| 0 <= j < i ==> out@[j] == token_address(#[trigger] items@[j])->0,
                decreases items@.len() - i,
            {
                match &items[i] {
                    Token::Address(a) => out.push(*a),
                    _ => {
                        assert(!(items@[i as int] is Address));
                        assert(!all_addresses(items@));
                        return None;
                    },
                }
                i = i + 1;
            }
            assert(out@ =~= addresses_of(items@));
            Some(out)
        },
        _ => None,
    }
}

/// Repacks the decoded tokens of a call of the given kind into a swap action;
/// `value` is the transaction's value, the amount of calls that take the
/// native asset as input.
pub fn action_from_tokens(kind: SwapKind, tokens: &Vec<Token>, value: U256) -> (r: Result<
    Option<QuickSwapAction>,
    PipelineError,
>)
    ensures
        outcome_view(r) == action_of_tokens(kind, tokens@, value),
{
    let native = kind.value_is_input();
    let count: usize = if native { 4 } else { 5 };
    if tokens.len() != count {
        return Err(PipelineError::SchemaInconsistency);
    }
    let first = uint_of(&tokens[0]);
    let (a, b, path, to, deadline) = if native {
        (Some(value), first, address_list_of(&tokens[1]), address_of(&tokens[2]), uint_of(&tokens[3]))
    } else {
        (first, uint_of(&tokens[1]), address_list_of(&tokens[2]), address_of(&tokens[3]), uint_of(&tokens[4]))
    };
    match (a, b, path, to, deadline) {
        (Some(a), Some(b), Some(path), Some(to), Some(deadline)) => {
            if path.len() < 2 {
                Ok(None)
            } else if native && kind.exact_out() {
                Ok(Some(QuickSwapAction::from_parts(kind, b, a, path, to, deadline)))
            } else {
                Ok(Some(QuickSwapAction::from_parts(kind, a, b, path, to, deadline)))
            }
        },
        _ => Ok(None),
    }
}

/// The amount of a swap that travels as the transaction's value, for calls
/// that take the native asset as input.
pub open spec fn native_input(a: SwapModel) -> U256 {
    if is_exact_out(a.kind) {
        a.limit_amount
    } else {
        a.fixed_amount
    }
}

/// Whether `tokens` are the ABI arguments of the call that `a` describes.
pub open spec fn encodes_action(tokens: Seq<Token>, a: SwapModel) -> bool {
    let k = if value_carries_input(a.kind) { 1int } else { 2int };
    &&& tokens.len() == param_count(a.kind)
    &&& value_carries_input(a.kind) ==> tokens[0] == Token::Uint(
        if is_exact_out(a.kind) { a.fixed_amount } else { a.limit_amount },
    )
    &&& !value_carries_input(a.kind) ==> tokens[0] == Token::Uint(a.fixed_amount) && tokens[1]
        == Token::Uint(a.limit_amount)
    &&& is_address_array(tokens[k], a.path)
    &&& tokens[k + 1] == Token::Address(a.to)
    &&& tokens[k + 2] == Token::Uint(a.deadline)
}

/// Decoding the tokens of a swap's call gives the swap back: the value of
/// the transaction stands for the amount of a native-asset input.
pub proof fn lemma_tokens_round_trip(a: SwapModel, tokens: Seq<Token>, value: U256)
    requires
        encodes_action(tokens, a),
        a.path.len() >= 2,
        value_carries_input(a.kind) ==> value == native_input(a),
    ensures
        action_of_tokens(a.kind, tokens, value) == Ok::<Option<SwapModel>, PipelineError>(Some(a)),
{
    let k = if value_carries_input(a.kind) { 1int } else { 2int };
    match tokens[k] {
        Token::Array(v) => {
            assert forall|i: int| 0 <= i < v@.len() implies (#[trigger] v@[i]) is Address
                && token_address(v@[i])->0 == a.path[i] by {
                assert(v@[i] == Token::Address(a.path[i]));
            }
            assert(addresses_of(v@) =~= a.path);
        },
        _ => {},
    }
}

/// The ABI arguments of the call that a swap action describes.
pub fn action_tokens(action: &QuickSwapAction) -> (r: Vec<Token>)
    ensures
        encodes_action(r@, action@),
{
    let model = Ghost(action@);
    let (kind, fixed, limit, path, to, deadline) = match action {
        QuickSwapAction::SwapExactTokensForTokens { amount_in, amount_out_min, path, to, deadline } =>
            (SwapKind::SwapExactTokensForTokens, amount_in, amount_out_min, path, to, deadline),
        QuickSwapAction::SwapExactTokensForETH { amount_in, amount_out_min, path, to, deadline } =>
            (SwapKind::SwapExactTokensForETH, amount_in, amount_out_min, path, to, deadline),
        QuickSwapAction::SwapExactETHForTokens { amount_in, amount_out_min, path, to, deadline } =>
            (SwapKind::SwapExactETHForTokens, amount_in, amount_out_min, path, to, deadline),
        QuickSwapAction::SwapTokensForExactTokens { amount_out, amount_in_max, path, to, deadline } =>
            (SwapKind::SwapTokensForExactTokens, amount_out, amount_in_max, path, to, deadline),
        QuickSwapAction::SwapTokensForExactETH { amount_out, amount_in_max, path, to, deadline } =>
            (SwapKind::SwapTokensForExactETH, amount_out, amount_in_max, path, to, deadline),
        QuickSwapAction::SwapETHForExactTokens { amount_out, path, to, deadline, amount_in_max } =>
            (SwapKind::SwapETHForExactTokens, amount_out, amount_in_max, path, to, deadline),
        QuickSwapAction::SwapExactTokensForTokensSupportingFeeOnTransferTokens {
            amount_in, amount_out_min, path, to, deadline,
        } => (SwapKind::SwapExactTokensForTokensSupportingFeeOnTransferTokens, amount_in, amount_out_min,
            path, to, deadline),
        QuickSwapAction::SwapExactTokensForETHSupportingFeeOnTransferTokens {
            amount_in, amount_out_min, path, to, deadline,
        } => (SwapKind::SwapExactTokensForETHSupportingFeeOnTransferTokens, amount_in, amount_out_min,
            path, to, deadline),
        QuickSwapAction::SwapExactETHForTokensSupportingFeeOnTransferTokens {
            amount_in, amount_out_min, path, to, deadline,
        } => (SwapKind::SwapExactETHForTokensSupportingFeeOnTransferTokens, amount_in, amount_out_min,
            path, to, deadline),
    };
    assert(kind == model@.kind && *fixed == model@.fixed_amount && *limit == model@.limit_amount);
    let mut r: Vec<Token> = Vec::new();
    if kind.value_is_input() {
        if kind.exact_out() {
            r.push(Token::Uint(*fixed));
        } else {
            r.push(Token::Uint(*limit));
        }
    } else {
        r.push(Token::Uint(*fixed));
        r.push(Token::Uint(*limit));
    }
    r.push(address_array_token(path));
    r.push(Token::Address(*to));
    r.push(Token::Uint(*deadline));
    r
}

/// An ABI array token of the given addresses.
pub fn address_array_token(path: &Vec<H160>) -> (r: Token)
    ensures
        is_address_array(r, path@),
{
    let mut items: Vec<Token> = Vec::new();
    let mut i: usize = 0;
    while i < path.len()
        invariant
            i <= path@.len(),
            items@.len() == i,
            forall|j: int| 0 <= j < i ==> #[trigger] items@[j] == Token::Address(path@[j]),
        decreases path@.len() - i,
    {
        items.push(Token::Address(path[i]));
        i = i + 1;
    }
    assert(items@ =~= path@.map_values(|a: H160| Token::Address(a)));
    Token::Array(items)
}

/// The call data of the router call that a swap action describes: the
/// selector of its signature and the ABI encoding of its arguments.
pub fn encode_action_call(action: &QuickSwapAction) -> (r: Vec<u8>)
    ensures
        exists|tokens: Seq<Token>|
            encodes_action(tokens, action@) && r@ == selector_of(signature_of(action@.kind))
                + abi_encoding(tokens),
{
    let tokens = action_tokens(action);
    let kind = action_kind(action);
    encode_call(kind.signature(), tokens.as_slice())
}

/// The call kind of a swap action.
pub fn action_kind(action: &QuickSwapAction) -> (r: SwapKind)
    ensures
        r == action@.kind,
{
    match action {
        QuickSwapAction::SwapExactTokensForTokens { .. } => SwapKind::SwapExactTokensForTokens,
        QuickSwapAction::SwapExactTokensForETH { .. } => SwapKind::SwapExactTokensForETH,
        QuickSwapAction::SwapExactETHForTokens { .. } => SwapKind::SwapExactETHForTokens,
        QuickSwapAction::SwapTokensForExactTokens { .. } => SwapKind::SwapTokensForExactTokens,
        QuickSwapAction::SwapTokensForExactETH { .. } => SwapKind::SwapTokensForExactETH,
        QuickSwapAction::SwapETHForExactTokens { .. } => SwapKind::SwapETHForExactTokens,
        QuickSwapAction::SwapExactTokensForTokensSupportingFeeOnTransferTokens { .. } =>
            SwapKind::SwapExactTokensForTokensSupportingFeeOnTransferTokens,
        QuickSwapAction::SwapExactTokensForETHSupportingFeeOnTransferTokens { .. } =>
            SwapKind::SwapExactTokensForETHSupportingFeeOnTransferTokens,
        QuickSwapAction::SwapExactETHForTokensSupportingFeeOnTransferTokens { .. } =>
            SwapKind::SwapExactETHForTokensSupportingFeeOnTransferTokens,
    }
}

/// A selector of a router and the call it identifies.
#[derive(Clone, Copy, Debug)]
pub struct SelectorEntry {
    pub selector: [u8; 4],
    pub kind: SwapKind,
}

/// A known exchange router: its address, its name and the calls it decodes.
#[derive(Debug)]
pub struct RouterEntry {
    pub address: H160,
    pub name: String,
    pub selectors: Vec<SelectorEntry>,
}

/// The routers that the decoder knows, each with a selector table of its own.
#[derive(Debug)]
pub struct RouterRegistry {
    pub routers: Vec<RouterEntry>,
}

/// `i` is the first position of a router at address `to`.
pub open spec fn first_router(routers: Seq<RouterEntry>, to: H160, i: int) -> bool {
    &&& 0 <= i < routers.len()
    &&& routers[i].address == to
    &&& forall|j: int| 0 <= j < i ==> (#[trigger] routers[j]).address != to
}

/// Some router of the registry sits at address `to`.
pub open spec fn knows_router(routers: Seq<RouterEntry>, to: H160) -> bool {
    exists|i: int| 0 <= i < routers.len() && (#[trigger] routers[i]).address == to
}

/// The first router at address `to`.
pub open spec fn router_at(routers: Seq<RouterEntry>, to: H160) -> RouterEntry {
    routers[choose|i: int| first_router(routers, to, i)]
}

/// `i` is the first position of selector `sel` in a selector table.
pub open spec fn first_selector(entries: Seq<SelectorEntry>, sel: Seq<u8>, i: int) -> bool {
    &&& 0 <= i < entries.len()
    &&& entries[i].selector@ == sel
    &&& forall|j: int| 0 <= j < i ==> (#[trigger] entries[j]).selector@ != sel
}

/// The selector table holds `sel`.
pub open spec fn knows_selector(entries: Seq<SelectorEntry>, sel: Seq<u8>) -> bool {
    exists|i: int| 0 <= i < entries.len() && (#[trigger] entries[i]).selector@ == sel
}

/// The call kind of the first entry for `sel`.
pub open spec fn kind_of_selector(entries: Seq<SelectorEntry>, sel: Seq<u8>) -> SwapKind {
    entries[choose|i: int| first_selector(entries, sel, i)].kind
}

/// What decoding a transaction against the registry gives: nothing unless
/// the recipient is a known router, the call data holds a selector of that
/// router and the parameters decode; else the repacked action.
pub open spec fn decode_outcome(routers: Seq<RouterEntry>, tx: PendingTx) -> Result<
    Option<SwapModel>,
    PipelineError,
> {
    match tx.to {
        None => Ok(None),
        Some(to) => {
            let input = tx.input@;
            let selectors = router_at(routers, to).selectors@;
            let sel = input.subrange(0, 4);
            if !knows_router(routers, to) || input.len() < 4 || !knows_selector(selectors, sel) {
                Ok(None)
            } else {
                let kind = kind_of_selector(selectors, sel);
                match abi_decoding(param_types_of(kind), input.subrange(4, input.len() as int)) {
                    None => Ok(None),
                    Some(tokens) => action_of_tokens(kind, tokens, tx.value),
                }
            }
        },
    }
}

proof fn lemma_first_router_unique(routers: Seq<RouterEntry>, to: H160, i: int)
    requires
        first_router(routers, to, i),
    ensures
        knows_router(routers, to),
        router_at(routers, to) == routers[i],
{
    let k = choose|k: int| first_router(routers, to, k);
    assert(first_router(routers, to, k));
    if k < i {
        assert(routers[k].address != to);
    } else if i < k {
        assert(routers[i].address != to);
    }
}

proof fn lemma_first_selector_unique(entries: Seq<SelectorEntry>, sel: Seq<u8>, i: int)
    requires
        first_selector(entries, sel, i),
    ensures
        knows_selector(entries, sel),
        kind_of_selector(entries, sel) == entries[i].kind,
{
    let k = choose|k: int| first_selector(entries, sel, k);
    assert(first_selector(entries, sel, k));
    if k < i {
        assert(entries[k].selector@ != sel);
    } else if i < k {
        assert(entries[i].selector@ != sel);
    }
}

fn find_router(routers: &Vec<RouterEntry>, to: &H160) -> (r: Option<usize>)
    ensures
        r matches Some(i) ==> first_router(routers@, *to, i as int),
        r is None ==> !knows_router(routers@, *to),
{
    let mut i: usize = 0;
    while i < routers.len()
        invariant
            i <= routers@.len(),
            forall|j: int| 0 <= j < i ==> (#[trigger] routers@[j]).address != *to,
        decreases routers@.len() - i,
    {
        if same_address(&routers[i].address, to) {
            return Some(i);
        }
        i = i + 1;
    }
    None
}

fn selector_matches(input: &Vec<u8>, selector: &[u8; 4]) -> (r: bool)
    requires
        input@.len() >= 4,
    ensures
        r == (selector@ == input@.subrange(0, 4)),
{
    let mut i: usize = 0;
    while i < 4
        invariant
            i <= 4,
            input@.len() >= 4,
            forall|j: int| 0 <= j < i ==> input@[j] == selector@[j],
        decreases 4 - i,
    {
        if input[i] != selector[i] {
            assert(selector@[i as int] != input@.subrange(0, 4)[i as int]);
            return false;
        }
        i = i + 1;
    }
    assert(selector@ =~= input@.subrange(0, 4));
    true
}

fn find_selector(entries: &Vec<SelectorEntry>, input: &Vec<u8>) -> (r: Option<usize>)
    requires
        input@.len() >= 4,
    ensures
        r matches Some(i) ==> first_selector(entries@, input@.subrange(0, 4), i as int),
        r is None ==> !knows_selector(entries@, input@.subrange(0, 4)),
{
    let ghost sel = input@.subrange(0, 4);
    let mut i: usize = 0;
    while i < entries.len()
        invariant
            i <= entries@.len(),
            input@.len() >= 4,
            sel == input@.subrange(0, 4),
            forall|j: int| 0 <= j < i ==> (#[trigger] entries@[j]).selector@ != sel,
        decreases entries@.len() - i,
    {
        if selector_matches(input, &entries[i].selector) {
            return Some(i);
        }
        i = i + 1;
    }
    None
}

/// The call data after the selector.
fn call_arguments(input: &Vec<u8>) -> (r: &[u8])
    requires
        input@.len() >= 4,
    ensures
        r@ == input@.subrange(4, input@.len() as int),
{
    vstd::slice::slice_subrange(input.as_slice(), 4, input.len())
}

impl RouterRegistry {
    /// A registry that knows no router.
    pub fn new() -> (r: RouterRegistry)
        ensures
            r.routers@.len() == 0,
    {
        RouterRegistry { routers: Vec::new() }
    }

    /// Adds a router that decodes the given calls; each selector is the
    /// digest of the call's signature.
    pub fn register(&mut self, address: H160, name: String, kinds: &Vec<SwapKind>)
        ensures
            final(self).routers@.len() == old(self).routers@.len() + 1,
            final(self).routers@.subrange(0, old(self).routers@.len() as int) == old(self).routers@,
            final(self).routers@.last().address == address,
            final(self).routers@.last().name@ == name@,
            final(self).routers@.last().selectors@.len() == kinds@.len(),
            forall|i: int| 0 <= i < kinds@.len() ==> {
                let e = #[trigger] final(self).routers@.last().selectors@[i];
                e.kind == kinds@[i] && e.selector@ == selector_of(signature_of(kinds@[i]))
            },
    {
        let mut selectors: Vec<SelectorEntry> = Vec::new();
        let mut i: usize = 0;
        while i < kinds.len()
            invariant
                i <= kinds@.len(),
                selectors@.len() == i,
                forall|j: int| 0 <= j < i ==> {
                    let e = #[trigger] selectors@[j];
                    e.kind == kinds@[j] && e.selector@ == selector_of(signature_of(kinds@[j]))
                },
            decreases kinds@.len() - i,
        {
            let kind = kinds[i];
            let selector = function_selector(kind.signature());
            selectors.push(SelectorEntry { selector, kind });
            i = i + 1;
        }
        self.routers.push(RouterEntry { address, name, selectors });
        assert(self.routers@.subrange(0, old(self).routers@.len() as int) =~= old(self).routers@);
    }

    /// Whether the address is a known router: only calls to one are swaps.
    pub fn is_swap_transaction(&self, tx: &PendingTx) -> (r: bool)
        ensures
            r == (tx.to matches Some(to) && knows_router(self.routers@, to)),
    {
        match &tx.to {
            Some(to) => find_router(&self.routers, to).is_some(),
            None => false,
        }
    }

    /// Decodes a transaction into a swap action. `Ok(None)` where the
    /// recipient is no known router, the call has no selector of that router
    /// or its parameters do not decode; an error only where the decoded
    /// parameters disagree in number with the selector's schema. Nothing is
    /// changed.
    pub fn decode(&self, tx: &PendingTx) -> (r: Result<Option<QuickSwapAction>, PipelineError>)
        ensures
            outcome_view(r) == decode_outcome(self.routers@, *tx),
            tx.to matches Some(to) && !knows_router(self.routers@, to) ==> r matches Ok(None),
            tx.to is None ==> r matches Ok(None),
    {
        let to = match &tx.to {
            Some(a) => a,
            None => return Ok(None),
        };
        let ri = match find_router(&self.routers, to) {
            Some(i) => i,
            None => return Ok(None),
        };
        proof {
            lemma_first_router_unique(self.routers@, *to, ri as int);
        }
        if tx.input.len() < 4 {
            return Ok(None);
        }
        let router = &self.routers[ri];
        let si = match find_selector(&router.selectors, &tx.input) {
            Some(i) => i,
            None => return Ok(None),
        };
        proof {
            lemma_first_selector_unique(router.selectors@, tx.input@.subrange(0, 4), si as int);
        }
        let kind = router.selectors[si].kind;
        let types = kind.param_types();
        match abi_decode(types.as_slice(), call_arguments(&tx.input)) {
            None => Ok(None),
            Some(tokens) => action_from_tokens(kind, &tokens, tx.value),
        }
    }
}

impl RouterRegistry {
    /// Decodes a transaction that must be a known swap: what `decode` skips
    /// is a `DecodeMismatch` here.
    pub fn decode_required(&self, tx: &PendingTx) -> (r: Result<QuickSwapAction, PipelineError>)
        ensures
            decode_outcome(self.routers@, *tx) matches Ok(Some(m)) ==> r matches Ok(a) && a@ == m,
            decode_outcome(self.routers@, *tx) matches Ok(None) ==> r == Err::<QuickSwapAction, PipelineError>(
                PipelineError::DecodeMismatch,
            ),
            decode_outcome(self.routers@, *tx) matches Err(e) ==> r == Err::<QuickSwapAction, PipelineError>(e),
    {
        match self.decode(tx) {
            Ok(Some(a)) => Ok(a),
            Ok(None) => Err(PipelineError::DecodeMismatch),
            Err(e) => Err(e),
        }
    }
}

} // verus!
