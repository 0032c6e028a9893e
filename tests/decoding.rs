use ethers::abi::Token;
use ethers::types::{H160, H256, U256};
use mempool_arbitrage::decoder::{action_from_tokens, encode_action_call, PendingTx, QuickSwapAction, SwapKind};
use mempool_arbitrage::error::PipelineError;
use mempool_arbitrage::routers::{
    known_routers, parse_quickswap_tx, quickswap_router_address, sushiswap_router_address,
    swap_kinds, uniswap_v3_router_address, ExactInputSingleParams, QuickswapRouter, SushiswapRouter,
    UniswapV3Router,
};

fn addr(b: u8) -> H160 {
    H160([b; 20])
}

fn tx_to(to: Option<H160>, value: U256, input: Vec<u8>) -> PendingTx {
    PendingTx {
        hash: H256([7u8; 32]),
        from: addr(0x11),
        to,
        value,
        input,
        gas_price: U256::from(30_000_000_000u64),
    }
}

/// (kind, fixed amount, limit amount, path, recipient, deadline)
fn parts(a: &QuickSwapAction) -> (SwapKind, U256, U256, Vec<H160>, H160, U256) {
    match a {
        QuickSwapAction::SwapExactTokensForTokens { amount_in, amount_out_min, path, to, deadline } => {
            (SwapKind::SwapExactTokensForTokens, *amount_in, *amount_out_min, path.clone(), *to, *deadline)
        }
        QuickSwapAction::SwapExactTokensForETH { amount_in, amount_out_min, path, to, deadline } => {
            (SwapKind::SwapExactTokensForETH, *amount_in, *amount_out_min, path.clone(), *to, *deadline)
        }
        QuickSwapAction::SwapExactETHForTokens { amount_in, amount_out_min, path, to, deadline } => {
            (SwapKind::SwapExactETHForTokens, *amount_in, *amount_out_min, path.clone(), *to, *deadline)
        }
        QuickSwapAction::SwapTokensForExactTokens { amount_out, amount_in_max, path, to, deadline } => {
            (SwapKind::SwapTokensForExactTokens, *amount_out, *amount_in_max, path.clone(), *to, *deadline)
        }
        QuickSwapAction::SwapTokensForExactETH { amount_out, amount_in_max, path, to, deadline } => {
            (SwapKind::SwapTokensForExactETH, *amount_out, *amount_in_max, path.clone(), *to, *deadline)
        }
        QuickSwapAction::SwapETHForExactTokens { amount_out, path, to, deadline, amount_in_max } => {
            (SwapKind::SwapETHForExactTokens, *amount_out, *amount_in_max, path.clone(), *to, *deadline)
        }
        QuickSwapAction::SwapExactTokensForTokensSupportingFeeOnTransferTokens {
            amount_in, amount_out_min, path, to, deadline,
        } => (
            SwapKind::SwapExactTokensForTokensSupportingFeeOnTransferTokens,
            *amount_in, *amount_out_min, path.clone(), *to, *deadline,
        ),
        QuickSwapAction::SwapExactTokensForETHSupportingFeeOnTransferTokens {
            amount_in, amount_out_min, path, to, deadline,
        } => (
            SwapKind::SwapExactTokensForETHSupportingFeeOnTransferTokens,
            *amount_in, *amount_out_min, path.clone(), *to, *deadline,
        ),
        QuickSwapAction::SwapExactETHForTokensSupportingFeeOnTransferTokens {
            amount_in, amount_out_min, path, to, deadline,
        } => (
            SwapKind::SwapExactETHForTokensSupportingFeeOnTransferTokens,
            *amount_in, *amount_out_min, path.clone(), *to, *deadline,
        ),
    }
}

#[test]
fn every_call_shape_round_trips_through_call_data() {
    let path = vec![addr(0xa1), addr(0xb2), addr(0xc3)];
    let recipient = addr(0x42);
    let deadline = U256::from(1_700_000_000u64);
    let fixed = U256::from(10).pow(U256::from(18));
    let limit = U256::MAX - U256::from(5);
    for kind in swap_kinds() {
        let action = QuickSwapAction::from_parts(kind, fixed, limit, path.clone(), recipient, deadline);
        let data = encode_action_call(&action);
        let value = if kind.value_is_input() {
            if kind.exact_out() { limit } else { fixed }
        } else {
            U256::zero()
        };
        let tx = tx_to(Some(quickswap_router_address()), value, data);
        let decoded = parse_quickswap_tx(&tx).expect("no schema error").expect("decodes");
        let (k, f, l, p, to, d) = parts(&decoded);
        assert_eq!(k, kind);
        assert_eq!(f, fixed);
        assert_eq!(l, limit);
        assert_eq!(p, path);
        assert_eq!(to, recipient);
        assert_eq!(d, deadline);
    }
}

#[test]
fn native_input_comes_from_the_transaction_value() {
    let path = vec![addr(1), addr(2)];
    let action = QuickSwapAction::SwapExactETHForTokens {
        amount_in: U256::from(999u64),
        amount_out_min: U256::from(5u64),
        path: path.clone(),
        to: addr(3),
        deadline: U256::from(77u64),
    };
    let data = encode_action_call(&action);
    let tx = tx_to(Some(quickswap_router_address()), U256::from(123_456u64), data);
    match parse_quickswap_tx(&tx) {
        Ok(Some(QuickSwapAction::SwapExactETHForTokens { amount_in, amount_out_min, .. })) => {
            assert_eq!(amount_in, U256::from(123_456u64));
            assert_eq!(amount_out_min, U256::from(5u64));
        }
        other => panic!("unexpected {:?}", other),
    }
}

#[test]
fn call_data_matches_ethers_encoding() {
    let path = vec![addr(0xa1), addr(0xb2)];
    let action = QuickSwapAction::SwapExactTokensForTokens {
        amount_in: U256::from(1000u64),
        amount_out_min: U256::from(900u64),
        path: path.clone(),
        to: addr(9),
        deadline: U256::from(5u64),
    };
    let data = encode_action_call(&action);
    assert_eq!(&data[..4], &[0x38, 0xed, 0x17, 0x39]);
    let mut expected = ethers::utils::id("swapExactTokensForTokens(uint256,uint256,address[],address,uint256)").to_vec();
    expected.extend(ethers::abi::encode(&[
        Token::Uint(U256::from(1000u64)),
        Token::Uint(U256::from(900u64)),
        Token::Array(path.iter().map(|a| Token::Address(*a)).collect()),
        Token::Address(addr(9)),
        Token::Uint(U256::from(5u64)),
    ]));
    assert_eq!(data, expected);
    assert_eq!(data.len(), 4 + 32 * 8);
}

#[test]
fn transaction_to_another_address_decodes_to_nothing() {
    let action = QuickSwapAction::SwapExactTokensForTokens {
        amount_in: U256::from(1u64),
        amount_out_min: U256::from(1u64),
        path: vec![addr(1), addr(2)],
        to: addr(3),
        deadline: U256::from(4u64),
    };
    let data = encode_action_call(&action);
    let tx = tx_to(Some(addr(0x99)), U256::zero(), data.clone());
    assert!(matches!(parse_quickswap_tx(&tx), Ok(None)));
    let registry = known_routers();
    assert!(matches!(registry.decode(&tx), Ok(None)));
    let creation = tx_to(None, U256::zero(), data);
    assert!(matches!(registry.decode(&creation), Ok(None)));
}

#[test]
fn short_call_data_decodes_to_nothing() {
    let tx = tx_to(Some(quickswap_router_address()), U256::zero(), vec![0x38, 0xed, 0x17]);
    assert!(matches!(parse_quickswap_tx(&tx), Ok(None)));
}

#[test]
fn unknown_selector_decodes_to_nothing() {
    let mut data = vec![0xde, 0xad, 0xbe, 0xef];
    data.extend(vec![0u8; 160]);
    let tx = tx_to(Some(quickswap_router_address()), U256::zero(), data);
    assert!(matches!(parse_quickswap_tx(&tx), Ok(None)));
}

#[test]
fn truncated_parameters_decode_to_nothing() {
    let tx = tx_to(Some(quickswap_router_address()), U256::zero(), vec![0x38, 0xed, 0x17, 0x39, 0, 0, 0]);
    assert!(matches!(parse_quickswap_tx(&tx), Ok(None)));
}

#[test]
fn path_of_one_token_is_skipped() {
    let action = QuickSwapAction::SwapExactTokensForTokens {
        amount_in: U256::from(1u64),
        amount_out_min: U256::from(1u64),
        path: vec![addr(1)],
        to: addr(3),
        deadline: U256::from(4u64),
    };
    let tx = tx_to(Some(quickswap_router_address()), U256::zero(), encode_action_call(&action));
    assert!(matches!(parse_quickswap_tx(&tx), Ok(None)));
}

#[test]
fn wrong_parameter_count_is_a_schema_inconsistency() {
    let tokens = vec![Token::Uint(U256::one()), Token::Uint(U256::one()), Token::Address(addr(1))];
    let r = action_from_tokens(SwapKind::SwapExactTokensForTokens, &tokens, U256::zero());
    assert!(matches!(r, Err(PipelineError::SchemaInconsistency)));
    assert!(PipelineError::SchemaInconsistency.is_fatal());
    assert!(!PipelineError::DecodeMismatch.is_fatal());
}

#[test]
fn wrong_parameter_type_is_skipped() {
    let tokens = vec![
        Token::Address(addr(1)),
        Token::Uint(U256::one()),
        Token::Array(vec![Token::Address(addr(1)), Token::Address(addr(2))]),
        Token::Address(addr(3)),
        Token::Uint(U256::one()),
    ];
    let r = action_from_tokens(SwapKind::SwapExactTokensForTokens, &tokens, U256::zero());
    assert!(matches!(r, Ok(None)));
    let tokens = vec![
        Token::Uint(U256::one()),
        Token::Uint(U256::one()),
        Token::Array(vec![Token::Address(addr(1)), Token::Uint(U256::one())]),
        Token::Address(addr(3)),
        Token::Uint(U256::one()),
    ];
    let r = action_from_tokens(SwapKind::SwapExactTokensForTokens, &tokens, U256::zero());
    assert!(matches!(r, Ok(None)));
}

#[test]
fn get_path_returns_the_hop_path() {
    let path = vec![addr(1), addr(2), addr(3)];
    let action = QuickSwapAction::SwapETHForExactTokens {
        amount_out: U256::from(1u64),
        path: path.clone(),
        to: addr(3),
        deadline: U256::from(4u64),
        amount_in_max: U256::from(5u64),
    };
    assert_eq!(action.get_path(), path);
}

#[test]
fn known_routers_are_swaps() {
    let registry = known_routers();
    assert_eq!(registry.routers.len(), 3);
    assert_eq!(registry.routers[0].name, "QuickSwap");
    assert_eq!(registry.routers[1].name, "SushiSwap");
    assert_eq!(registry.routers[2].name, "UniswapV3");
    for a in [quickswap_router_address(), sushiswap_router_address(), uniswap_v3_router_address()] {
        assert!(registry.is_swap_transaction(&tx_to(Some(a), U256::zero(), vec![])));
    }
    assert!(!registry.is_swap_transaction(&tx_to(Some(addr(5)), U256::zero(), vec![])));
    assert!(!registry.is_swap_transaction(&tx_to(None, U256::zero(), vec![])));
    let expected: H160 = "0xa5E0829CaCEd8fFDD4De3c43696c57F7D7A678ff".parse().unwrap();
    assert_eq!(quickswap_router_address(), expected);
    let expected: H160 = "0x1b02dA8Cb0d097eB8D57A175b88c7D8b47997506".parse().unwrap();
    assert_eq!(sushiswap_router_address(), expected);
    let expected: H160 = "0xE592427A0AEce92De3Edee1F18E0157C05861564".parse().unwrap();
    assert_eq!(uniswap_v3_router_address(), expected);
}

#[test]
fn selectors_are_keccak_digests_of_signatures() {
    let registry = known_routers();
    let entries = &registry.routers[0].selectors;
    assert_eq!(entries.len(), 9);
    assert_eq!(entries[0].selector, [0x38, 0xed, 0x17, 0x39]);
    assert_eq!(entries[2].selector, [0x7f, 0xf3, 0x6a, 0xb5]);
    assert_eq!(entries[5].selector, [0xfb, 0x3b, 0xdb, 0x41]);
}

#[test]
fn sushiswap_and_quickswap_build_the_same_swap_call() {
    let path = vec![addr(1), addr(2)];
    let q = QuickswapRouter::new().swap_exact_tokens_for_tokens(
        U256::from(10u64), U256::from(9u64), path.clone(), addr(4), U256::from(100u64),
    );
    let s = SushiswapRouter::new().swap_exact_tokens_for_tokens(
        U256::from(10u64), U256::from(9u64), path, addr(4), U256::from(100u64),
    );
    assert_eq!(q, s);
    assert_eq!(&q[..4], &[0x38, 0xed, 0x17, 0x39]);
}

#[test]
fn exact_input_single_encodes_a_static_tuple() {
    let router = UniswapV3Router::new();
    assert_eq!(router.address, uniswap_v3_router_address());
    let data = router.exact_input_single(ExactInputSingleParams {
        token_in: addr(1),
        token_out: addr(2),
        fee: 3000,
        recipient: addr(3),
        deadline: U256::from(10u64),
        amount_in: U256::from(20u64),
        amount_out_minimum: U256::from(30u64),
        sqrt_price_limit_x96: U256::zero(),
    });
    assert_eq!(&data[..4], &[0x41, 0x4b, 0xf3, 0x89]);
    assert_eq!(data.len(), 4 + 32 * 8);
    assert_eq!(U256::from_big_endian(&data[4 + 64..4 + 96]), U256::from(3000u64));
    assert_eq!(U256::from_big_endian(&data[4 + 160..4 + 192]), U256::from(20u64));
}

#[test]
fn required_decode_reports_a_mismatch() {
    let registry = known_routers();
    let tx = tx_to(Some(sushiswap_router_address()), U256::zero(), vec![0x38, 0xed, 0x17, 0x39]);
    assert!(matches!(registry.decode_required(&tx), Err(PipelineError::DecodeMismatch)));
    let action = QuickSwapAction::SwapTokensForExactETH {
        amount_out: U256::from(3u64),
        amount_in_max: U256::from(4u64),
        path: vec![addr(1), addr(2)],
        to: addr(5),
        deadline: U256::from(6u64),
    };
    let tx = tx_to(Some(quickswap_router_address()), U256::zero(), encode_action_call(&action));
    match registry.decode_required(&tx) {
        Ok(QuickSwapAction::SwapTokensForExactETH { amount_out, amount_in_max, .. }) => {
            assert_eq!(amount_out, U256::from(3u64));
            assert_eq!(amount_in_max, U256::from(4u64));
        }
        other => panic!("unexpected {:?}", other),
    }
}
