use astroport::asset::{Asset as WireAsset, AssetInfo as WireAssetInfo};
use astroport::pair::{Cw20HookMsg, ExecuteMsg as PairExecuteMsg};
use cosmwasm_std::{from_slice, Addr, Binary, StdError, Uint128};
use cw20::Cw20ExecuteMsg;
use swap_router::asset::{Asset, AssetInfo, Decimal};
use swap_router::encoding::{encode_instruction, encode_payload, execute_msg_from};
use swap_router::error::ContractError;
use swap_router::msg::{Coin, SwapParams, SwapPayload, WasmExecute};
use swap_router::operations::build_swap_instruction;

fn native(denom: &str) -> AssetInfo {
    AssetInfo::NativeToken { denom: denom.to_string() }
}

fn token(addr: &str) -> AssetInfo {
    AssetInfo::Token { contract_addr: addr.to_string() }
}

#[test]
fn native_hop_encodes_a_pair_swap() {
    let instruction = build_swap_instruction(
        "pair_contract".to_string(),
        Asset { info: native("uusd"), amount: 1000 },
        5,
        token("pair_token"),
        None,
        None,
        false,
    )
    .unwrap();
    let message = encode_instruction(instruction).unwrap();
    assert_eq!(message.contract_addr, "pair_contract");
    assert_eq!(message.funds, vec![Coin { denom: "uusd".to_string(), amount: 995 }]);
    let payload: PairExecuteMsg = from_slice(&message.msg).unwrap();
    assert_eq!(
        payload,
        PairExecuteMsg::Swap {
            offer_asset: WireAsset {
                info: WireAssetInfo::NativeToken { denom: "uusd".to_string() },
                amount: Uint128::new(995),
            },
            ask_asset_info: Some(WireAssetInfo::Token {
                contract_addr: Addr::unchecked("pair_token"),
            }),
            belief_price: Some(cosmwasm_std::Decimal::MAX),
            max_spread: None,
            to: None,
        }
    );
}

#[test]
fn token_leg_encodes_a_send_with_a_swap_hook() {
    let instruction = build_swap_instruction(
        "pair_contract".to_string(),
        Asset { info: token("tokA"), amount: 500 },
        0,
        native("uluna"),
        Some(Decimal::raw(10_000_000_000_000_000)),
        None,
        true,
    )
    .unwrap();
    let message = encode_instruction(instruction).unwrap();
    assert_eq!(message.contract_addr, "tokA");
    assert!(message.funds.is_empty());
    let payload: Cw20ExecuteMsg = from_slice(&message.msg).unwrap();
    match payload {
        Cw20ExecuteMsg::Send { contract, amount, msg } => {
            assert_eq!(contract, "pair_contract");
            assert_eq!(amount, Uint128::new(500));
            let hook: Cw20HookMsg = from_slice(msg.as_slice()).unwrap();
            assert_eq!(
                hook,
                Cw20HookMsg::Swap {
                    ask_asset_info: Some(WireAssetInfo::NativeToken { denom: "uluna".to_string() }),
                    belief_price: None,
                    max_spread: Some(cosmwasm_std::Decimal::percent(1)),
                    to: None,
                }
            );
        }
        other => panic!("unexpected payload {:?}", other),
    }
}

#[test]
fn pair_swap_payload_is_the_encoders_json() {
    let payload = SwapPayload::Swap {
        offer_asset: Asset { info: native("uusd"), amount: 995 },
        params: SwapParams {
            ask_asset_info: Some(token("pair_token")),
            belief_price: Some(Decimal::raw(1_500_000_000_000_000_000)),
            max_spread: Some(Decimal::raw(10_000_000_000_000_000)),
            to: Some("carol".to_string()),
        },
    };
    let bytes = encode_payload(&payload).unwrap();
    let text = String::from_utf8(bytes).unwrap();
    assert_eq!(
        text,
        "{\"swap\":{\"offer_asset\":{\"info\":{\"native_token\":{\"denom\":\"uusd\"}},\"amount\":\"995\"},\"ask_asset_info\":{\"token\":{\"contract_addr\":\"pair_token\"}},\"belief_price\":\"1.5\",\"max_spread\":\"0.01\",\"to\":\"carol\"}}"
    );
}

#[test]
fn send_payload_carries_the_hook_as_binary() {
    let payload = SwapPayload::Send {
        contract: "pair_contract".to_string(),
        amount: 500,
        hook: SwapParams {
            ask_asset_info: Some(native("uluna")),
            belief_price: None,
            max_spread: None,
            to: None,
        },
    };
    let bytes = encode_payload(&payload).unwrap();
    let hook_text = "{\"swap\":{\"ask_asset_info\":{\"native_token\":{\"denom\":\"uluna\"}},\"belief_price\":null,\"max_spread\":null,\"to\":null}}";
    let expected = format!(
        "{{\"send\":{{\"contract\":\"pair_contract\",\"amount\":\"500\",\"msg\":\"{}\"}}}}",
        Binary::from(hook_text.as_bytes()).to_base64()
    );
    assert_eq!(String::from_utf8(bytes).unwrap(), expected);
}

#[test]
fn execute_msg_keeps_contract_funds_and_bytes() {
    let funds = vec![Coin { denom: "uusd".to_string(), amount: 7 }];
    let message = execute_msg_from("pair".to_string(), funds, Ok(vec![1, 2, 3])).unwrap();
    assert_eq!(
        message,
        WasmExecute {
            contract_addr: "pair".to_string(),
            msg: vec![1, 2, 3],
            funds: vec![Coin { denom: "uusd".to_string(), amount: 7 }],
        }
    );
}

#[test]
fn encoder_error_is_a_serialization_failure() {
    let r = execute_msg_from("pair".to_string(), vec![], Err(StdError::generic_err("no json")));
    assert_eq!(r, Err(ContractError::SerializationFailure(StdError::generic_err("no json"))));
}

#[test]
fn encoding_succeeds_on_awkward_values() {
    let texts = ["", "\"quoted\"", "back\\slash", "line\nbreak\ttab\u{0}\u{1f}", "ünïcödé \u{1F600}"];
    let decimals = [None, Some(Decimal::raw(0)), Some(Decimal::raw(1)), Some(Decimal::max())];
    for text in texts {
        for price in decimals {
            for amount in [0u128, 1, u128::MAX] {
                let params = || SwapParams {
                    ask_asset_info: Some(token(text)),
                    belief_price: price,
                    max_spread: price,
                    to: Some(text.to_string()),
                };
                let swap = SwapPayload::Swap {
                    offer_asset: Asset { info: native(text), amount },
                    params: params(),
                };
                let bytes = encode_payload(&swap).unwrap();
                let decoded: PairExecuteMsg = from_slice(&bytes).unwrap();
                assert_eq!(
                    decoded,
                    PairExecuteMsg::Swap {
                        offer_asset: WireAsset {
                            info: WireAssetInfo::NativeToken { denom: text.to_string() },
                            amount: Uint128::new(amount),
                        },
                        ask_asset_info: Some(WireAssetInfo::Token {
                            contract_addr: Addr::unchecked(text),
                        }),
                        belief_price: price.map(|d| cosmwasm_std::Decimal::raw(d.atomics)),
                        max_spread: price.map(|d| cosmwasm_std::Decimal::raw(d.atomics)),
                        to: Some(text.to_string()),
                    }
                );

                let send = SwapPayload::Send {
                    contract: text.to_string(),
                    amount,
                    hook: SwapParams { ask_asset_info: None, ..params() },
                };
                let bytes = encode_payload(&send).unwrap();
                match from_slice::<Cw20ExecuteMsg>(&bytes).unwrap() {
                    Cw20ExecuteMsg::Send { contract, amount: sent, msg } => {
                        assert_eq!(contract, text);
                        assert_eq!(sent, Uint128::new(amount));
                        let hook: Cw20HookMsg = from_slice(msg.as_slice()).unwrap();
                        assert_eq!(
                            hook,
                            Cw20HookMsg::Swap {
                                ask_asset_info: None,
                                belief_price: price.map(|d| cosmwasm_std::Decimal::raw(d.atomics)),
                                max_spread: price.map(|d| cosmwasm_std::Decimal::raw(d.atomics)),
                                to: Some(text.to_string()),
                            }
                        );
                    }
                    other => panic!("unexpected payload {:?}", other),
                }
            }
        }
    }
}
