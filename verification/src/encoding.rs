//! The wire form of swap messages.
//!
//! Payloads travel as JSON, written by the encoder that the pair and token
//! contracts read with. This module names the text of each payload and turns
//! an instruction into the message that carries it.
//!
//! Encoding a swap message does not fail. The encoder returns an error only
//! where a value's own serializer raises one, and the values written here are
//! records of strings, of integers and decimals written as strings, of
//! base64 text and of options of these, whose serializers raise none.

use crate::asset::{Asset, AssetInfo, AssetView, Decimal};
use crate::error::ContractError;
use crate::msg::{
    Coin, SwapInstruction, SwapInstructionView, SwapParams, SwapParamsView, SwapPayload,
    SwapPayloadView, WasmExecute, WasmExecuteView,
};
use astroport::asset::{Asset as WireAsset, AssetInfo as WireAssetInfo};
use astroport::pair::{Cw20HookMsg, ExecuteMsg as PairExecuteMsg};
use cosmwasm_std::{to_binary, Addr, Binary, Decimal as WireDecimal, StdError, Uint128};
use cw20::Cw20ExecuteMsg;
use vstd::prelude::*;

verus! {

/// The JSON text of a pair contract's `Swap` execute message with this offer
/// and these parameters.
pub uninterp spec fn pair_swap_json(offer_asset: AssetView, params: SwapParamsView) -> Seq<u8>;

/// The JSON text of the `Swap` hook that a pair contract runs on receiving
/// tokens, with these parameters.
pub uninterp spec fn hook_swap_json(params: SwapParamsView) -> Seq<u8>;

/// The JSON text of a token contract's `Send` execute message that sends
/// `amount` to `contract` together with the bytes `msg`.
pub uninterp spec fn cw20_send_json(contract: Seq<char>, amount: u128, msg: Seq<u8>) -> Seq<u8>;

/// Encodes `astroport::pair::ExecuteMsg::Swap` with `cosmwasm_std::to_binary`.
///
/// The fields are those of `offer_asset` and `params`, each in the encoder's
/// own type. Two things are claimed of the call: it succeeds, since no
/// serializer that the message reaches raises an error, and the bytes that
/// come back depend on these values alone.
#[allow(deprecated)]
#[verifier::external_body]
fn encode_pair_swap(offer_asset: &Asset, params: &SwapParams) -> (r: Result<Vec<u8>, StdError>)
    ensures
        r is Ok,
        r matches Ok(bytes) ==> bytes@ == pair_swap_json(offer_asset@, params@),
{
    let info = |i: &AssetInfo| match i {
        AssetInfo::Token { contract_addr } => WireAssetInfo::Token { contract_addr: Addr::unchecked(contract_addr) },
        AssetInfo::NativeToken { denom } => WireAssetInfo::NativeToken { denom: denom.clone() },
    };
    let decimal = |d: Decimal| WireDecimal::raw(d.atomics);
    to_binary(&PairExecuteMsg::Swap {
        offer_asset: WireAsset { info: info(&offer_asset.info), amount: Uint128::new(offer_asset.amount) },
        ask_asset_info: params.ask_asset_info.as_ref().map(info),
        belief_price: params.belief_price.map(decimal),
        max_spread: params.max_spread.map(decimal),
        to: params.to.clone(),
    }).map(|binary| binary.0)
}

/// Encodes `astroport::pair::Cw20HookMsg::Swap` with `cosmwasm_std::to_binary`.
///
/// The fields are those of `params`, each in the encoder's own type. Two
/// things are claimed of the call: it succeeds, since no serializer that the
/// message reaches raises an error, and the bytes that come back depend on
/// these values alone.
#[allow(deprecated)]
#[verifier::external_body]
fn encode_hook_swap(params: &SwapParams) -> (r: Result<Vec<u8>, StdError>)
    ensures
        r is Ok,
        r matches Ok(bytes) ==> bytes@ == hook_swap_json(params@),
{
    let info = |i: &AssetInfo| match i {
        AssetInfo::Token { contract_addr } => WireAssetInfo::Token { contract_addr: Addr::unchecked(contract_addr) },
        AssetInfo::NativeToken { denom } => WireAssetInfo::NativeToken { denom: denom.clone() },
    };
    let decimal = |d: Decimal| WireDecimal::raw(d.atomics);
    to_binary(&Cw20HookMsg::Swap {
        ask_asset_info: params.ask_asset_info.as_ref().map(info),
        belief_price: params.belief_price.map(decimal),
        max_spread: params.max_spread.map(decimal),
        to: params.to.clone(),
    }).map(|binary| binary.0)
}

/// Encodes `cw20::Cw20ExecuteMsg::Send` with `cosmwasm_std::to_binary`.
///
/// `msg` is carried as the message's binary field. Two things are claimed of
/// the call: it succeeds, since no serializer that the message reaches raises
/// an error, and the bytes that come back depend on the three values alone.
#[allow(deprecated)]
#[verifier::external_body]
fn encode_cw20_send(
    contract: &String,
    amount: u128,
    msg: Vec<u8>,
) -> (r: Result<Vec<u8>, StdError>)
    ensures
        r is Ok,
        r matches Ok(bytes) ==> bytes@ == cw20_send_json(contract@, amount, msg@),
{
    to_binary(&Cw20ExecuteMsg::Send {
        contract: contract.clone(),
        amount: Uint128::new(amount),
        msg: Binary(msg),
    }).map(|binary| binary.0)
}

/// The bytes that carry `payload`. A send carries its hook as bytes of their
/// own inside the outer message.
pub open spec fn spec_payload_bytes(payload: SwapPayloadView) -> Seq<u8> {
    match payload {
        SwapPayloadView::Swap { offer_asset, params } => pair_swap_json(offer_asset, params),
        SwapPayloadView::Send { contract, amount, hook } => cw20_send_json(
            contract,
            amount,
            hook_swap_json(hook),
        ),
    }
}

/// The message that carries `instruction`: the same contract and funds, the
/// payload as bytes.
pub open spec fn spec_encoded(instruction: SwapInstructionView) -> WasmExecuteView {
    WasmExecuteView {
        contract_addr: instruction.contract_addr,
        msg: spec_payload_bytes(instruction.payload),
        funds: instruction.funds,
    }
}

/// Encodes a payload, which always succeeds. The hook of a send is encoded
/// first and travels inside the send as bytes.
pub fn encode_payload(payload: &SwapPayload) -> (r: Result<Vec<u8>, StdError>)
    ensures
        r matches Ok(bytes) && bytes@ == spec_payload_bytes(payload@),
{
    match payload {
        SwapPayload::Swap { offer_asset, params } => encode_pair_swap(offer_asset, params),
        SwapPayload::Send { contract, amount, hook } => match encode_hook_swap(hook) {
            Ok(hook_bytes) => encode_cw20_send(contract, *amount, hook_bytes),
            Err(e) => Err(e),
        },
    }
}

/// Makes the execute message for `contract_addr` out of what the encoder
/// returned for its payload: the message with those bytes, or the encoder's
/// error as a serialization failure.
pub fn execute_msg_from(
    contract_addr: String,
    funds: Vec<Coin>,
    payload: Result<Vec<u8>, StdError>,
) -> (r: Result<WasmExecute, ContractError>)
    ensures
        match payload {
            Ok(bytes) => r matches Ok(message) && message@ == (WasmExecuteView {
                contract_addr: contract_addr@,
                msg: bytes@,
                funds: funds.deep_view(),
            }),
            Err(e) => r == Err::<WasmExecute, _>(ContractError::SerializationFailure(e)),
        },
{
    match payload {
        Ok(msg) => Ok(WasmExecute { contract_addr, msg, funds }),
        Err(e) => Err(ContractError::SerializationFailure(e)),
    }
}

/// Encodes an instruction into the message that carries it, which always
/// succeeds. The contract and the funds are kept.
pub fn encode_instruction(instruction: SwapInstruction) -> (r: Result<WasmExecute, ContractError>)
    ensures
        r matches Ok(message) && message@ == spec_encoded(instruction@),
{
    let payload = encode_payload(&instruction.payload);
    execute_msg_from(instruction.contract_addr, instruction.funds, payload)
}

} // verus!
