//! Swap operations and the messages that the router emits for them.

use crate::asset::{Asset, AssetInfo, AssetInfoView, AssetView, Decimal};
use vstd::prelude::*;

verus! {

/// One leg of a route.
#[derive(Debug, PartialEq, Eq)]
pub enum SwapOperation {
    /// A swap between two native coins outside the pair protocol. The router
    /// rejects it.
    NativeSwap { offer_denom: String, ask_denom: String },
    /// A swap through the pair contract of the two assets.
    AstroSwap { offer_asset_info: AssetInfo, ask_asset_info: AssetInfo },
}

/// The mathematical value of a [`SwapOperation`].
pub enum SwapOperationView {
    NativeSwap { offer_denom: Seq<char>, ask_denom: Seq<char> },
    AstroSwap { offer_asset_info: AssetInfoView, ask_asset_info: AssetInfoView },
}

impl View for SwapOperation {
    type V = SwapOperationView;

    open spec fn view(&self) -> SwapOperationView {
        match *self {
            SwapOperation::NativeSwap { offer_denom, ask_denom } => SwapOperationView::NativeSwap {
                offer_denom: offer_denom@,
                ask_denom: ask_denom@,
            },
            SwapOperation::AstroSwap {
                offer_asset_info,
                ask_asset_info,
            } => SwapOperationView::AstroSwap {
                offer_asset_info: offer_asset_info@,
                ask_asset_info: ask_asset_info@,
            },
        }
    }
}

/// An amount of a native coin.
#[derive(Debug, PartialEq, Eq)]
pub struct Coin {
    pub denom: String,
    pub amount: u128,
}

/// The mathematical value of a [`Coin`].
pub struct CoinView {
    pub denom: Seq<char>,
    pub amount: u128,
}

impl View for Coin {
    type V = CoinView;

    open spec fn view(&self) -> CoinView {
        CoinView { denom: self.denom@, amount: self.amount }
    }
}

impl DeepView for Coin {
    type V = CoinView;

    open spec fn deep_view(&self) -> CoinView {
        self@
    }
}

/// The parameters of a swap that a pair contract reads besides the offer.
#[derive(Debug, PartialEq, Eq)]
pub struct SwapParams {
    /// The asset wanted in return.
    pub ask_asset_info: Option<AssetInfo>,
    /// The price the pair holds the trade against. `None` leaves the pair to
    /// its own price.
    pub belief_price: Option<Decimal>,
    /// The largest spread the caller accepts.
    pub max_spread: Option<Decimal>,
    /// Who receives the proceeds. `None` is the sender of the message.
    pub to: Option<String>,
}

/// The mathematical value of [`SwapParams`].
pub struct SwapParamsView {
    pub ask_asset_info: Option<AssetInfoView>,
    pub belief_price: Option<Decimal>,
    pub max_spread: Option<Decimal>,
    pub to: Option<Seq<char>>,
}

impl View for SwapParams {
    type V = SwapParamsView;

    open spec fn view(&self) -> SwapParamsView {
        SwapParamsView {
            ask_asset_info: self.ask_asset_info.deep_view(),
            belief_price: self.belief_price,
            max_spread: self.max_spread,
            to: self.to.deep_view(),
        }
    }
}

/// What a swap message asks of the contract it is sent to.
#[derive(Debug, PartialEq, Eq)]
pub enum SwapPayload {
    /// Asks a pair contract to swap the offer, which travels with the message
    /// as funds.
    Swap { offer_asset: Asset, params: SwapParams },
    /// Asks a token contract to send `amount` to the pair contract `contract`
    /// and to hand it `hook`, the swap to perform on receipt.
    Send { contract: String, amount: u128, hook: SwapParams },
}

/// The mathematical value of a [`SwapPayload`].
pub enum SwapPayloadView {
    Swap { offer_asset: AssetView, params: SwapParamsView },
    Send { contract: Seq<char>, amount: u128, hook: SwapParamsView },
}

impl SwapPayloadView {
    /// The swap parameters that the payload carries, as the pair contract
    /// will read them.
    pub open spec fn params(self) -> SwapParamsView {
        match self {
            SwapPayloadView::Swap { params, .. } => params,
            SwapPayloadView::Send { hook, .. } => hook,
        }
    }
}

impl View for SwapPayload {
    type V = SwapPayloadView;

    open spec fn view(&self) -> SwapPayloadView {
        match *self {
            SwapPayload::Swap { offer_asset, params } => SwapPayloadView::Swap {
                offer_asset: offer_asset@,
                params: params@,
            },
            SwapPayload::Send { contract, amount, hook } => SwapPayloadView::Send {
                contract: contract@,
                amount,
                hook: hook@,
            },
        }
    }
}

/// The one instruction that a swap leg emits, before its payload is encoded.
#[derive(Debug, PartialEq, Eq)]
pub struct SwapInstruction {
    /// The contract to execute.
    pub contract_addr: String,
    /// The native coins that travel with the message.
    pub funds: Vec<Coin>,
    /// What is asked of the contract.
    pub payload: SwapPayload,
}

/// The mathematical value of a [`SwapInstruction`].
pub struct SwapInstructionView {
    pub contract_addr: Seq<char>,
    pub funds: Seq<CoinView>,
    pub payload: SwapPayloadView,
}

impl SwapInstructionView {
    /// Whether the instruction settles a native offer: it asks for a swap of
    /// a native coin and carries exactly that coin, in that amount, as funds.
    pub open spec fn is_native_settlement(self) -> bool {
        &&& self.payload matches SwapPayloadView::Swap { offer_asset, .. }
        &&& offer_asset.info matches AssetInfoView::NativeToken { denom }
        &&& self.funds == seq![CoinView { denom, amount: offer_asset.amount }]
    }

    /// Whether the instruction settles a token offer: it asks a token
    /// contract to send tokens along with a swap hook, and carries no funds.
    pub open spec fn is_token_settlement(self) -> bool {
        &&& self.payload is Send
        &&& self.funds == Seq::<CoinView>::empty()
    }
}

impl View for SwapInstruction {
    type V = SwapInstructionView;

    open spec fn view(&self) -> SwapInstructionView {
        SwapInstructionView {
            contract_addr: self.contract_addr@,
            funds: self.funds.deep_view(),
            payload: self.payload@,
        }
    }
}

/// A message that executes a contract, with its payload encoded.
#[derive(Debug, PartialEq, Eq)]
pub struct WasmExecute {
    /// The contract to execute.
    pub contract_addr: String,
    /// The encoded payload.
    pub msg: Vec<u8>,
    /// The native coins that travel with the message.
    pub funds: Vec<Coin>,
}

/// The mathematical value of a [`WasmExecute`].
pub struct WasmExecuteView {
    pub contract_addr: Seq<char>,
    pub msg: Seq<u8>,
    pub funds: Seq<CoinView>,
}

impl View for WasmExecute {
    type V = WasmExecuteView;

    open spec fn view(&self) -> WasmExecuteView {
        WasmExecuteView {
            contract_addr: self.contract_addr@,
            msg: self.msg@,
            funds: self.funds.deep_view(),
        }
    }
}

impl DeepView for WasmExecute {
    type V = WasmExecuteView;

    open spec fn deep_view(&self) -> WasmExecuteView {
        self@
    }
}

/// What a swap leg hands back to the chain: the messages to dispatch next.
#[derive(Debug, PartialEq, Eq)]
pub struct Response {
    pub messages: Vec<WasmExecute>,
}

impl View for Response {
    type V = Seq<WasmExecuteView>;

    open spec fn view(&self) -> Seq<WasmExecuteView> {
        self.messages.deep_view()
    }
}

} // verus!
