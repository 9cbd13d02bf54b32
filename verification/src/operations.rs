//! One swap leg: who may run it, and the instruction it emits.

use crate::asset::{Asset, AssetInfo, AssetInfoView, AssetView, Decimal};
use crate::context::{Config, Env, MessageInfo};
use crate::encoding::{
    cw20_send_json, encode_instruction, hook_swap_json, pair_swap_json, spec_encoded,
};
use crate::error::ContractError;
use crate::msg::{
    Coin, CoinView, Response, SwapInstruction, SwapInstructionView, SwapOperation,
    SwapOperationView, SwapParams, SwapParamsView, SwapPayload, SwapPayloadView, WasmExecute,
};
use crate::querier::{
    compute_tax, query_balance, query_pair_contract, query_token_balance, BalanceQuery,
    BalanceQueryView, ChainQuerier, PairQuery, PairQueryView,
};
use cosmwasm_std::StdError;
use vstd::prelude::*;

verus! {

/// The assets of a leg that may run: the caller is the router itself and the
/// operation goes through the pair protocol. A foreign caller is refused
/// before the operation is looked at.
pub open spec fn spec_leg_assets(
    contract_address: Seq<char>,
    sender: Seq<char>,
    operation: SwapOperationView,
) -> Result<(AssetInfoView, AssetInfoView), ContractError> {
    if sender != contract_address {
        Err(ContractError::Unauthorized)
    } else {
        match operation {
            SwapOperationView::NativeSwap { .. } => Err(ContractError::NativeSwapNotSupported),
            SwapOperationView::AstroSwap { offer_asset_info, ask_asset_info } => Ok(
                (offer_asset_info, ask_asset_info),
            ),
        }
    }
}

/// Admits a leg and returns its offer and ask assets, in this order.
///
/// Only the router itself may run a leg: any other caller is refused with
/// `Unauthorized`, whatever the operation. Of the router's own calls, a native
/// swap is refused with `NativeSwapNotSupported`.
pub fn authorize_swap_leg(
    env: &Env,
    info: &MessageInfo,
    operation: SwapOperation,
) -> (r: Result<(AssetInfo, AssetInfo), ContractError>)
    ensures
        match r {
            Ok((offer, ask)) => spec_leg_assets(env.contract_address@, info.sender@, operation@)
                == Ok::<_, ContractError>((offer@, ask@)),
            Err(e) => spec_leg_assets(env.contract_address@, info.sender@, operation@) == Err::<
                (AssetInfoView, AssetInfoView),
                _,
            >(e),
        },
        info.sender@ != env.contract_address@ <==> r == Err::<(AssetInfo, AssetInfo), _>(
            ContractError::Unauthorized,
        ),
        info.sender@ == env.contract_address@ && operation@ is NativeSwap <==> r == Err::<
            (AssetInfo, AssetInfo),
            _,
        >(ContractError::NativeSwapNotSupported),
        info.sender@ == env.contract_address@ && operation@ is AstroSwap <==> r is Ok,
{
    if env.contract_address != info.sender {
        return Err(ContractError::Unauthorized);
    }
    match operation {
        SwapOperation::AstroSwap { offer_asset_info, ask_asset_info } => Ok(
            (offer_asset_info, ask_asset_info),
        ),
        SwapOperation::NativeSwap { .. } => Err(ContractError::NativeSwapNotSupported),
    }
}

/// The query that resolves the pair of a leg: the two assets of the leg, put
/// to the factory of the router's configuration.
pub open spec fn spec_pair_query(
    factory: Seq<char>,
    offer_asset_info: AssetInfoView,
    ask_asset_info: AssetInfoView,
) -> PairQueryView {
    PairQueryView { factory, offer_asset_info, ask_asset_info }
}

/// Makes the query that resolves the pair of a leg.
pub fn pair_query(
    config: &Config,
    offer_asset_info: &AssetInfo,
    ask_asset_info: &AssetInfo,
) -> (q: PairQuery)
    ensures
        q@ == spec_pair_query(config.astroport_factory@, offer_asset_info@, ask_asset_info@),
{
    PairQuery {
        factory: config.astroport_factory.clone(),
        offer_asset_info: offer_asset_info.clone(),
        ask_asset_info: ask_asset_info.clone(),
    }
}

/// The query for the amount that a leg offers: the router's own balance of
/// the offer asset. A caller of a route cannot know what the hop before paid
/// out, so each hop offers all that the router holds.
pub open spec fn spec_offer_balance_query(
    contract_address: Seq<char>,
    offer_asset_info: AssetInfoView,
) -> BalanceQueryView {
    match offer_asset_info {
        AssetInfoView::NativeToken { denom } => BalanceQueryView::Native {
            account: contract_address,
            denom,
        },
        AssetInfoView::Token { contract_addr } => BalanceQueryView::Token {
            contract_addr,
            account: contract_address,
        },
    }
}

/// Makes the query for the amount that a leg offers.
pub fn offer_balance_query(env: &Env, offer_asset_info: &AssetInfo) -> (q: BalanceQuery)
    ensures
        q@ == spec_offer_balance_query(env.contract_address@, offer_asset_info@),
{
    match offer_asset_info {
        AssetInfo::NativeToken { denom } => BalanceQuery::Native {
            account: env.contract_address.clone(),
            denom: denom.clone(),
        },
        AssetInfo::Token { contract_addr } => BalanceQuery::Token {
            contract_addr: contract_addr.clone(),
            account: env.contract_address.clone(),
        },
    }
}

/// What the tax query is put on: the whole offer where it is a native coin.
/// A token offer is exempt, and no query is put for it.
pub open spec fn spec_taxed_coin(offer_asset: AssetView) -> Option<CoinView> {
    match offer_asset.info {
        AssetInfoView::NativeToken { denom } => Some(
            CoinView { denom, amount: offer_asset.amount },
        ),
        AssetInfoView::Token { .. } => None,
    }
}

/// Gives the coin that the tax query is put on, if the offer is taxed at all.
pub fn taxed_coin(offer_asset: &Asset) -> (r: Option<Coin>)
    ensures
        r.deep_view() == spec_taxed_coin(offer_asset@),
{
    match &offer_asset.info {
        AssetInfo::NativeToken { denom } => Some(
            Coin { denom: denom.clone(), amount: offer_asset.amount },
        ),
        AssetInfo::Token { .. } => None,
    }
}

/// The reference price of a leg. A route of one leg sets none, and the pair
/// holds the trade against its own price. A hop of a longer route sets the
/// largest decimal, under which the pair's price check always passes: only
/// the outcome of the whole route is held against a minimum.
pub open spec fn spec_belief_price(single: bool) -> Option<Decimal> {
    if single {
        None
    } else {
        Some(Decimal::spec_max())
    }
}

/// The swap parameters of a leg. The spread limit and the recipient are the
/// caller's, unchanged.
pub open spec fn spec_swap_params(
    ask_asset_info: AssetInfoView,
    max_spread: Option<Decimal>,
    to: Option<Seq<char>>,
    single: bool,
) -> SwapParamsView {
    SwapParamsView {
        ask_asset_info: Some(ask_asset_info),
        belief_price: spec_belief_price(single),
        max_spread,
        to,
    }
}

/// The instruction that swaps `offer_asset` at `pair_contract`, where `tax` is
/// what the chain takes of a native offer in transfer.
///
/// A native offer is executed at the pair contract itself, with the offer less
/// the tax as funds and as the offer named in the swap; a tax above the amount
/// is an underflow. A token offer is executed at the token contract: it sends
/// the whole amount to the pair contract, with the swap as the hook to run on
/// receipt and no funds, and no tax is taken.
pub open spec fn spec_swap_instruction(
    pair_contract: Seq<char>,
    offer_asset: AssetView,
    tax: u128,
    ask_asset_info: AssetInfoView,
    max_spread: Option<Decimal>,
    to: Option<Seq<char>>,
    single: bool,
) -> Result<SwapInstructionView, ContractError> {
    let params = spec_swap_params(ask_asset_info, max_spread, to, single);
    match offer_asset.info {
        AssetInfoView::NativeToken { denom } => {
            if tax > offer_asset.amount {
                Err(ContractError::ArithmeticUnderflow { amount: offer_asset.amount, tax })
            } else {
                let amount = (offer_asset.amount - tax) as u128;
                Ok(
                    SwapInstructionView {
                        contract_addr: pair_contract,
                        funds: seq![CoinView { denom, amount }],
                        payload: SwapPayloadView::Swap {
                            offer_asset: AssetView { info: offer_asset.info, amount },
                            params,
                        },
                    },
                )
            }
        },
        AssetInfoView::Token { contract_addr } => Ok(
            SwapInstructionView {
                contract_addr,
                funds: seq![],
                payload: SwapPayloadView::Send {
                    contract: pair_contract,
                    amount: offer_asset.amount,
                    hook: params,
                },
            },
        ),
    }
}

/// Builds the instruction that swaps `offer_asset` for `ask_asset_info` at
/// `pair_contract`.
///
/// `tax` is the transfer tax on the offer, as the chain computed it; it is
/// read for a native offer only. `single` says whether the leg is the whole
/// route.
pub fn build_swap_instruction(
    pair_contract: String,
    offer_asset: Asset,
    tax: u128,
    ask_asset_info: AssetInfo,
    max_spread: Option<Decimal>,
    to: Option<String>,
    single: bool,
) -> (r: Result<SwapInstruction, ContractError>)
    ensures
        match r {
            Ok(instruction) => spec_swap_instruction(
                pair_contract@,
                offer_asset@,
                tax,
                ask_asset_info@,
                max_spread,
                to.deep_view(),
                single,
            ) == Ok::<_, ContractError>(instruction@),
            Err(e) => spec_swap_instruction(
                pair_contract@,
                offer_asset@,
                tax,
                ask_asset_info@,
                max_spread,
                to.deep_view(),
                single,
            ) == Err::<SwapInstructionView, _>(e),
        },
        r matches Ok(instruction) ==> {
            let params = instruction@.payload.params();
            &&& params.belief_price == spec_belief_price(single)
            &&& params.max_spread == max_spread
            &&& params.to == to.deep_view()
            &&& params.ask_asset_info == Some(ask_asset_info@)
        },
        offer_asset@.info matches AssetInfoView::NativeToken { denom } ==> {
            if tax <= offer_asset.amount {
                &&& r matches Ok(instruction)
                &&& instruction@.is_native_settlement()
                &&& instruction@.contract_addr == pair_contract@
                &&& instruction@.funds == seq![
                    CoinView { denom, amount: (offer_asset.amount - tax) as u128 },
                ]
                &&& instruction@.payload matches SwapPayloadView::Swap { offer_asset: offered, .. }
                &&& offered.info == offer_asset@.info
                &&& offered.amount == offer_asset.amount - tax
            } else {
                r == Err::<SwapInstruction, _>(
                    ContractError::ArithmeticUnderflow { amount: offer_asset.amount, tax },
                )
            }
        },
        offer_asset@.info matches AssetInfoView::Token { contract_addr } ==> {
            &&& r matches Ok(instruction)
            &&& instruction@.is_token_settlement()
            &&& instruction@.contract_addr == contract_addr
            &&& instruction@.funds == Seq::<CoinView>::empty()
            &&& instruction@.payload matches SwapPayloadView::Send { contract, amount, .. }
            &&& contract == pair_contract@
            &&& amount == offer_asset.amount
        },
{
    let belief_price = if single {
        None
    } else {
        Some(Decimal::max())
    };
    let params = SwapParams { ask_asset_info: Some(ask_asset_info), belief_price, max_spread, to };
    let Asset { info, amount } = offer_asset;
    match info {
        AssetInfo::NativeToken { denom } => {
            match amount.checked_sub(tax) {
                None => Err(ContractError::ArithmeticUnderflow { amount, tax }),
                Some(net) => {
                    let funds = vec![Coin { denom: denom.clone(), amount: net }];
                    let instruction = SwapInstruction {
                        contract_addr: pair_contract,
                        funds,
                        payload: SwapPayload::Swap {
                            offer_asset: Asset { info: AssetInfo::NativeToken { denom }, amount: net },
                            params,
                        },
                    };
                    assert(instruction@.funds =~= seq![CoinView { denom: denom@, amount: net }]);
                    Ok(instruction)
                },
            }
        },
        AssetInfo::Token { contract_addr } => {
            let instruction = SwapInstruction {
                contract_addr,
                funds: Vec::new(),
                payload: SwapPayload::Send { contract: pair_contract, amount, hook: params },
            };
            assert(instruction@.funds =~= Seq::<CoinView>::empty());
            Ok(instruction)
        },
    }
}

/// The instruction for an offer, given what the tax query returned. The query
/// is put for a native offer only; a token offer is tax-exempt and its
/// instruction does not depend on `tax`.
pub open spec fn spec_taxed_instruction(
    pair_contract: Seq<char>,
    offer_asset: AssetView,
    tax: Result<u128, StdError>,
    ask_asset_info: AssetInfoView,
    max_spread: Option<Decimal>,
    to: Option<Seq<char>>,
    single: bool,
) -> Result<SwapInstructionView, ContractError> {
    match offer_asset.info {
        AssetInfoView::NativeToken { .. } => match tax {
            Ok(tax) => spec_swap_instruction(
                pair_contract,
                offer_asset,
                tax,
                ask_asset_info,
                max_spread,
                to,
                single,
            ),
            Err(e) => Err(ContractError::QueryFailed(e)),
        },
        AssetInfoView::Token { .. } => spec_swap_instruction(
            pair_contract,
            offer_asset,
            0,
            ask_asset_info,
            max_spread,
            to,
            single,
        ),
    }
}

/// Whether `r` is what the router returns for the planned instruction: the
/// instruction's message, or the plan's own error.
pub open spec fn emitted(
    r: Result<WasmExecute, ContractError>,
    planned: Result<SwapInstructionView, ContractError>,
) -> bool {
    match r {
        Ok(message) => planned matches Ok(instruction) && message@ == spec_encoded(instruction),
        Err(e) => planned == Err::<SwapInstructionView, _>(e),
    }
}

/// Creates the message that swaps `offer_asset` for `ask_asset_info` at
/// `pair_contract`.
///
/// The transfer tax on a native offer is asked of the chain and deducted; a
/// token offer is sent whole, without a query. `max_spread` and `to` are
/// handed on unchanged. `single` says whether the leg is the whole route: if
/// it is not, the pair's price check is switched off for this hop.
///
/// The message is the encoding of the instruction that
/// [`spec_taxed_instruction`] gives for whatever the tax query returned. A
/// token offer always comes to a message; a native offer fails only where
/// the tax query fails or the tax exceeds the amount.
pub fn asset_into_swap_msg(
    querier: &ChainQuerier,
    pair_contract: String,
    offer_asset: Asset,
    ask_asset_info: AssetInfo,
    max_spread: Option<Decimal>,
    to: Option<String>,
    single: bool,
) -> (r: Result<WasmExecute, ContractError>)
    ensures
        exists|tax: Result<u128, StdError>|
            emitted(
                r,
                #[trigger] spec_taxed_instruction(
                    pair_contract@,
                    offer_asset@,
                    tax,
                    ask_asset_info@,
                    max_spread,
                    to.deep_view(),
                    single,
                ),
            ),
        offer_asset@.info is Token ==> emitted(
            r,
            spec_swap_instruction(
                pair_contract@,
                offer_asset@,
                0,
                ask_asset_info@,
                max_spread,
                to.deep_view(),
                single,
            ),
        ),
        offer_asset@.info is Token ==> r is Ok,
        r matches Err(e) ==> offer_asset@.info is NativeToken && (e is QueryFailed || (e
            matches ContractError::ArithmeticUnderflow { amount, tax } && amount
            == offer_asset.amount && tax > amount)),
        r matches Ok(message) ==> {
            let params = spec_swap_params(ask_asset_info@, max_spread, to.deep_view(), single);
            match offer_asset@.info {
                AssetInfoView::NativeToken { denom } => {
                    &&& message@.contract_addr == pair_contract@
                    &&& exists|net: u128|
                        {
                            &&& net <= offer_asset.amount
                            &&& message@.funds == seq![CoinView { denom, amount: net }]
                            &&& message@.msg == #[trigger] pair_swap_json(
                                AssetView { info: offer_asset@.info, amount: net },
                                params,
                            )
                        }
                },
                AssetInfoView::Token { contract_addr } => {
                    &&& message@.contract_addr == contract_addr
                    &&& message@.funds == Seq::<CoinView>::empty()
                    &&& message@.msg == cw20_send_json(
                        pair_contract@,
                        offer_asset.amount,
                        hook_swap_json(params),
                    )
                },
            }
        },
{
    let ghost planned = |tax: Result<u128, StdError>|
        spec_taxed_instruction(
            pair_contract@,
            offer_asset@,
            tax,
            ask_asset_info@,
            max_spread,
            to.deep_view(),
            single,
        );
    let ghost offered = offer_asset@;
    let tax = match taxed_coin(&offer_asset) {
        Some(coin) => match compute_tax(querier, &coin) {
            Ok(tax) => tax,
            Err(e) => {
                let r = Err(ContractError::QueryFailed(e));
                assert(emitted(r, planned(Err(e))));
                return r;
            },
        },
        None => 0,
    };
    let r = match build_swap_instruction(
        pair_contract,
        offer_asset,
        tax,
        ask_asset_info,
        max_spread,
        to,
        single,
    ) {
        Ok(instruction) => encode_instruction(instruction),
        Err(e) => Err(e),
    };
    assert(emitted(r, planned(Ok(tax))));
    proof {
        if r is Ok && offered.info is NativeToken {
            let net = (offered.amount - tax) as u128;
            assert(r->Ok_0@.msg == pair_swap_json(
                AssetView { info: offered.info, amount: net },
                planned(Ok(tax))->Ok_0.payload.params(),
            ));
        }
    }
    r
}

/// What a leg comes to, given what each query returned: `pair` from the
/// factory, `balance` from the bank or the token contract, `tax` from the tax
/// query.
///
/// The caller and the operation are judged first. Then the pair must resolve,
/// then the router's own balance of the offer asset, which is the amount it
/// offers: all it holds, that is what the previous hop paid out.
pub open spec fn spec_leg_outcome(
    contract_address: Seq<char>,
    sender: Seq<char>,
    operation: SwapOperationView,
    pair: Result<Seq<char>, StdError>,
    balance: Result<u128, StdError>,
    tax: Result<u128, StdError>,
    to: Option<Seq<char>>,
    max_spread: Option<Decimal>,
    single: bool,
) -> Result<SwapInstructionView, ContractError> {
    match spec_leg_assets(contract_address, sender, operation) {
        Err(e) => Err(e),
        Ok((offer_asset_info, ask_asset_info)) => match pair {
            Err(e) => Err(ContractError::PairNotFound(e)),
            Ok(pair_contract) => match balance {
                Err(e) => Err(ContractError::QueryFailed(e)),
                Ok(amount) => spec_taxed_instruction(
                    pair_contract,
                    AssetView { info: offer_asset_info, amount },
                    tax,
                    ask_asset_info,
                    max_spread,
                    to,
                    single,
                ),
            },
        },
    }
}

/// Whether `r` is the router's response for the planned leg: a response of
/// exactly one message, the planned instruction's, or the plan's own error.
pub open spec fn responded(
    r: Result<Response, ContractError>,
    planned: Result<SwapInstructionView, ContractError>,
) -> bool {
    match r {
        Ok(response) => planned matches Ok(instruction) && response@ == seq![
            spec_encoded(instruction),
        ],
        Err(e) => planned == Err::<SwapInstructionView, _>(e),
    }
}

/// Executes one swap operation.
///
/// Only the router itself may call: a leg is a step of a route that the
/// router runs on its own behalf. The pair contract is the one that the
/// factory of `config` names for the two assets, and the amount offered is the
/// router's whole balance of the offer asset at the time of the call.
///
/// * `to` receives the ask asset; `None` leaves it to the pair contract.
/// * `max_spread` is the largest spread accepted for the swap.
/// * `single` says whether the leg is the whole route.
///
/// The response is the one that [`spec_leg_outcome`] gives for whatever the
/// queries returned.
pub fn execute_swap_operation(
    querier: &ChainQuerier,
    env: &Env,
    info: &MessageInfo,
    config: &Config,
    operation: SwapOperation,
    to: Option<String>,
    max_spread: Option<Decimal>,
    single: bool,
) -> (r: Result<Response, ContractError>)
    ensures
        exists|
            pair: Result<Seq<char>, StdError>,
            balance: Result<u128, StdError>,
            tax: Result<u128, StdError>,
        |
            responded(
                r,
                #[trigger] spec_leg_outcome(
                    env.contract_address@,
                    info.sender@,
                    operation@,
                    pair,
                    balance,
                    tax,
                    to.deep_view(),
                    max_spread,
                    single,
                ),
            ),
        info.sender@ != env.contract_address@ <==> r == Err::<Response, _>(
            ContractError::Unauthorized,
        ),
        info.sender@ == env.contract_address@ && operation@ is NativeSwap <==> r == Err::<
            Response,
            _,
        >(ContractError::NativeSwapNotSupported),
        r matches Ok(response) ==> response@.len() == 1,
        r matches Err(ContractError::QueryFailed(_)) ==> operation@ matches SwapOperationView::AstroSwap {
            offer_asset_info,
            ..
        } && offer_asset_info is NativeToken,
        r matches Err(e) ==> !(e is SerializationFailure),
{
    let ghost planned = |
        pair: Result<Seq<char>, StdError>,
        balance: Result<u128, StdError>,
        tax: Result<u128, StdError>,
    |
        spec_leg_outcome(
            env.contract_address@,
            info.sender@,
            operation@,
            pair,
            balance,
            tax,
            to.deep_view(),
            max_spread,
            single,
        );
    let ghost unasked = Ok::<u128, StdError>(0);
    let (offer_asset_info, ask_asset_info) = match authorize_swap_leg(env, info, operation) {
        Ok(assets) => assets,
        Err(e) => {
            let r = Err(e);
            assert(responded(r, planned(Ok(Seq::empty()), unasked, unasked)));
            return r;
        },
    };
    let pair = pair_query(config, &offer_asset_info, &ask_asset_info);
    let pair_contract = match query_pair_contract(querier, &pair) {
        Ok(pair_contract) => pair_contract,
        Err(e) => {
            let r = Err(ContractError::PairNotFound(e));
            assert(responded(r, planned(Err(e), unasked, unasked)));
            return r;
        },
    };
    let balance = match offer_balance_query(env, &offer_asset_info) {
        BalanceQuery::Native { account, denom } => query_balance(querier, &account, &denom),
        BalanceQuery::Token { contract_addr, account } => query_token_balance(
            querier,
            &contract_addr,
            &account,
        ),
    };
    let amount = match balance {
        Ok(amount) => amount,
        Err(e) => {
            let r = Err(ContractError::QueryFailed(e));
            assert(responded(r, planned(Ok(pair_contract@), Err(e), unasked)));
            return r;
        },
    };
    let offer_asset = Asset { info: offer_asset_info, amount };
    let ghost offer = offer_asset@;
    let ghost ask = ask_asset_info@;
    let message = asset_into_swap_msg(
        querier,
        pair_contract,
        offer_asset,
        ask_asset_info,
        max_spread,
        to,
        single,
    );
    let ghost tax = choose|tax: Result<u128, StdError>|
        emitted(
            message,
            #[trigger] spec_taxed_instruction(
                pair_contract@,
                offer,
                tax,
                ask,
                max_spread,
                to.deep_view(),
                single,
            ),
        );
    let r = match message {
        Ok(message) => {
            let response = Response { messages: vec![message] };
            assert(response@ =~= seq![message@]);
            Ok(response)
        },
        Err(e) => Err(e),
    };
    assert(responded(r, planned(Ok(pair_contract@), Ok(amount), tax)));
    r
}

} // verus!
