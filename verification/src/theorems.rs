//! What holds of every swap leg, whatever the chain answers.
//!
//! Each statement is about the outcome that [`spec_leg_outcome`] gives a leg,
//! or about the instruction that [`spec_swap_instruction`] gives an offer.
//! The executable functions are proved against the same two functions.

use crate::asset::{AssetInfoView, AssetView, Decimal};
use crate::error::ContractError;
use crate::msg::{Response, SwapInstructionView, SwapOperationView, SwapPayloadView};
use crate::operations::{
    responded, spec_belief_price, spec_leg_outcome, spec_swap_instruction,
};
use cosmwasm_std::StdError;
use vstd::prelude::*;

verus! {

/// Only the router runs a leg. For any operation, and whatever the chain
/// would have answered, a caller other than the router gets `Unauthorized`:
/// there is no response, and so no message.
pub proof fn lemma_foreign_caller_is_refused(
    r: Result<Response, ContractError>,
    contract_address: Seq<char>,
    sender: Seq<char>,
    operation: SwapOperationView,
    pair: Result<Seq<char>, StdError>,
    balance: Result<u128, StdError>,
    tax: Result<u128, StdError>,
    to: Option<Seq<char>>,
    max_spread: Option<Decimal>,
    single: bool,
)
    requires
        sender != contract_address,
        responded(
            r,
            spec_leg_outcome(
                contract_address,
                sender,
                operation,
                pair,
                balance,
                tax,
                to,
                max_spread,
                single,
            ),
        ),
    ensures
        r == Err::<Response, _>(ContractError::Unauthorized),
{
}

/// A native swap that the router asks of itself fails with
/// `NativeSwapNotSupported`, whatever the recipient, the spread limit, the
/// place of the leg in its route and the answers of the chain.
pub proof fn lemma_native_swap_is_refused(
    r: Result<Response, ContractError>,
    contract_address: Seq<char>,
    offer_denom: Seq<char>,
    ask_denom: Seq<char>,
    pair: Result<Seq<char>, StdError>,
    balance: Result<u128, StdError>,
    tax: Result<u128, StdError>,
    to: Option<Seq<char>>,
    max_spread: Option<Decimal>,
    single: bool,
)
    requires
        responded(
            r,
            spec_leg_outcome(
                contract_address,
                contract_address,
                SwapOperationView::NativeSwap { offer_denom, ask_denom },
                pair,
                balance,
                tax,
                to,
                max_spread,
                single,
            ),
        ),
    ensures
        r == Err::<Response, _>(ContractError::NativeSwapNotSupported),
{
}

/// Every leg that comes to an instruction swaps the router's whole balance
/// of the offer asset, less the tax that the chain named, at the pair that
/// the factory named.
pub proof fn lemma_leg_offers_the_whole_balance(
    contract_address: Seq<char>,
    sender: Seq<char>,
    operation: SwapOperationView,
    pair: Result<Seq<char>, StdError>,
    balance: Result<u128, StdError>,
    tax: Result<u128, StdError>,
    to: Option<Seq<char>>,
    max_spread: Option<Decimal>,
    single: bool,
)
    requires
        spec_leg_outcome(
            contract_address,
            sender,
            operation,
            pair,
            balance,
            tax,
            to,
            max_spread,
            single,
        ) is Ok,
    ensures
        sender == contract_address,
        operation is AstroSwap,
        pair is Ok,
        balance is Ok,
        operation->offer_asset_info is NativeToken ==> tax is Ok,
        spec_leg_outcome(
            contract_address,
            sender,
            operation,
            pair,
            balance,
            tax,
            to,
            max_spread,
            single,
        ) == spec_swap_instruction(
            pair->Ok_0,
            AssetView { info: operation->offer_asset_info, amount: balance->Ok_0 },
            if operation->offer_asset_info is NativeToken {
                tax->Ok_0
            } else {
                0
            },
            operation->ask_asset_info,
            max_spread,
            to,
            single,
        ),
{
}

/// The price check follows the length of the route. A hop of a longer route
/// carries the largest decimal as its reference price, which switches the
/// pair's own price check off; a route of one leg carries no reference price.
/// Either way the spread limit and the recipient are the caller's.
pub proof fn lemma_price_check_follows_route_length(
    pair_contract: Seq<char>,
    offer_asset: AssetView,
    tax: u128,
    ask_asset_info: AssetInfoView,
    max_spread: Option<Decimal>,
    to: Option<Seq<char>>,
    single: bool,
)
    requires
        spec_swap_instruction(
            pair_contract,
            offer_asset,
            tax,
            ask_asset_info,
            max_spread,
            to,
            single,
        ) is Ok,
    ensures
        ({
            let params = spec_swap_instruction(
                pair_contract,
                offer_asset,
                tax,
                ask_asset_info,
                max_spread,
                to,
                single,
            )->Ok_0.payload.params();
            &&& !single ==> params.belief_price == Some(Decimal { atomics: u128::MAX })
            &&& single ==> params.belief_price is None
            &&& params.belief_price == spec_belief_price(single)
            &&& params.max_spread == max_spread
            &&& params.to == to
            &&& params.ask_asset_info == Some(ask_asset_info)
        }),
{
}

/// A native offer is taxed. With a tax no larger than the amount, the funds
/// that travel with the message, and the offer that the swap names, are the
/// amount less the tax, exactly. With a larger tax there is no instruction,
/// only an underflow.
pub proof fn lemma_native_offer_is_taxed(
    pair_contract: Seq<char>,
    denom: Seq<char>,
    amount: u128,
    tax: u128,
    ask_asset_info: AssetInfoView,
    max_spread: Option<Decimal>,
    to: Option<Seq<char>>,
    single: bool,
)
    ensures
        ({
            let info = AssetInfoView::NativeToken { denom };
            let outcome = spec_swap_instruction(
                pair_contract,
                AssetView { info, amount },
                tax,
                ask_asset_info,
                max_spread,
                to,
                single,
            );
            if tax <= amount {
                &&& outcome matches Ok(instruction)
                &&& instruction.funds.len() == 1
                &&& instruction.funds[0].denom == denom
                &&& instruction.funds[0].amount == amount - tax
                &&& instruction.payload matches SwapPayloadView::Swap { offer_asset, .. }
                &&& offer_asset.info == info
                &&& offer_asset.amount == amount - tax
            } else {
                outcome == Err::<SwapInstructionView, _>(
                    ContractError::ArithmeticUnderflow { amount, tax },
                )
            }
        }),
{
}

/// A token offer is exempt from tax: the whole amount is sent, whatever tax
/// the chain would name, and sending it cannot fail.
pub proof fn lemma_token_offer_is_sent_whole(
    pair_contract: Seq<char>,
    contract_addr: Seq<char>,
    amount: u128,
    tax: u128,
    ask_asset_info: AssetInfoView,
    max_spread: Option<Decimal>,
    to: Option<Seq<char>>,
    single: bool,
)
    ensures
        ({
            let outcome = spec_swap_instruction(
                pair_contract,
                AssetView { info: AssetInfoView::Token { contract_addr }, amount },
                tax,
                ask_asset_info,
                max_spread,
                to,
                single,
            );
            &&& outcome matches Ok(instruction)
            &&& instruction.payload matches SwapPayloadView::Send { amount: sent, .. }
            &&& sent == amount
        }),
{
}

/// The settlement follows the kind of the offer, never the other way. A
/// native offer executes the pair contract with a swap and the offer as
/// funds. A token offer executes the token contract with a send to the pair
/// contract and no funds.
pub proof fn lemma_settlement_follows_offer_kind(
    pair_contract: Seq<char>,
    offer_asset: AssetView,
    tax: u128,
    ask_asset_info: AssetInfoView,
    max_spread: Option<Decimal>,
    to: Option<Seq<char>>,
    single: bool,
)
    requires
        spec_swap_instruction(
            pair_contract,
            offer_asset,
            tax,
            ask_asset_info,
            max_spread,
            to,
            single,
        ) is Ok,
    ensures
        ({
            let instruction = spec_swap_instruction(
                pair_contract,
                offer_asset,
                tax,
                ask_asset_info,
                max_spread,
                to,
                single,
            )->Ok_0;
            match offer_asset.info {
                AssetInfoView::NativeToken { denom } => {
                    &&& instruction.is_native_settlement()
                    &&& !instruction.is_token_settlement()
                    &&& instruction.contract_addr == pair_contract
                    &&& instruction.funds.len() == 1
                    &&& instruction.funds[0].denom == denom
                },
                AssetInfoView::Token { contract_addr } => {
                    &&& instruction.is_token_settlement()
                    &&& !instruction.is_native_settlement()
                    &&& instruction.contract_addr == contract_addr
                    &&& instruction.funds.len() == 0
                    &&& instruction.payload->contract == pair_contract
                },
            }
        }),
{
}

} // verus!
