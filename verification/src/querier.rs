//! Queries that a swap leg puts to the chain.
//!
//! What the chain answers depends on its state at the time of the call, so
//! nothing here says what an answer is. The router's decisions are verified
//! for every answer.

use crate::asset::{AssetInfo, AssetInfoView};
use crate::msg::Coin;
use astroport::asset::{Asset as WireAsset, AssetInfo as WireAssetInfo};
use cosmwasm_std::{Addr, QuerierWrapper, StdError, Uint128};
use vstd::prelude::*;

verus! {

/// The question put to a factory: which pair contract trades these two
/// assets.
#[derive(Debug, PartialEq, Eq)]
pub struct PairQuery {
    /// Address of the factory that is asked.
    pub factory: String,
    /// The asset offered.
    pub offer_asset_info: AssetInfo,
    /// The asset wanted in return.
    pub ask_asset_info: AssetInfo,
}

/// The mathematical value of a [`PairQuery`].
pub struct PairQueryView {
    pub factory: Seq<char>,
    pub offer_asset_info: AssetInfoView,
    pub ask_asset_info: AssetInfoView,
}

impl View for PairQuery {
    type V = PairQueryView;

    open spec fn view(&self) -> PairQueryView {
        PairQueryView {
            factory: self.factory@,
            offer_asset_info: self.offer_asset_info@,
            ask_asset_info: self.ask_asset_info@,
        }
    }
}

/// The question of how much of an asset an account holds. The bank answers
/// for a native coin, the token's own contract for a token.
#[derive(Debug, PartialEq, Eq)]
pub enum BalanceQuery {
    Native { account: String, denom: String },
    Token { contract_addr: String, account: String },
}

/// The mathematical value of a [`BalanceQuery`].
pub enum BalanceQueryView {
    Native { account: Seq<char>, denom: Seq<char> },
    Token { contract_addr: Seq<char>, account: Seq<char> },
}

impl View for BalanceQuery {
    type V = BalanceQueryView;

    open spec fn view(&self) -> BalanceQueryView {
        match *self {
            BalanceQuery::Native { account, denom } => BalanceQueryView::Native {
                account: account@,
                denom: denom@,
            },
            BalanceQuery::Token { contract_addr, account } => BalanceQueryView::Token {
                contract_addr: contract_addr@,
                account: account@,
            },
        }
    }
}

/// The chain's query interface, as the runtime hands it to a contract.
///
/// It holds a `cosmwasm_std::QuerierWrapper`, of which the verifier sees
/// nothing: a value of this type is only handed on to the queries below.
#[verifier::external_body]
pub struct ChainQuerier<'a> {
    pub inner: QuerierWrapper<'a>,
}

/// Puts a pair query to its factory with
/// `astroport::querier::query_pair_info`, the offer asset first, and returns
/// the pair contract's address.
///
/// The answer is the chain's; an error is the factory's or the runtime's.
#[verifier::external_body]
pub(crate) fn query_pair_contract(
    querier: &ChainQuerier,
    query: &PairQuery,
) -> (r: Result<String, StdError>) {
    let info = |i: &AssetInfo| match i {
        AssetInfo::Token { contract_addr } => WireAssetInfo::Token { contract_addr: Addr::unchecked(contract_addr) },
        AssetInfo::NativeToken { denom } => WireAssetInfo::NativeToken { denom: denom.clone() },
    };
    let asset_infos = [info(&query.offer_asset_info), info(&query.ask_asset_info)];
    astroport::querier::query_pair_info(&querier.inner, &query.factory, &asset_infos)
        .map(|pair| pair.contract_addr.into_string())
}

/// Reads an account's balance of a native coin with
/// `astroport::querier::query_balance`.
///
/// The answer is the chain's; an error is the runtime's.
#[verifier::external_body]
pub(crate) fn query_balance(
    querier: &ChainQuerier,
    account_addr: &String,
    denom: &String,
) -> (r: Result<u128, StdError>) {
    astroport::querier::query_balance(&querier.inner, account_addr, denom)
        .map(|amount| amount.u128())
}

/// Reads an account's balance of a token with
/// `astroport::querier::query_token_balance`.
///
/// The answer is the token contract's. The query does not fail: where the
/// token contract gives no answer, the balance comes back as zero.
#[verifier::external_body]
pub(crate) fn query_token_balance(
    querier: &ChainQuerier,
    contract_addr: &String,
    account_addr: &String,
) -> (r: Result<u128, StdError>)
    ensures
        r is Ok,
{
    astroport::querier::query_token_balance(&querier.inner, contract_addr, account_addr)
        .map(|amount| amount.u128())
}

/// Computes the transfer tax on an amount of a native coin with
/// `astroport::asset::Asset::compute_tax`.
///
/// Nothing is claimed of the tax. The function is given the querier and may
/// fail, so that the amount is for its crate to decide; as it stands it asks
/// nothing of the chain and names zero. The router is verified for every
/// amount and for a failure.
#[verifier::external_body]
pub(crate) fn compute_tax(querier: &ChainQuerier, coin: &Coin) -> (r: Result<u128, StdError>) {
    let asset = WireAsset {
        info: WireAssetInfo::NativeToken { denom: coin.denom.clone() },
        amount: Uint128::new(coin.amount),
    };
    asset.compute_tax(&querier.inner).map(|tax| tax.u128())
}

} // verus!
