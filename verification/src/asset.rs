//! Assets and the fixed-point numbers that swap parameters are written in.

use vstd::prelude::*;

verus! {

/// A non-negative fixed-point number with 18 fractional digits, held as its
/// count of 10^-18 units.
#[derive(Clone, Copy, Debug, PartialEq, Eq, Structural)]
pub struct Decimal {
    pub atomics: u128,
}

impl Decimal {
    /// The largest value a `Decimal` can hold.
    pub open spec fn spec_max() -> Decimal {
        Decimal { atomics: u128::MAX }
    }

    /// The largest value a `Decimal` can hold.
    #[verifier::when_used_as_spec(spec_max)]
    pub fn max() -> (r: Decimal)
        ensures
            r == Decimal::spec_max(),
    {
        Decimal { atomics: u128::MAX }
    }

    /// The decimal made of `atomics` units of 10^-18.
    pub fn raw(atomics: u128) -> (r: Decimal)
        ensures
            r == (Decimal { atomics }),
    {
        Decimal { atomics }
    }
}

/// What identifies an asset: a token by the address of its contract, a native
/// coin by its denomination.
#[derive(Debug, PartialEq, Eq)]
pub enum AssetInfo {
    Token { contract_addr: String },
    NativeToken { denom: String },
}

/// The mathematical value of an [`AssetInfo`].
pub enum AssetInfoView {
    Token { contract_addr: Seq<char> },
    NativeToken { denom: Seq<char> },
}

impl View for AssetInfo {
    type V = AssetInfoView;

    open spec fn view(&self) -> AssetInfoView {
        match *self {
            AssetInfo::Token { contract_addr } => AssetInfoView::Token {
                contract_addr: contract_addr@,
            },
            AssetInfo::NativeToken { denom } => AssetInfoView::NativeToken { denom: denom@ },
        }
    }
}

impl DeepView for AssetInfo {
    type V = AssetInfoView;

    open spec fn deep_view(&self) -> AssetInfoView {
        self@
    }
}

impl Clone for AssetInfo {
    fn clone(&self) -> (r: Self)
        ensures
            r == *self,
    {
        match self {
            AssetInfo::Token { contract_addr } => AssetInfo::Token {
                contract_addr: contract_addr.clone(),
            },
            AssetInfo::NativeToken { denom } => AssetInfo::NativeToken { denom: denom.clone() },
        }
    }
}

/// An amount of one asset, in the asset's smallest unit.
#[derive(Debug, PartialEq, Eq)]
pub struct Asset {
    pub info: AssetInfo,
    pub amount: u128,
}

/// The mathematical value of an [`Asset`].
pub struct AssetView {
    pub info: AssetInfoView,
    pub amount: u128,
}

impl View for Asset {
    type V = AssetView;

    open spec fn view(&self) -> AssetView {
        AssetView { info: self.info@, amount: self.amount }
    }
}

impl Clone for Asset {
    fn clone(&self) -> (r: Self)
        ensures
            r == *self,
    {
        Asset { info: self.info.clone(), amount: self.amount }
    }
}

} // verus!
