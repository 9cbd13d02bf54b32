//! What the router knows of itself and of the call it is serving.

use vstd::prelude::*;

verus! {

/// The router's stored configuration, written once when the contract is
/// instantiated and only read afterwards.
#[derive(Debug, PartialEq, Eq)]
pub struct Config {
    /// Address of the factory that maps a pair of assets to its pair contract.
    pub astroport_factory: String,
}

/// The part of the execution environment that a swap leg reads.
#[derive(Debug, PartialEq, Eq)]
pub struct Env {
    /// The router's own address.
    pub contract_address: String,
}

/// The part of the incoming message that a swap leg reads.
#[derive(Debug, PartialEq, Eq)]
pub struct MessageInfo {
    /// Address of the caller.
    pub sender: String,
}

} // verus!
