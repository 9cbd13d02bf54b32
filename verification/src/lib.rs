//! Decision logic of a multi-hop swap router.
//!
//! One swap leg converts the router's whole holding of an offer asset into an
//! ask asset through the pair contract that the factory names for the two
//! assets. The router authorises the caller, resolves the pair, reads its own
//! balance, deducts the transfer tax of a native offer, decides whether the
//! pair's price check stays in force, and emits one execute message.

pub mod asset;
pub mod context;
pub mod encoding;
pub mod error;
pub mod msg;
pub mod operations;
pub mod querier;
pub mod theorems;
