//! The ways in which a swap leg fails.

use cosmwasm_std::StdError;
use vstd::prelude::*;

verus! {

/// `cosmwasm_std::StdError`, the error of the chain's queries and of the
/// encoder. The router never looks inside one: it hands it on as it came.
#[verifier::external_type_specification]
#[verifier::external_body]
pub struct ExStdError(StdError);

/// Why a swap leg produced no message. Every failure aborts the leg as a
/// whole; an error from the chain or the encoder is carried as it came.
#[derive(Debug, PartialEq)]
pub enum ContractError {
    /// The caller is not the router itself.
    Unauthorized,
    /// The leg asks for a native-to-native swap, which the router does not
    /// perform.
    NativeSwapNotSupported,
    /// The factory named no pair for the two assets.
    PairNotFound(StdError),
    /// The chain did not answer a balance or tax query.
    QueryFailed(StdError),
    /// The tax on a native offer exceeds the amount offered.
    ArithmeticUnderflow { amount: u128, tax: u128 },
    /// An encoder returned an error for a payload. The router's own swap
    /// messages always encode, so a leg never ends in this error by itself:
    /// it is what `execute_msg_from` makes of an encoder's error handed to it.
    SerializationFailure(StdError),
}

} // verus!
