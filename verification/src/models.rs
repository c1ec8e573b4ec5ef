//! The wire shapes of the service: request bodies and the uniform JSON
//! envelope every endpoint answers with.

use vstd::prelude::*;

verus! {

/// The body of a deposit request: the amount to deposit, as a decimal string.
pub struct DepositRequest {
    pub amount: String,
}

/// The body of a withdraw request: the amount to withdraw, as a decimal
/// string.
pub struct WithdrawRequest {
    pub amount: String,
}

/// The uniform JSON envelope: a status word (success, error, or exception)
/// and an optional message carrying the payload or the error text.
pub struct JsonResponse {
    pub status: String,
    pub message: Option<String>,
}

} // verus!
