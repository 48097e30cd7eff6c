//! What the service answers to each request, decided from what the backend
//! said.

use crate::eligibility::{over_limit_reason, EligibilityDecision, GateError};
use crate::models::{BalanceResponse, ErrorResponse, TransferResponse};
use crate::node::{is_deploy_id, validate_deploy_id};
use vstd::prelude::*;
use vstd::utf8::encode_utf8;

verus! {

/// The status of a request that is refused.
pub const BAD_REQUEST: u16 = 400;

/// The status of a fault of the service.
pub const INTERNAL_SERVER_ERROR: u16 = 500;

/// A refusal: a status and the body that explains it.
#[derive(Debug)]
pub struct Rejection {
    pub status: u16,
    pub body: ErrorResponse,
}

impl Rejection {
    /// Whether a refusal has this status, error text and details.
    pub open spec fn is(&self, status: u16, error: Seq<char>, details: Seq<char>) -> bool {
        self.status == status && self.body.carries(error, Some(details))
    }
}

/// The refusal of a request whose input is not valid, with the reason.
pub fn invalid_input(reason: &str) -> (r: Rejection)
    ensures
        r.is(BAD_REQUEST, "Validation Error"@, reason@),
{
    Rejection { status: BAD_REQUEST, body: ErrorResponse::validation_error(reason) }
}

/// The answer to a balance request: the balance as the backend gave it, or a
/// refusal that carries the backend's message.
pub fn balance_reply(read: Result<String, String>) -> (r: Result<BalanceResponse, Rejection>)
    ensures
        match read {
            Ok(balance) => r is Ok && r->Ok_0.balance == balance,
            Err(message) => r is Err && r->Err_0.is(
                BAD_REQUEST,
                "FAUCET: Balance retrieval failed"@,
                message@,
            ),
        },
{
    match read {
        Ok(balance) => Ok(BalanceResponse { balance }),
        Err(message) => Err(
            Rejection {
                status: BAD_REQUEST,
                body: ErrorResponse::new(
                    "FAUCET: Balance retrieval failed".to_owned(),
                    Some(message),
                ),
            },
        ),
    }
}

/// Whether a transfer may go on after the eligibility verdict. It goes on
/// only for an eligible recipient; every other verdict or fault is a refusal
/// of its own.
pub fn gate_reply(gate: Result<EligibilityDecision, GateError>) -> (r: Result<(), Rejection>)
    ensures
        r is Ok <==> gate is Ok && gate->Ok_0.eligible,
        match gate {
            Ok(decision) => !decision.eligible ==> r->Err_0.is(
                BAD_REQUEST,
                "Validation Error"@,
                match decision.reason {
                    Some(reason) => reason@,
                    None => over_limit_reason(),
                },
            ),
            Err(GateError::UnparsableBalance) => r->Err_0.is(
                BAD_REQUEST,
                "Validation Error"@,
                "FAUCET: Unable to parse existing balance for address"@,
            ),
            Err(GateError::ReadFailed(message)) => r->Err_0.is(
                BAD_REQUEST,
                "FAUCET: Balance retrieval failed"@,
                message@,
            ),
        },
{
    match gate {
        Ok(decision) => {
            if decision.eligible {
                Ok(())
            } else {
                match decision.reason {
                    Some(reason) => Err(invalid_input(reason.as_str())),
                    None => Err(
                        invalid_input("Address balance exceeds faucet eligibility threshold"),
                    ),
                }
            }
        },
        Err(GateError::UnparsableBalance) => Err(
            invalid_input("FAUCET: Unable to parse existing balance for address"),
        ),
        Err(GateError::ReadFailed(message)) => Err(
            Rejection {
                status: BAD_REQUEST,
                body: ErrorResponse::new(
                    "FAUCET: Balance retrieval failed".to_owned(),
                    Some(message),
                ),
            },
        ),
    }
}

/// The answer to a transfer request after the submission: the identifier, or
/// a refusal that carries the backend's message.
pub fn transfer_reply(submitted: Result<String, String>) -> (r: Result<
    TransferResponse,
    Rejection,
>)
    ensures
        match submitted {
            Ok(id) => r is Ok && r->Ok_0.deploy_id == Some(id),
            Err(message) => r is Err && r->Err_0.is(
                BAD_REQUEST,
                "FAUCET: Transfer failed"@,
                message@,
            ),
        },
{
    match submitted {
        Ok(id) => Ok(TransferResponse { deploy_id: Some(id) }),
        Err(message) => Err(
            Rejection {
                status: BAD_REQUEST,
                body: ErrorResponse::new("FAUCET: Transfer failed".to_owned(), Some(message)),
            },
        ),
    }
}

/// Refuses a status request whose identifier has not the shape of one.
pub fn deploy_id_reply(deploy_id: &str) -> (r: Result<(), Rejection>)
    ensures
        r is Ok <==> is_deploy_id(encode_utf8(deploy_id@)),
        r is Err ==> r->Err_0.is(
            BAD_REQUEST,
            "Validation Error"@,
            "FAUCET: Invalid deploy ID format (must be 100-160 alphanumeric chars)"@,
        ),
{
    if validate_deploy_id(deploy_id) {
        Ok(())
    } else {
        Err(invalid_input("FAUCET: Invalid deploy ID format (must be 100-160 alphanumeric chars)"))
    }
}

/// The answer to a status request that the backend could not serve. The
/// backend's message is not passed on.
pub fn deploy_info_failure() -> (r: Rejection)
    ensures
        r.is(
            INTERNAL_SERVER_ERROR,
            "Internal Server Error"@,
            "FAUCET: Failed to retrieve deploy info"@,
        ),
{
    Rejection {
        status: INTERNAL_SERVER_ERROR,
        body: ErrorResponse::internal_error("FAUCET: Failed to retrieve deploy info"),
    }
}

} // verus!
