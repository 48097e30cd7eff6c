//! The order of work for one transfer request: the address is validated,
//! then the recipient's balance is read and judged, then a node is chosen,
//! then the transfer is submitted. Each step is the caller's work; the flow
//! says which comes next and what to answer.

use crate::eligibility::{check_eligibility, over_limit_reason, parsed_balance};
use crate::models::TransferResponse;
use crate::replies::{gate_reply, invalid_input, transfer_reply, Rejection, BAD_REQUEST};
use vstd::prelude::*;
use vstd::utf8::encode_utf8;

verus! {

/// Where a transfer request stands.
#[derive(Debug, Clone, Copy, PartialEq, Eq, Structural)]
pub enum TransferStage {
    ValidatingAddress,
    ReadingBalance,
    SelectingNode,
    Submitting,
    Answered,
}

/// What the flow asks of its caller next, or the answer to the request.
#[derive(Debug)]
pub enum TransferAction {
    /// Read the recipient's balance and report it.
    ReadBalance,
    /// Choose a reachable node and report the choice.
    SelectNode,
    /// Submit the transfer to the node at this index of the pool.
    Submit(usize),
    /// Answer the request.
    Reply(Result<TransferResponse, Rejection>),
}

/// One transfer request on its way.
pub struct TransferFlow {
    stage: TransferStage,
    max_allowed_balance: u128,
}

impl TransferFlow {
    pub closed spec fn stage(&self) -> TransferStage {
        self.stage
    }

    /// The balance, in base units, from which the recipient is refused.
    pub closed spec fn limit(&self) -> u128 {
        self.max_allowed_balance
    }

    /// A request whose address is yet to be validated.
    pub fn start(max_allowed_balance: u128) -> (r: TransferFlow)
        ensures
            r.stage() == TransferStage::ValidatingAddress,
            r.limit() == max_allowed_balance,
    {
        TransferFlow { stage: TransferStage::ValidatingAddress, max_allowed_balance }
    }

    /// Where the request stands.
    pub fn current_stage(&self) -> (r: TransferStage)
        ensures
            r == self.stage(),
    {
        self.stage
    }

    /// Takes the verdict on the address. A refused address is answered with
    /// the validator's message; an accepted one leads to the balance read.
    pub fn on_address(&mut self, checked: Result<(), String>) -> (action: TransferAction)
        requires
            old(self).stage() == TransferStage::ValidatingAddress,
        ensures
            final(self).limit() == old(self).limit(),
            match checked {
                Ok(_) => action is ReadBalance && final(self).stage()
                    == TransferStage::ReadingBalance,
                Err(message) => final(self).stage() == TransferStage::Answered && action is Reply
                    && action->Reply_0 is Err && action->Reply_0->Err_0.is(
                    BAD_REQUEST,
                    "Validation Error"@,
                    message@,
                ),
            },
    {
        match checked {
            Ok(_) => {
                self.stage = TransferStage::ReadingBalance;
                TransferAction::ReadBalance
            },
            Err(message) => {
                self.stage = TransferStage::Answered;
                TransferAction::Reply(Err(invalid_input(message.as_str())))
            },
        }
    }

    /// Takes what the balance read brought. Only a balance below the limit
    /// leads on to the choice of a node; a balance at or above it, a text
    /// that is no balance and a failed read are each answered at once.
    pub fn on_balance(&mut self, read: Result<String, String>) -> (action: TransferAction)
        requires
            old(self).stage() == TransferStage::ReadingBalance,
        ensures
            final(self).limit() == old(self).limit(),
            action is SelectNode <==> final(self).stage() == TransferStage::SelectingNode,
            action is Reply <==> final(self).stage() == TransferStage::Answered,
            match read {
                Err(message) => action is Reply && action->Reply_0 is Err
                    && action->Reply_0->Err_0.is(
                    BAD_REQUEST,
                    "FAUCET: Balance retrieval failed"@,
                    message@,
                ),
                Ok(text) => match parsed_balance(encode_utf8(text@)) {
                    None => action is Reply && action->Reply_0 is Err
                        && action->Reply_0->Err_0.is(
                        BAD_REQUEST,
                        "Validation Error"@,
                        "FAUCET: Unable to parse existing balance for address"@,
                    ),
                    Some(balance) => if balance < old(self).limit() {
                        action is SelectNode
                    } else {
                        action is Reply && action->Reply_0 is Err && action->Reply_0->Err_0.is(
                            BAD_REQUEST,
                            "Validation Error"@,
                            over_limit_reason(),
                        )
                    },
                },
            },
    {
        let verdict = check_eligibility(read, self.max_allowed_balance);
        match gate_reply(verdict) {
            Ok(_) => {
                self.stage = TransferStage::SelectingNode;
                TransferAction::SelectNode
            },
            Err(rejection) => {
                self.stage = TransferStage::Answered;
                TransferAction::Reply(Err(rejection))
            },
        }
    }

    /// Takes the choice of a node. The chosen node gets the submission; a
    /// failed choice is answered as a failed transfer, with its message.
    pub fn on_selection(&mut self, chosen: Result<usize, String>) -> (action: TransferAction)
        requires
            old(self).stage() == TransferStage::SelectingNode,
        ensures
            final(self).limit() == old(self).limit(),
            match chosen {
                Ok(node) => action == TransferAction::Submit(node) && final(self).stage()
                    == TransferStage::Submitting,
                Err(message) => final(self).stage() == TransferStage::Answered && action is Reply
                    && action->Reply_0 is Err && action->Reply_0->Err_0.is(
                    BAD_REQUEST,
                    "FAUCET: Transfer failed"@,
                    message@,
                ),
            },
    {
        match chosen {
            Ok(node) => {
                self.stage = TransferStage::Submitting;
                TransferAction::Submit(node)
            },
            Err(message) => {
                self.stage = TransferStage::Answered;
                TransferAction::Reply(transfer_reply(Err(message)))
            },
        }
    }

    /// Takes what the submission brought and answers the request: with the
    /// identifier, or with the backend's message.
    pub fn on_submission(&mut self, submitted: Result<String, String>) -> (action: TransferAction)
        requires
            old(self).stage() == TransferStage::Submitting,
        ensures
            final(self).limit() == old(self).limit(),
            final(self).stage() == TransferStage::Answered,
            action is Reply,
            match submitted {
                Ok(id) => action->Reply_0 is Ok && action->Reply_0->Ok_0.deploy_id == Some(id),
                Err(message) => action->Reply_0 is Err && action->Reply_0->Err_0.is(
                    BAD_REQUEST,
                    "FAUCET: Transfer failed"@,
                    message@,
                ),
            },
    {
        self.stage = TransferStage::Answered;
        TransferAction::Reply(transfer_reply(submitted))
    }
}

} // verus!
