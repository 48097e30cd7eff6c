//! What is handed to the ledger client for each backend call.

use crate::config::AppConfig;
use crate::node::NodeSocket;
use vstd::prelude::*;

verus! {

/// The seconds a transfer call may wait for the backend.
pub const TRANSFER_MAX_WAIT: u32 = 60;

/// The seconds between two checks within a transfer call.
pub const TRANSFER_CHECK_INTERVAL: u64 = 5;

/// The arguments of a transfer submission.
#[derive(Debug)]
pub struct TransferArgs {
    pub to_address: String,
    pub amount: u64,
    pub private_key: String,
    pub host: String,
    pub port: u16,
    pub http_port: u16,
    pub bigger_phlo: bool,
    pub propose: bool,
    pub max_wait: u32,
    pub check_interval: u64,
    pub reader_validator_host: Option<String>,
    pub reader_validator_port: Option<u16>,
}

/// The arguments of a balance read.
#[derive(Debug)]
pub struct WalletBalanceArgs {
    pub address: String,
    pub host: String,
    pub port: u16,
}

#[derive(Debug)]
pub struct HttpArgs {
    pub host: String,
    pub port: u16,
}

/// The arguments of a status check on a submission.
#[derive(Debug)]
pub struct WaitArgs {
    pub private_key: String,
    pub max_attempts: u32,
    pub check_interval: u64,
    pub http_args: HttpArgs,
    pub reader_validator_host: String,
    pub reader_validator_grpc_port: u16,
}

/// The identifier that the backend gave to a submission.
#[derive(Debug)]
pub struct SubmissionId {
    pub value: String,
}

/// A submission that did not go through. The backend's refusals and
/// transport failures are not told apart: both carry the message as it came.
#[derive(Debug)]
pub enum SubmitError {
    Rejected(String),
}

/// Wraps what a submission call brought back, message and identifier
/// verbatim.
pub fn submission_result(answer: Result<String, String>) -> (r: Result<SubmissionId, SubmitError>)
    ensures
        match answer {
            Ok(id) => r == Ok::<SubmissionId, SubmitError>(SubmissionId { value: id }),
            Err(message) => r == Err::<SubmissionId, SubmitError>(SubmitError::Rejected(message)),
        },
{
    match answer {
        Ok(id) => Ok(SubmissionId { value: id }),
        Err(message) => Err(SubmitError::Rejected(message)),
    }
}

#[derive(Clone)]
pub struct NodeCliService {
    config: AppConfig,
}

impl NodeCliService {
    /// The settings that the service works with.
    pub closed spec fn config(&self) -> AppConfig {
        self.config
    }

    pub fn new(config: AppConfig) -> (r: NodeCliService)
        ensures
            r.config() == config,
    {
        NodeCliService { config }
    }

    /// The settings that the service works with.
    pub fn settings(&self) -> (r: &AppConfig)
        ensures
            *r == self.config(),
    {
        &self.config
    }

    /// The submission of one transfer to the given node: the configured
    /// amount, no proposal as part of the call, the larger resource
    /// allowance, and the read-only node as the one to observe.
    pub fn transfer_args(&self, to_address: &str, private_key: String, node: &NodeSocket) -> (r:
        TransferArgs)
        ensures
            r.to_address@ == to_address@,
            r.amount == self.config().faucet_amount,
            r.private_key == private_key,
            r.host@ == node.host@,
            r.port == node.grpc_port,
            r.http_port == node.http_port,
            r.bigger_phlo,
            !r.propose,
            r.max_wait == TRANSFER_MAX_WAIT,
            r.check_interval == TRANSFER_CHECK_INTERVAL,
            r.reader_validator_host is Some,
            r.reader_validator_host->Some_0@ == self.config().readonly_host@,
            r.reader_validator_port == Some(self.config().readonly_grpc_port),
    {
        TransferArgs {
            to_address: to_address.to_owned(),
            amount: self.config.faucet_amount,
            private_key,
            host: node.host.clone(),
            port: node.grpc_port,
            http_port: node.http_port,
            bigger_phlo: true,
            propose: false,
            max_wait: TRANSFER_MAX_WAIT,
            check_interval: TRANSFER_CHECK_INTERVAL,
            reader_validator_host: Some(self.config.readonly_host.clone()),
            reader_validator_port: Some(self.config.readonly_grpc_port),
        }
    }

    /// The read of one address's balance, at the read-only node.
    pub fn balance_args(&self, address: &str) -> (r: WalletBalanceArgs)
        ensures
            r.address@ == address@,
            r.host@ == self.config().readonly_host@,
            r.port == self.config().readonly_grpc_port,
    {
        WalletBalanceArgs {
            address: address.to_owned(),
            host: self.config.readonly_host.clone(),
            port: self.config.readonly_grpc_port,
        }
    }

    /// The status check on a submission, with the number of attempts that the
    /// configured budget allows. Needs a credential and a positive interval.
    pub fn wait_args(&self) -> (r: WaitArgs)
        requires
            self.config().private_key is Some,
            self.config().deploy_check_interval_sec > 0,
        ensures
            r.private_key@ == self.config().private_key->Some_0@,
            r.max_attempts == self.config().deploy_max_wait_sec
                / self.config().deploy_check_interval_sec,
            r.check_interval == self.config().deploy_check_interval_sec,
            r.http_args.host@ == self.config().readonly_host@,
            r.http_args.port == self.config().readonly_http_port,
            r.reader_validator_host@ == self.config().readonly_host@,
            r.reader_validator_grpc_port == self.config().readonly_grpc_port,
    {
        let private_key = match &self.config.private_key {
            Some(key) => key.clone(),
            None => String::new(),
        };
        WaitArgs {
            private_key,
            max_attempts: self.config.deploy_max_wait_sec / self.config.deploy_check_interval_sec,
            check_interval: self.config.deploy_check_interval_sec.into(),
            http_args: HttpArgs {
                host: self.config.readonly_host.clone(),
                port: self.config.readonly_http_port,
            },
            reader_validator_host: self.config.readonly_host.clone(),
            reader_validator_grpc_port: self.config.readonly_grpc_port,
        }
    }
}

} // verus!
