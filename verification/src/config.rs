//! The service's settings, resolved once at startup.

use crate::confirm::PollingBudget;
use crate::eligibility::{base_units, parse_balance, parsed_balance, spec_base_units};
use crate::list::{port_list, read_port_list, read_text_list, text_list, ListError};
use crate::node::{build_pool, NodeSocket, PoolError};
use crate::text::{decimal, push_decimal};
use vstd::prelude::*;
use vstd::string::*;
use vstd::utf8::encode_utf8;

verus! {

#[derive(Clone, Debug)]
pub struct AppConfig {
    /// The amount handed out per transfer.
    pub faucet_amount: u64,
    /// The balance, in whole units, from which a recipient is refused.
    pub faucet_max_balance: u64,
    /// The signing credential.
    pub private_key: Option<String>,
    pub node_sockets: Vec<NodeSocket>,
    pub readonly_host: String,
    pub readonly_grpc_port: u16,
    pub readonly_http_port: u16,
    pub server_host: String,
    pub server_port: u16,
    pub deploy_max_wait_sec: u32,
    pub deploy_check_interval_sec: u32,
}

/// What makes a configuration unusable.
#[derive(Debug, Clone, Copy, PartialEq, Eq, Structural)]
pub enum ConfigError {
    MissingPrivateKey,
    ZeroFaucetAmount,
}

impl ConfigError {
    pub open spec fn spec_message(&self) -> Seq<char> {
        match self {
            ConfigError::MissingPrivateKey => "PRIVATE_KEY environment variable is required"@,
            ConfigError::ZeroFaucetAmount => "FAUCET_AMOUNT must be greater than 0"@,
        }
    }

    /// The error in words.
    pub fn message(&self) -> (r: String)
        ensures
            r@ == self.spec_message(),
    {
        match self {
            ConfigError::MissingPrivateKey => "PRIVATE_KEY environment variable is required".to_owned(),
            ConfigError::ZeroFaucetAmount => "FAUCET_AMOUNT must be greater than 0".to_owned(),
        }
    }
}

/// The settings as they are found, each a text or missing.
#[derive(Debug, Clone)]
pub struct RawSettings {
    pub faucet_amount: Option<String>,
    pub faucet_max_balance: Option<String>,
    pub private_key: Option<String>,
    pub node_hosts: Option<String>,
    pub node_grpc_ports: Option<String>,
    pub node_http_ports: Option<String>,
    pub readonly_host: Option<String>,
    pub readonly_grpc_port: Option<String>,
    pub readonly_http_port: Option<String>,
    pub server_host: Option<String>,
    pub server_port: Option<String>,
    pub deploy_max_wait_sec: Option<String>,
    pub deploy_check_interval_sec: Option<String>,
}

/// The number that a setting gives: the one it denotes where it is set,
/// denotes a number and that number is at most `max`; the default otherwise.
pub open spec fn number_or(raw: Option<String>, max: u128, default: u128) -> u128 {
    match raw {
        None => default,
        Some(text) => match parsed_balance(encode_utf8(text@)) {
            None => default,
            Some(v) => if v <= max {
                v
            } else {
                default
            },
        },
    }
}

/// The text that a setting gives: its own where it is set, the default
/// otherwise.
pub open spec fn text_or(raw: Option<String>, default: Seq<char>) -> Seq<char> {
    match raw {
        None => default,
        Some(text) => text@,
    }
}

/// Whether three settings describe a pool of nodes.
pub open spec fn describes_pool(
    hosts: Option<String>,
    grpc_ports: Option<String>,
    http_ports: Option<String>,
) -> bool {
    &&& text_list(hosts) is Ok
    &&& port_list(grpc_ports) is Ok
    &&& port_list(http_ports) is Ok
    &&& text_list(hosts)->Ok_0.len() > 0
    &&& text_list(hosts)->Ok_0.len() == port_list(grpc_ports)->Ok_0.len()
    &&& text_list(hosts)->Ok_0.len() == port_list(http_ports)->Ok_0.len()
}

fn read_number_or(raw: &Option<String>, max: u128, default: u128) -> (r: u128)
    ensures
        r == number_or(*raw, max, default),
        default <= max ==> r <= max,
{
    match raw {
        None => default,
        Some(text) => match parse_balance(text.as_str()) {
            None => default,
            Some(v) => if v <= max {
                v
            } else {
                default
            },
        },
    }
}

fn read_text_or(raw: Option<String>, default: &str) -> (r: String)
    ensures
        r@ == text_or(raw, default@),
{
    match raw {
        None => default.to_owned(),
        Some(text) => text,
    }
}

/// Why the settings describe no pool of nodes.
#[derive(Debug, Clone, Copy, PartialEq, Eq, Structural)]
pub enum NodeListError {
    Hosts(ListError),
    GrpcPorts(ListError),
    HttpPorts(ListError),
    Pool(PoolError),
}

/// The pool that three settings describe: the lists are read in the order
/// hosts, control ports, status ports, and the first that cannot be read is
/// the fault; then none of them may be empty, and all must be equally long.
pub open spec fn spec_node_sockets(
    r: Result<Vec<NodeSocket>, NodeListError>,
    hosts: Option<String>,
    grpc_ports: Option<String>,
    http_ports: Option<String>,
) -> bool {
    match (text_list(hosts), port_list(grpc_ports), port_list(http_ports)) {
        (Err(e), _, _) => r == Err::<Vec<NodeSocket>, NodeListError>(NodeListError::Hosts(e)),
        (Ok(_), Err(e), _) => r == Err::<Vec<NodeSocket>, NodeListError>(
            NodeListError::GrpcPorts(e),
        ),
        (Ok(_), Ok(_), Err(e)) => r == Err::<Vec<NodeSocket>, NodeListError>(
            NodeListError::HttpPorts(e),
        ),
        (Ok(h), Ok(g), Ok(p)) => if h.len() == 0 || g.len() == 0 || p.len() == 0 {
            r == Err::<Vec<NodeSocket>, NodeListError>(NodeListError::Pool(PoolError::Empty))
        } else if h.len() != g.len() || h.len() != p.len() {
            r == Err::<Vec<NodeSocket>, NodeListError>(
                NodeListError::Pool(PoolError::LengthMismatch),
            )
        } else {
            &&& r is Ok
            &&& r->Ok_0@.len() == h.len()
            &&& forall|i: int|
                0 <= i < h.len() ==> (#[trigger] r->Ok_0@[i]).host@ == h[i] && r->Ok_0@[i].grpc_port
                    == g[i] && r->Ok_0@[i].http_port == p[i]
        },
    }
}

impl AppConfig {
    /// Builds the pool of nodes from the three settings that list hosts,
    /// control ports and status ports.
    pub fn load_node_sockets(
        hosts: &Option<String>,
        grpc_ports: &Option<String>,
        http_ports: &Option<String>,
    ) -> (r: Result<Vec<NodeSocket>, NodeListError>)
        ensures
            spec_node_sockets(r, *hosts, *grpc_ports, *http_ports),
    {
        let h = match read_text_list(hosts) {
            Err(e) => {
                return Err(NodeListError::Hosts(e));
            },
            Ok(h) => h,
        };
        let g = match read_port_list(grpc_ports) {
            Err(e) => {
                return Err(NodeListError::GrpcPorts(e));
            },
            Ok(g) => g,
        };
        let p = match read_port_list(http_ports) {
            Err(e) => {
                return Err(NodeListError::HttpPorts(e));
            },
            Ok(p) => p,
        };
        match build_pool(&h, &g, &p) {
            Err(e) => Err(NodeListError::Pool(e)),
            Ok(pool) => Ok(pool),
        }
    }

    /// The configuration that the settings give. A number that is missing,
    /// is no number or does not fit its field takes its default, a missing
    /// host its default; settings that describe no pool give an empty one.
    pub fn from_settings(raw: RawSettings) -> (c: AppConfig)
        ensures
            c.faucet_amount == number_or(raw.faucet_amount, 0xffff_ffff_ffff_ffff, 10000),
            c.faucet_max_balance == number_or(raw.faucet_max_balance, 0xffff_ffff_ffff_ffff, 20000),
            c.private_key == raw.private_key,
            describes_pool(raw.node_hosts, raw.node_grpc_ports, raw.node_http_ports)
                ==> spec_node_sockets(
                Ok(c.node_sockets),
                raw.node_hosts,
                raw.node_grpc_ports,
                raw.node_http_ports,
            ),
            !describes_pool(raw.node_hosts, raw.node_grpc_ports, raw.node_http_ports)
                ==> c.node_sockets@.len() == 0,
            c.readonly_host@ == text_or(raw.readonly_host, "localhost"@),
            c.readonly_grpc_port == number_or(raw.readonly_grpc_port, 0xffff, 40452),
            c.readonly_http_port == number_or(raw.readonly_http_port, 0xffff, 40453),
            c.server_host@ == text_or(raw.server_host, "0.0.0.0"@),
            c.server_port == number_or(raw.server_port, 0xffff, 8000),
            c.deploy_max_wait_sec == number_or(raw.deploy_max_wait_sec, 0xffff_ffff, 6),
            c.deploy_check_interval_sec == number_or(
                raw.deploy_check_interval_sec,
                0xffff_ffff,
                2,
            ),
    {
        let node_sockets = match AppConfig::load_node_sockets(
            &raw.node_hosts,
            &raw.node_grpc_ports,
            &raw.node_http_ports,
        ) {
            Ok(pool) => pool,
            Err(_) => Vec::new(),
        };
        AppConfig {
            faucet_amount: read_number_or(&raw.faucet_amount, 0xffff_ffff_ffff_ffff, 10000) as u64,
            faucet_max_balance: read_number_or(
                &raw.faucet_max_balance,
                0xffff_ffff_ffff_ffff,
                20000,
            ) as u64,
            private_key: raw.private_key,
            node_sockets,
            readonly_host: read_text_or(raw.readonly_host, "localhost"),
            readonly_grpc_port: read_number_or(&raw.readonly_grpc_port, 0xffff, 40452) as u16,
            readonly_http_port: read_number_or(&raw.readonly_http_port, 0xffff, 40453) as u16,
            server_host: read_text_or(raw.server_host, "0.0.0.0"),
            server_port: read_number_or(&raw.server_port, 0xffff, 8000) as u16,
            deploy_max_wait_sec: read_number_or(&raw.deploy_max_wait_sec, 0xffff_ffff, 6) as u32,
            deploy_check_interval_sec: read_number_or(
                &raw.deploy_check_interval_sec,
                0xffff_ffff,
                2,
            ) as u32,
        }
    }

    /// The first fault of a configuration: a missing credential, then an
    /// amount of zero.
    pub open spec fn fault(&self) -> Option<ConfigError> {
        if self.private_key is None {
            Some(ConfigError::MissingPrivateKey)
        } else if self.faucet_amount == 0 {
            Some(ConfigError::ZeroFaucetAmount)
        } else {
            None
        }
    }

    pub open spec fn spec_server_address(&self) -> Seq<char> {
        self.server_host@ + seq![':'] + decimal(self.server_port as nat)
    }

    /// Accepts a configuration that has a credential and a positive amount.
    pub fn validate(&self) -> (r: Result<(), ConfigError>)
        ensures
            match self.fault() {
                Some(e) => r == Err::<(), ConfigError>(e),
                None => r is Ok,
            },
    {
        if self.private_key.is_none() {
            return Err(ConfigError::MissingPrivateKey);
        }
        if self.faucet_amount == 0 {
            return Err(ConfigError::ZeroFaucetAmount);
        }
        Ok(())
    }

    /// The address to listen on: the host, a colon, the port in decimal.
    pub fn server_address(&self) -> (r: String)
        ensures
            r@ == self.spec_server_address(),
    {
        let mut out = self.server_host.clone();
        proof {
            reveal_strlit(":");
        }
        out.append(":");
        assert(out@ =~= self.server_host@ + seq![':']);
        push_decimal(&mut out, self.server_port);
        out
    }

    /// The balance limit in base units.
    pub fn max_allowed_balance(&self) -> (r: u128)
        ensures
            r == spec_base_units(self.faucet_max_balance),
    {
        base_units(self.faucet_max_balance)
    }

    /// The polling budget for confirmations, unless the interval is zero.
    pub fn polling_budget(&self) -> (r: Option<PollingBudget>)
        ensures
            self.deploy_check_interval_sec == 0 <==> r is None,
            r is Some ==> r->Some_0 == (PollingBudget {
                max_wait_seconds: self.deploy_max_wait_sec,
                check_interval_seconds: self.deploy_check_interval_sec,
            }),
    {
        PollingBudget::new(self.deploy_max_wait_sec, self.deploy_check_interval_sec)
    }
}

} // verus!
