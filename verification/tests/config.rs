use asi_faucet::config::{AppConfig, ConfigError};
use asi_faucet::confirm::PollingBudget;
use asi_faucet::node::{build_pool, validate_deploy_id, NodeSocket, PoolError};
use asi_faucet::service::NodeCliService;

fn config() -> AppConfig {
    AppConfig {
        faucet_amount: 10000,
        faucet_max_balance: 20000,
        private_key: Some("key".to_string()),
        node_sockets: vec![NodeSocket { host: "n1".to_string(), grpc_port: 40401, http_port: 40403 }],
        readonly_host: "localhost".to_string(),
        readonly_grpc_port: 40452,
        readonly_http_port: 40453,
        server_host: "0.0.0.0".to_string(),
        server_port: 8000,
        deploy_max_wait_sec: 6,
        deploy_check_interval_sec: 2,
    }
}

#[test]
fn valid_config_passes() {
    assert_eq!(config().validate(), Ok(()));
}

#[test]
fn missing_private_key_is_refused_first() {
    let mut c = config();
    c.private_key = None;
    c.faucet_amount = 0;
    assert_eq!(c.validate(), Err(ConfigError::MissingPrivateKey));
    assert_eq!(
        ConfigError::MissingPrivateKey.message(),
        "PRIVATE_KEY environment variable is required"
    );
}

#[test]
fn zero_amount_is_refused() {
    let mut c = config();
    c.faucet_amount = 0;
    assert_eq!(c.validate(), Err(ConfigError::ZeroFaucetAmount));
    assert_eq!(ConfigError::ZeroFaucetAmount.message(), "FAUCET_AMOUNT must be greater than 0");
}

#[test]
fn server_address_joins_host_and_port() {
    let mut c = config();
    assert_eq!(c.server_address(), "0.0.0.0:8000");
    c.server_port = 0;
    assert_eq!(c.server_address(), "0.0.0.0:0");
    c.server_port = 65535;
    c.server_host = "faucet.example".to_string();
    assert_eq!(c.server_address(), "faucet.example:65535");
    c.server_port = 9;
    assert_eq!(c.server_address(), "faucet.example:9");
    c.server_port = 1005;
    assert_eq!(c.server_address(), "faucet.example:1005");
}

#[test]
fn limit_is_scaled_to_base_units() {
    assert_eq!(config().max_allowed_balance(), 2_000_000_000_000);
}

#[test]
fn polling_budget_comes_from_the_config() {
    let mut c = config();
    assert_eq!(
        c.polling_budget(),
        Some(PollingBudget { max_wait_seconds: 6, check_interval_seconds: 2 })
    );
    c.deploy_check_interval_sec = 0;
    assert_eq!(c.polling_budget(), None);
}

#[test]
fn deploy_id_needs_100_to_160_alphanumerics() {
    assert!(!validate_deploy_id(&"a".repeat(99)));
    assert!(validate_deploy_id(&"a".repeat(100)));
    assert!(validate_deploy_id(&"Z9".repeat(80)));
    assert!(!validate_deploy_id(&"a".repeat(161)));
    assert!(!validate_deploy_id(""));
    let mut with_dash = "a".repeat(120);
    with_dash.push('-');
    assert!(!validate_deploy_id(&with_dash));
    let mut with_accent = "a".repeat(120);
    with_accent.push('é');
    assert!(!validate_deploy_id(&with_accent));
    for c in ['/', ':', '@', '[', '`', '{', ' '] {
        let mut s = "b".repeat(100);
        s.push(c);
        assert!(!validate_deploy_id(&s), "{:?}", c);
    }
    for c in ['0', '9', 'A', 'Z', 'a', 'z'] {
        let mut s = "b".repeat(100);
        s.push(c);
        assert!(validate_deploy_id(&s), "{:?}", c);
    }
}

#[test]
fn pool_pairs_hosts_with_ports() {
    let hosts = vec!["a".to_string(), "b".to_string()];
    let pool = build_pool(&hosts, &vec![1, 2], &vec![3, 4]).unwrap();
    assert_eq!(pool.len(), 2);
    assert_eq!((pool[0].host.as_str(), pool[0].grpc_port, pool[0].http_port), ("a", 1, 3));
    assert_eq!((pool[1].host.as_str(), pool[1].grpc_port, pool[1].http_port), ("b", 2, 4));
}

#[test]
fn pool_refuses_empty_and_uneven_lists() {
    let hosts = vec!["a".to_string(), "b".to_string()];
    assert_eq!(build_pool(&Vec::new(), &vec![1], &vec![2]).unwrap_err(), PoolError::Empty);
    assert_eq!(build_pool(&hosts, &Vec::new(), &vec![2]).unwrap_err(), PoolError::Empty);
    assert_eq!(build_pool(&hosts, &vec![1], &Vec::new()).unwrap_err(), PoolError::Empty);
    assert_eq!(build_pool(&hosts, &vec![1], &vec![2, 3]).unwrap_err(), PoolError::LengthMismatch);
    assert_eq!(build_pool(&hosts, &vec![1, 2], &vec![3]).unwrap_err(), PoolError::LengthMismatch);
}

#[test]
fn transfer_args_carry_the_policy() {
    let service = NodeCliService::new(config());
    let node = NodeSocket { host: "n7".to_string(), grpc_port: 1, http_port: 2 };
    let args = service.transfer_args("addr", "secret".to_string(), &node);
    assert_eq!(args.to_address, "addr");
    assert_eq!(args.amount, 10000);
    assert_eq!(args.private_key, "secret");
    assert_eq!((args.host.as_str(), args.port, args.http_port), ("n7", 1, 2));
    assert!(args.bigger_phlo);
    assert!(!args.propose);
    assert_eq!((args.max_wait, args.check_interval), (60, 5));
    assert_eq!(args.reader_validator_host.as_deref(), Some("localhost"));
    assert_eq!(args.reader_validator_port, Some(40452));
}

#[test]
fn wait_args_derive_the_attempts() {
    let service = NodeCliService::new(config());
    let args = service.wait_args();
    assert_eq!(args.private_key, "key");
    assert_eq!(args.max_attempts, 3);
    assert_eq!(args.check_interval, 2);
    assert_eq!((args.http_args.host.as_str(), args.http_args.port), ("localhost", 40453));
    assert_eq!(args.reader_validator_host, "localhost");
    assert_eq!(args.reader_validator_grpc_port, 40452);
    let balance = service.balance_args("1111abc");
    assert_eq!((balance.address.as_str(), balance.host.as_str(), balance.port), ("1111abc", "localhost", 40452));
    assert_eq!(service.settings().faucet_amount, 10000);
}

#[test]
fn state_keeps_config_and_start_time() {
    let started = std::time::Instant::now();
    let state = asi_faucet::state::AppState::new(config(), started);
    assert_eq!(state.start_time, started);
    assert_eq!(state.config.server_port, 8000);
    let copy = state.clone();
    assert_eq!(copy.start_time, started);
    assert_eq!(copy.config.faucet_amount, 10000);
}

#[test]
fn pool_errors_in_words() {
    assert_eq!(
        PoolError::Empty.message(),
        "NODE_HOSTS, NODE_GRPC_PORTS, and NODE_HTTP_PORTS must be set and non-empty"
    );
    assert_eq!(
        PoolError::LengthMismatch.message(),
        "NODE_HOSTS, NODE_GRPC_PORTS, and NODE_HTTP_PORTS must have the same length"
    );
}
