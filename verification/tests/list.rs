use asi_faucet::config::{AppConfig, NodeListError, RawSettings};
use asi_faucet::list::{
    parse_port, parse_text_list, read_port_list, read_text_list, ListError,
};
use asi_faucet::node::PoolError;

fn std_items(raw: &str) -> Option<Vec<String>> {
    let trimmed = raw.trim();
    if !trimmed.starts_with('[') || !trimmed.ends_with(']') {
        return None;
    }
    let inner = &trimmed[1..trimmed.len() - 1];
    Some(inner.split(',').map(|s| s.trim().trim_matches('"').to_string()).collect())
}

#[test]
fn text_list_exact_items() {
    assert_eq!(
        parse_text_list(r#"["node1.example", "node2.example"]"#),
        Some(vec!["node1.example".to_string(), "node2.example".to_string()])
    );
    assert_eq!(parse_text_list("[]"), Some(vec![String::new()]));
    assert_eq!(parse_text_list("[a,]"), Some(vec!["a".to_string(), String::new()]));
    assert_eq!(parse_text_list("  [ x ]\n"), Some(vec!["x".to_string()]));
    assert_eq!(parse_text_list(r#"["" q ""]"#), Some(vec![" q ".to_string()]));
    assert_eq!(parse_text_list("a, b"), None);
    assert_eq!(parse_text_list("["), None);
    assert_eq!(parse_text_list("]"), None);
    assert_eq!(parse_text_list(""), None);
    assert_eq!(parse_text_list("[a"), None);
}

#[test]
fn text_list_agrees_with_std() {
    for raw in [
        "[]",
        "[,]",
        "[ , ,, ]",
        r#"["a","b"]"#,
        r#" [ "a" , b" , ""c"" , " d " ] "#,
        "\u{a0}[\u{2003}é\u{3000},\t\"ü\"\r\n]\u{85}",
        "[[1],[2]]",
        "[\"]",
        "[\"\"\"]",
        "x[1]",
        "[1]x",
        "[",
        "  ",
        "[\u{200b}a\u{200b}]",
    ] {
        assert_eq!(parse_text_list(raw), std_items(raw), "{:?}", raw);
    }
}

#[test]
fn port_exact_values() {
    assert_eq!(parse_port("40401"), Some(40401));
    assert_eq!(parse_port("+1"), Some(1));
    assert_eq!(parse_port("65535"), Some(65535));
    assert_eq!(parse_port("65536"), None);
    assert_eq!(parse_port(""), None);
    assert_eq!(parse_port("80a"), None);
    assert_eq!(parse_port("999999999999999999999999999999999999999999"), None);
    for text in ["0", "00080", "65535", "65536", "-1", "+", "8 0"] {
        assert_eq!(parse_port(text), text.parse::<u16>().ok(), "{:?}", text);
    }
}

#[test]
fn port_list_errors() {
    assert_eq!(read_port_list(&None), Err(ListError::NotSet));
    assert_eq!(read_port_list(&Some("1,2".to_string())), Err(ListError::NotAnArray));
    assert_eq!(read_port_list(&Some("[1, x]".to_string())), Err(ListError::BadItem));
    assert_eq!(read_port_list(&Some("[]".to_string())), Err(ListError::BadItem));
    assert_eq!(read_port_list(&Some("[40401, \"40411\"]".to_string())), Ok(vec![40401, 40411]));
    assert_eq!(read_text_list(&None), Err(ListError::NotSet));
    assert_eq!(read_text_list(&Some("x".to_string())), Err(ListError::NotAnArray));
}

fn some(s: &str) -> Option<String> {
    Some(s.to_string())
}

#[test]
fn node_sockets_from_three_lists() {
    let pool = AppConfig::load_node_sockets(
        &some(r#"["a", "b"]"#),
        &some("[1, 2]"),
        &some("[3, 4]"),
    )
    .unwrap();
    assert_eq!(pool.len(), 2);
    assert_eq!((pool[0].host.as_str(), pool[0].grpc_port, pool[0].http_port), ("a", 1, 3));
    assert_eq!((pool[1].host.as_str(), pool[1].grpc_port, pool[1].http_port), ("b", 2, 4));
}

#[test]
fn node_sockets_first_fault_wins() {
    let e = |h: Option<String>, g: Option<String>, p: Option<String>| {
        AppConfig::load_node_sockets(&h, &g, &p).unwrap_err()
    };
    assert_eq!(e(None, None, None), NodeListError::Hosts(ListError::NotSet));
    assert_eq!(e(some("a"), None, None), NodeListError::Hosts(ListError::NotAnArray));
    assert_eq!(e(some("[a]"), None, None), NodeListError::GrpcPorts(ListError::NotSet));
    assert_eq!(e(some("[a]"), some("[x]"), None), NodeListError::GrpcPorts(ListError::BadItem));
    assert_eq!(e(some("[a]"), some("[1]"), some("1")), NodeListError::HttpPorts(ListError::NotAnArray));
    assert_eq!(
        e(some("[a,b]"), some("[1]"), some("[1,2]")),
        NodeListError::Pool(PoolError::LengthMismatch)
    );
}

fn unset() -> RawSettings {
    RawSettings {
        faucet_amount: None,
        faucet_max_balance: None,
        private_key: None,
        node_hosts: None,
        node_grpc_ports: None,
        node_http_ports: None,
        readonly_host: None,
        readonly_grpc_port: None,
        readonly_http_port: None,
        server_host: None,
        server_port: None,
        deploy_max_wait_sec: None,
        deploy_check_interval_sec: None,
    }
}

#[test]
fn missing_settings_take_their_defaults() {
    let c = AppConfig::from_settings(unset());
    assert_eq!((c.faucet_amount, c.faucet_max_balance), (10000, 20000));
    assert_eq!(c.private_key, None);
    assert!(c.node_sockets.is_empty());
    assert_eq!((c.readonly_host.as_str(), c.readonly_grpc_port, c.readonly_http_port), ("localhost", 40452, 40453));
    assert_eq!((c.server_host.as_str(), c.server_port), ("0.0.0.0", 8000));
    assert_eq!((c.deploy_max_wait_sec, c.deploy_check_interval_sec), (6, 2));
    assert_eq!(c.server_address(), "0.0.0.0:8000");
}

#[test]
fn settings_override_defaults_where_they_fit() {
    let mut raw = unset();
    raw.faucet_amount = some("18446744073709551615");
    raw.faucet_max_balance = some("18446744073709551616");
    raw.private_key = some("k");
    raw.node_hosts = some("[h]");
    raw.node_grpc_ports = some("[1]");
    raw.node_http_ports = some("[2]");
    raw.readonly_host = some("ro");
    raw.readonly_grpc_port = some("65536");
    raw.readonly_http_port = some("9");
    raw.server_host = some("::1");
    raw.server_port = some("eighty");
    raw.deploy_max_wait_sec = some("4294967295");
    raw.deploy_check_interval_sec = some("4294967296");
    let c = AppConfig::from_settings(raw);
    assert_eq!((c.faucet_amount, c.faucet_max_balance), (u64::MAX, 20000));
    assert_eq!(c.private_key.as_deref(), Some("k"));
    assert_eq!(c.node_sockets.len(), 1);
    assert_eq!(c.node_sockets[0].host, "h");
    assert_eq!((c.readonly_host.as_str(), c.readonly_grpc_port, c.readonly_http_port), ("ro", 40452, 9));
    assert_eq!((c.server_host.as_str(), c.server_port), ("::1", 8000));
    assert_eq!((c.deploy_max_wait_sec, c.deploy_check_interval_sec), (u32::MAX, 2));
}
