use chain_proxy::capture::{request_body_filter, upstream_response_body_filter, ProxyCtx};
use chain_proxy::health::{chain_health_check_for, ChainHealthCheck, CommonHealthCheck, ProbeError};
use chain_proxy::selector::ChainProxyConfig;
use chain_proxy::registry::{init_chain_checker, ChainChecker, ChainCheckerRegistry};
use chain_proxy::state::{ChainState, NodeState};
use chain_proxy::validators::{ValidatorError, ValidatorKind};

#[test]
fn test_chain_state_updates() {
    let mut state = ChainState::new("eth");
    assert_eq!(state.chain_name(), "eth");
    assert_eq!(state.get_block_number("https://a/x"), None);
    assert_eq!(state.max_block_number(), 0);
    state.update_block_number("https://a/x", 100);
    state.update_block_number("https://b/x", 94);
    assert_eq!(state.get_block_number("https://a/x"), Some(100));
    assert_eq!(state.get_block_number("https://b/x"), Some(94));
    assert_eq!(state.max_block_number(), 100);
    state.update_block_number("https://a/x", 101);
    assert_eq!(state.get_block_number("https://a/x"), Some(101));
    assert_eq!(state.max_block_number(), 101);
    assert_eq!(state.get_block_numbers().len(), 2);
}

#[test]
fn test_probe_twice_same_tip() {
    // Recording the same tip twice leaves every lookup as after the
    // first recording.
    let mut state = ChainState::new("eth");
    state.update_block_number("https://a/x", 100);
    state.update_block_number("https://b/x", 94);
    let a1 = state.get_block_number("https://a/x");
    let b1 = state.get_block_number("https://b/x");
    state.update_block_number("https://a/x", 100);
    assert_eq!(state.get_block_number("https://a/x"), a1);
    assert_eq!(state.get_block_number("https://b/x"), b1);
    assert_eq!(state.max_block_number(), 100);
}

#[test]
fn test_node_state_updates() {
    let mut state = NodeState::new("common1");
    assert!(!state.is_healthy("https://a/x"));
    state.update_health_status("https://a/x", true);
    state.update_health_status("https://b/x", false);
    assert!(state.is_healthy("https://a/x"));
    assert!(!state.is_healthy("https://b/x"));
    state.update_health_status("https://a/x", false);
    assert!(!state.is_healthy("https://a/x"));
}

#[test]
fn test_checker_registry() {
    let registry = init_chain_checker();
    let eth = registry.get_chain_checker("ethereum").unwrap();
    assert_eq!(eth.validator, ValidatorKind::Ethereum);
    let body = String::from_utf8(eth.request_body.clone()).unwrap();
    assert!(body.contains("eth_blockNumber"));
    assert!(body.contains("\"jsonrpc\":\"2.0\""));

    let bitcoin = registry.get_chain_checker("bitcoin").unwrap();
    assert_eq!(bitcoin.validator, ValidatorKind::Bitcoin);
    assert!(String::from_utf8(bitcoin.request_body.clone()).unwrap().contains("getblockcount"));

    assert_eq!(registry.get_chain_checker("ripple").unwrap().validator, ValidatorKind::Ripple);
    assert_eq!(registry.get_chain_checker("cosmos").unwrap().validator, ValidatorKind::Cosmos);
    assert!(registry.get_chain_checker("cosmos").unwrap().request_body.is_empty());
    assert_eq!(registry.get_chain_checker("cardano").unwrap().validator, ValidatorKind::Rosetta);
    assert_eq!(registry.get_chain_checker("icp").unwrap().validator, ValidatorKind::Rosetta);
    assert_eq!(registry.get_chain_checker("solana").unwrap().validator, ValidatorKind::Solana);
    assert_eq!(registry.get_chain_checker("tron").unwrap().validator, ValidatorKind::Tron);
    assert_eq!(
        registry.get_chain_checker("tron_grpc").unwrap().validator,
        ValidatorKind::TronGrpc
    );
    assert_eq!(registry.get_chain_checker("stellar").unwrap().validator, ValidatorKind::Stellar);
    assert_eq!(
        registry.get_chain_checker("algorand").unwrap().validator,
        ValidatorKind::Algorand
    );
    assert_eq!(registry.get_chain_checker("ton").unwrap().validator, ValidatorKind::Ton);
    assert_eq!(
        registry.get_chain_checker("polkadot").unwrap().validator,
        ValidatorKind::Polkadot
    );
    assert!(registry.get_chain_checker("unknown-chain").is_none());
}

#[test]
fn test_chain_probe_request() {
    let check = ChainHealthCheck::new("https://node.example/rpc", "/health", "POST")
        .with_basic_auth("user", "pass")
        .with_custom_headers(vec![("x-api-key".to_string(), "k1".to_string())])
        .with_request_body(b"{}".to_vec());
    let req = check.probe_request();
    assert_eq!(req.method.as_str(), "POST");
    assert_eq!(req.url.as_str(), "https://node.example/rpc/health");
    assert_eq!(req.timeout_secs, 60);
    assert_eq!(req.body.as_deref(), Some(b"{}".as_slice()));
    assert_eq!(req.headers.len(), 3);
    assert_eq!(req.headers[0].0.as_str(), "Content-Type");
    assert_eq!(req.headers[0].1.as_str(), "application/json");
    assert_eq!(req.headers[1].0.as_str(), "Authorization");
    // base64("user:pass") under the standard alphabet.
    assert_eq!(req.headers[1].1.as_str(), "Basic dXNlcjpwYXNz");
    assert_eq!(req.headers[2].0.as_str(), "x-api-key");
    assert_eq!(req.headers[2].1.as_str(), "k1");
}

#[test]
fn test_chain_probe_evaluate() {
    let plain = ChainHealthCheck::new("https://node.example", "", "GET");
    assert_eq!(plain.evaluate(200, b"whatever"), Ok(None));
    assert_eq!(plain.evaluate(204, b""), Ok(None));
    assert_eq!(plain.evaluate(404, b""), Err(ProbeError::Status(404)));
    assert_eq!(plain.evaluate(500, b""), Err(ProbeError::Status(500)));

    let checked = ChainHealthCheck::new("https://node.example", "", "POST")
        .with_response_body_validator(ValidatorKind::Ethereum);
    assert_eq!(
        checked.evaluate(200, br#"{"jsonrpc":"2.0","id":1,"result":"0x10"}"#),
        Ok(Some(16))
    );
    assert_eq!(
        checked.evaluate(200, b"not json"),
        Err(ProbeError::Validator(ValidatorError::InvalidJson))
    );
    assert_eq!(checked.evaluate(502, b"ignored"), Err(ProbeError::Status(502)));
    assert_eq!(checked.health_threshold(true), 1);
    assert_eq!(checked.health_threshold(false), 1);
}

#[test]
fn test_common_probe() {
    let check = CommonHealthCheck::new("https://svc.example", "/ping", "GET")
        .with_request_body(b"test".to_vec());
    let req = check.probe_request();
    assert_eq!(req.url.as_str(), "https://svc.example/ping");
    assert_eq!(req.method.as_str(), "GET");
    assert_eq!(req.body.as_deref(), Some(b"test".as_slice()));
    assert_eq!(req.headers.len(), 1);
    assert!(check.evaluate(200));
    assert!(check.evaluate(299));
    assert!(!check.evaluate(300));
    assert!(!check.evaluate(404));
    assert!(!check.evaluate(199));
}

#[test]
fn test_body_capture() {
    let mut ctx = ProxyCtx::new();
    let chunk1 = b"hello ".to_vec();
    let chunk2 = b"world".to_vec();
    request_body_filter(&mut ctx, Some(&chunk1), true);
    request_body_filter(&mut ctx, Some(&chunk2), true);
    request_body_filter(&mut ctx, None, true);
    assert_eq!(ctx.request_body.as_slice(), b"hello world");
    upstream_response_body_filter(&mut ctx, Some(&chunk2), false);
    assert!(ctx.response_body.is_empty());
    upstream_response_body_filter(&mut ctx, Some(&chunk2), true);
    assert_eq!(ctx.response_body.as_slice(), b"world");
}

fn upstream_config(chain_type: &str, body: Option<&[u8]>) -> ChainProxyConfig {
    ChainProxyConfig {
        proxy_addr: "node.example:443".to_string(),
        proxy_tls: true,
        proxy_hostname: "node.example".to_string(),
        proxy_uri: "https://node.example/rpc".to_string(),
        priority: 1,
        path: "/health".to_string(),
        method: "POST".to_string(),
        request_body: body.map(|b| b.to_vec()),
        interval: 20,
        block_gap: 20,
        chain_type: chain_type.to_string(),
        log_request_detail: false,
        username: Some("user".to_string()),
        password: Some("pass".to_string()),
        custom_headers: None,
    }
}

#[test]
fn test_chain_health_check_for_registered_type() {
    // A registered chain type wins: its validator and probe body replace
    // the configured body.
    let registry = init_chain_checker();
    let config = upstream_config("ethereum", Some(b"configured"));
    let check = chain_health_check_for(&config, &registry);
    assert_eq!(check.validator, Some(ValidatorKind::Ethereum));
    let body = String::from_utf8(check.request_body.clone().unwrap()).unwrap();
    assert!(body.contains("eth_blockNumber"));
    assert_eq!(check.request_url.as_str(), "https://node.example/rpc/health");
    assert_eq!(check.host.as_str(), "https://node.example/rpc");
    let auth = check.authorization.clone().unwrap();
    assert_eq!(auth.0.as_str(), "user");
    assert_eq!(auth.1.as_str(), "pass");
}

#[test]
fn test_chain_health_check_for_unknown_type() {
    // An unknown chain type keeps the configured body and no validator:
    // any success status counts as healthy.
    let registry = init_chain_checker();
    let config = upstream_config("unknown-chain", Some(b"configured"));
    let check = chain_health_check_for(&config, &registry);
    assert_eq!(check.validator, None);
    assert_eq!(check.request_body.as_deref(), Some(b"configured".as_slice()));
    assert_eq!(check.evaluate(200, b"anything"), Ok(None));
}

#[test]
fn test_registry_later_registration_shadows() {
    let mut registry = ChainCheckerRegistry::new();
    registry.register_chain_checker(
        "demo",
        ChainChecker { validator: ValidatorKind::Ethereum, request_body: b"one".to_vec() },
    );
    registry.register_chain_checker(
        "demo",
        ChainChecker { validator: ValidatorKind::Bitcoin, request_body: b"two".to_vec() },
    );
    let c = registry.get_chain_checker("demo").unwrap();
    assert_eq!(c.validator, ValidatorKind::Bitcoin);
    assert_eq!(c.request_body.as_slice(), b"two");
}

