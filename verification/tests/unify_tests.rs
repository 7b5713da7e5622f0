use chain_proxy::config::{Chain, Config, HealthCheck, Monitor, Node};
use chain_proxy::unify::{UnifyError, UnifyProxyApp, UnifyProxyConfig};

fn demo_config() -> Config {
    let chain = Chain::new(
        "mainnet".to_string(),
        "jsonrpc".to_string(),
        "ethereum".to_string(),
        1090,
        20,
        20,
        false,
        vec![Node::new(
            "https://example.com/ethereum".to_string(),
            1,
            None,
            None,
            None,
        )],
        HealthCheck::new("/health".to_string(), "POST".to_string(), String::new()),
        None,
    );
    Config::new(
        vec![chain],
        Vec::new(),
        Monitor::new(1018, "test".to_string()),
        Some(8888),
    )
}

#[test]
fn test_unify_demux() {
    let app = UnifyProxyApp::new(UnifyProxyConfig::from_config(&demo_config()));
    let d = app.unify_decision("/ethereum/mainnet/health").unwrap();
    assert_eq!(d.port, 1090);
    assert_eq!(d.new_path.as_str(), "/health");
    assert_eq!(d.host.as_str(), "127.0.0.1");
}

#[test]
fn test_unify_deep_tail() {
    let app = UnifyProxyApp::new(UnifyProxyConfig::from_config(&demo_config()));
    let d = app.unify_decision("/ethereum/mainnet/v1/status?x=1").unwrap();
    assert_eq!(d.port, 1090);
    // The query rides along inside the tail; only the two leading
    // segments are stripped.
    assert_eq!(d.new_path.as_str(), "/v1/status?x=1");
}

#[test]
fn test_unify_no_tail_keeps_path() {
    let app = UnifyProxyApp::new(UnifyProxyConfig::from_config(&demo_config()));
    let d = app.unify_decision("/ethereum/mainnet").unwrap();
    assert_eq!(d.port, 1090);
    assert_eq!(d.new_path.as_str(), "/ethereum/mainnet");
}

#[test]
fn test_unify_invalid_path() {
    let app = UnifyProxyApp::new(UnifyProxyConfig::from_config(&demo_config()));
    let e = app.unify_decision("/ethereum").unwrap_err();
    assert_eq!(e, UnifyError::InvalidRequestPath);
    assert_eq!(e.reason(), "Invalid request path");
    assert_eq!(app.unify_decision("/").unwrap_err(), UnifyError::InvalidRequestPath);
    assert_eq!(app.unify_decision("").unwrap_err(), UnifyError::InvalidRequestPath);
}

#[test]
fn test_unify_unknown_chain() {
    let app = UnifyProxyApp::new(UnifyProxyConfig::from_config(&demo_config()));
    let e = app.unify_decision("/solana/mainnet/health").unwrap_err();
    assert_eq!(e, UnifyError::NoMatchingChain);
    assert_eq!(e.reason(), "No matching chain found");
    // The name match is as strict as the type match.
    assert_eq!(
        app.unify_decision("/ethereum/testnet/health").unwrap_err(),
        UnifyError::NoMatchingChain
    );
}

#[test]
fn test_unify_config_ports() {
    let cfg = UnifyProxyConfig::from_config(&demo_config());
    assert_eq!(cfg.get_port("ethereum", "mainnet"), Some(1090));
    assert_eq!(cfg.get_port("ethereum", "other"), None);
    assert_eq!(cfg.listen_port(), 8888);
    let mut plain = demo_config();
    plain.unify_proxy_listen_port = None;
    assert_eq!(UnifyProxyConfig::from_config(&plain).listen_port(), 9999);
}

#[test]
fn test_unify_config_last_chain_wins() {
    // Two chains under the same (type, name): the later one's port wins,
    // as a reload that reuses a pair would expect.
    let mut cfg = demo_config();
    let again = Chain::new(
        "mainnet".to_string(),
        "jsonrpc".to_string(),
        "ethereum".to_string(),
        1091,
        20,
        20,
        false,
        Vec::new(),
        HealthCheck::new("/health".to_string(), "POST".to_string(), String::new()),
        None,
    );
    cfg.chains.push(again);
    let ports = UnifyProxyConfig::from_config(&cfg);
    assert_eq!(ports.get_port("ethereum", "mainnet"), Some(1091));
}

