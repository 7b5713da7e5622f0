use chain_proxy::metrics::proxy_result_labels;
use chain_proxy::selector::{
    build_peer, find_special_route, rewrite_uri, AlpnChoice, ChainProxyConfig, ProxySelector,
    SelectError, SpecialMethodConfig,
};
use chain_proxy::state::{ChainState, NodeState};

fn node(uri: &str, hostname: &str, priority: i32, block_gap: u64) -> ChainProxyConfig {
    ChainProxyConfig {
        proxy_addr: format!("{}:443", hostname),
        proxy_tls: true,
        proxy_hostname: hostname.to_string(),
        proxy_uri: uri.to_string(),
        priority,
        path: "/health".to_string(),
        method: "POST".to_string(),
        request_body: None,
        interval: 10,
        block_gap,
        chain_type: "ethereum".to_string(),
        log_request_detail: false,
        username: None,
        password: None,
        custom_headers: None,
    }
}

fn selector_for(protocol: &str, configs: Vec<ChainProxyConfig>) -> ProxySelector {
    let keys = configs.iter().map(|c| c.proxy_uri.clone()).collect();
    ProxySelector::new(
        "eth".to_string(),
        protocol.to_string(),
        false,
        configs,
        Vec::new(),
        keys,
    )
}

#[test]
fn test_block_gap_eligibility() {
    // Chain "eth", nodes A and B with gap 5; A at 100, B at 94: only A wins.
    let a = node("https://a.example/rpc", "a.example", 1, 5);
    let b = node("https://b.example/rpc", "b.example", 1, 5);
    let sel = selector_for("jsonrpc", vec![a, b]);
    let mut state = ChainState::new("eth");
    state.update_block_number("https://a.example/rpc", 100);
    state.update_block_number("https://b.example/rpc", 94);
    for _ in 0..50 {
        let r = sel
            .upstream_decision_chain(state.get_block_numbers(), None, "/", None)
            .unwrap();
        assert_eq!(r.index, 0);
        assert_eq!(r.host_header.as_str(), "a.example");
        assert_eq!(r.uri.as_str(), "https://a.example/rpc");
    }
}

#[test]
fn test_boundary_gap_is_eligible() {
    // B lags by exactly the gap: still eligible.
    let a = node("https://a.example/rpc", "a.example", 0, 5);
    let b = node("https://b.example/rpc", "b.example", 1, 5);
    let sel = selector_for("jsonrpc", vec![a, b]);
    let mut state = ChainState::new("eth");
    state.update_block_number("https://a.example/rpc", 100);
    state.update_block_number("https://b.example/rpc", 95);
    let r = sel
        .upstream_decision_chain(state.get_block_numbers(), None, "/", None)
        .unwrap();
    assert_eq!(r.index, 1);
}

#[test]
fn test_priority_tie_break_uniform() {
    // A and B share top priority, C is lower: over 20000 requests A and B
    // each get roughly half and C none.
    let a = node("https://a.example/rpc", "a.example", 1, 50);
    let b = node("https://b.example/rpc", "b.example", 1, 50);
    let c = node("https://c.example/rpc", "c.example", 0, 50);
    let sel = selector_for("jsonrpc", vec![a, b, c]);
    let mut state = ChainState::new("eth");
    state.update_block_number("https://a.example/rpc", 100);
    state.update_block_number("https://b.example/rpc", 100);
    state.update_block_number("https://c.example/rpc", 100);
    let mut counts = [0u32; 3];
    for _ in 0..20000 {
        let r = sel
            .upstream_decision_chain(state.get_block_numbers(), None, "/", None)
            .unwrap();
        counts[r.index] += 1;
    }
    assert_eq!(counts[2], 0);
    assert!(counts[0] >= 9500 && counts[0] <= 10500, "a chosen {} times", counts[0]);
    assert!(counts[1] >= 9500 && counts[1] <= 10500, "b chosen {} times", counts[1]);
}

#[test]
fn test_special_method_override() {
    // The special route wins even when its node lags far behind.
    let a = node("https://a.example/rpc", "a.example", 1, 5);
    let b = node("https://b.example/rpc", "b.example", 1, 5);
    let d = node("https://d.example/rpc", "d.example", 1, 5);
    let keys = vec![
        a.proxy_uri.clone(),
        b.proxy_uri.clone(),
        d.proxy_uri.clone(),
    ];
    let routes = vec![SpecialMethodConfig {
        method_name: "debug_traceTransaction".to_string(),
        nodes: vec![d.clone()],
    }];
    let sel = ProxySelector::new(
        "eth".to_string(),
        "jsonrpc".to_string(),
        false,
        vec![a, b, d],
        routes,
        keys,
    );
    let mut state = ChainState::new("eth");
    state.update_block_number("https://a.example/rpc", 2000);
    state.update_block_number("https://b.example/rpc", 2000);
    state.update_block_number("https://d.example/rpc", 1000);
    let header = "debug_traceTransaction".to_string();
    let r = sel
        .upstream_decision_chain(state.get_block_numbers(), Some(&header), "/", None)
        .unwrap();
    assert_eq!(r.special_route, Some(0));
    assert_eq!(r.host_header.as_str(), "d.example");
    // Without the header, D is excluded by the gap.
    for _ in 0..50 {
        let r = sel
            .upstream_decision_chain(state.get_block_numbers(), None, "/", None)
            .unwrap();
        assert_ne!(r.host_header.as_str(), "d.example");
    }
}

#[test]
fn test_special_match_is_exact() {
    let d = node("https://d.example/rpc", "d.example", 1, 5);
    let routes = vec![SpecialMethodConfig {
        method_name: "debug_traceTransaction".to_string(),
        nodes: vec![d],
    }];
    let exact = "debug_traceTransaction".to_string();
    assert_eq!(find_special_route(&routes, Some(&exact)), Some(0));
    let prefix = "debug_".to_string();
    assert_eq!(find_special_route(&routes, Some(&prefix)), None);
    let longer = "debug_traceTransactionX".to_string();
    assert_eq!(find_special_route(&routes, Some(&longer)), None);
    let folded = "DEBUG_TRACETRANSACTION".to_string();
    assert_eq!(find_special_route(&routes, Some(&folded)), None);
    assert_eq!(find_special_route(&routes, None), None);
}

#[test]
fn test_cold_start_no_tip() {
    let a = node("https://a.example/rpc", "a.example", 1, 5);
    let sel = selector_for("jsonrpc", vec![a]);
    let state = ChainState::new("eth");
    let e = sel
        .upstream_decision_chain(state.get_block_numbers(), None, "/", None)
        .unwrap_err();
    assert_eq!(e, SelectError::NoTipYet);
    assert_eq!(
        e.reason(),
        "No block number found, maybe health check is unavailable or system is starting"
    );
    // The request still counts once, with the terminal status.
    let labels = proxy_result_labels("eth", None, Some(502), "POST");
    assert_eq!(labels.code.as_str(), "502");
    assert_eq!(labels.method.as_str(), "POST");
}

#[test]
fn test_absent_tip_is_ineligible() {
    let a = node("https://a.example/rpc", "a.example", 1, 5);
    let b = node("https://b.example/rpc", "b.example", 1, 5);
    let sel = selector_for("jsonrpc", vec![a, b]);
    let mut state = ChainState::new("eth");
    // Only one node reported; the other is absent and so ineligible, the
    // reporter is the leader and eligible.
    state.update_block_number("https://a.example/rpc", 100);
    let r = sel
        .upstream_decision_chain(state.get_block_numbers(), None, "/", None)
        .unwrap();
    assert_eq!(r.index, 0);
}

#[test]
fn test_no_eligible_cluster() {
    // A tip is recorded, but for an upstream that left the pool: every
    // configured node lacks a tip and none is eligible.
    let a = node("https://a.example/rpc", "a.example", 1, 5);
    let sel = selector_for("jsonrpc", vec![a]);
    let mut state = ChainState::new("eth");
    state.update_block_number("https://old.example/rpc", 100);
    let e = sel
        .upstream_decision_chain(state.get_block_numbers(), None, "/", None)
        .unwrap_err();
    assert_eq!(e, SelectError::NoEligibleCluster);
}

#[test]
fn test_cluster_missing() {
    let a = node("https://a.example/rpc", "a.example", 1, 5);
    let sel = ProxySelector::new(
        "eth".to_string(),
        "jsonrpc".to_string(),
        false,
        vec![a],
        Vec::new(),
        Vec::new(),
    );
    let mut state = ChainState::new("eth");
    state.update_block_number("https://a.example/rpc", 100);
    let e = sel
        .upstream_decision_chain(state.get_block_numbers(), None, "/", None)
        .unwrap_err();
    assert_eq!(e, SelectError::ClusterMissing);
    assert_eq!(e.reason(), "Cluster not found");
}

#[test]
fn test_grpc_uri_composition() {
    // gRPC listener: first node wins, path appended, query kept, ALPN H2.
    let h = node("https://h/prefix", "h", 1, 5);
    let sel = selector_for("grpc", vec![h]);
    let r = sel
        .upstream_decision_grpc("/pkg.Svc/Method", Some("x=1"))
        .unwrap();
    assert_eq!(r.uri.as_str(), "https://h/prefix/pkg.Svc/Method?x=1");
    assert_eq!(r.peer.options.alpn, AlpnChoice::H2);
    assert_eq!(r.peer.sni.as_str(), "h");
}

#[test]
fn test_peer_alpn_by_protocol() {
    let a = node("https://a.example/rpc", "a.example", 1, 5);
    assert_eq!(build_peer(&a, "grpc").options.alpn, AlpnChoice::H2);
    assert_eq!(build_peer(&a, "jsonrpc").options.alpn, AlpnChoice::H1);
    assert_eq!(build_peer(&a, "http").options.alpn, AlpnChoice::H1);
    let p = build_peer(&a, "jsonrpc");
    assert!(p.options.verify_hostname);
    assert!(!p.options.verify_cert);
    assert_eq!(p.options.connection_timeout_secs, 30);
    assert_eq!(p.options.total_connection_timeout_secs, 5);
    assert_eq!(p.options.read_timeout_secs, 30);
    assert_eq!(p.options.write_timeout_secs, 5);
    assert_eq!(p.options.tcp_recv_buf, 512 * 1024);
    assert_eq!(p.options.max_h2_streams, 5);
    assert!(p.options.second_keyshare);
    assert_eq!(p.addr.as_str(), "a.example:443");
    assert!(p.tls);
}

#[test]
fn test_rewrite_uri_rules() {
    // jsonrpc: the upstream URL replaces everything, query dropped.
    assert_eq!(
        rewrite_uri("jsonrpc", "https://u/base", "/p", Some("q=1")).as_str(),
        "https://u/base"
    );
    // http: path appended, query kept.
    assert_eq!(
        rewrite_uri("http", "https://u/base", "/p", Some("q=1")).as_str(),
        "https://u/base/p?q=1"
    );
    // Empty and "/" paths keep the upstream URL as-is.
    assert_eq!(
        rewrite_uri("http", "https://u/base", "/", Some("a")).as_str(),
        "https://u/base?a"
    );
    assert_eq!(rewrite_uri("http", "https://u/base", "", None).as_str(), "https://u/base");
    assert_eq!(
        rewrite_uri("grpc", "https://u/base", "/x/y", None).as_str(),
        "https://u/base/x/y"
    );
}

#[test]
fn test_common_mode_health_filter() {
    let a = node("https://a.example/rpc", "a.example", 1, 0);
    let b = node("https://b.example/rpc", "b.example", 2, 0);
    let sel = selector_for("http", vec![a, b]);
    let mut health = NodeState::new("common1");
    health.update_health_status("https://a.example/rpc", true);
    health.update_health_status("https://b.example/rpc", false);
    // Only A is healthy, so the lower priority still wins.
    let r = sel
        .upstream_decision_common(&health, None, "/x", None)
        .unwrap();
    assert_eq!(r.index, 0);
    // Nothing healthy: no eligible cluster.
    health.update_health_status("https://a.example/rpc", false);
    let e = sel
        .upstream_decision_common(&health, None, "/x", None)
        .unwrap_err();
    assert_eq!(e, SelectError::NoEligibleCluster);
    assert_eq!(e.reason(), "No eligible cluster found");
}
