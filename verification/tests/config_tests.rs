use chain_proxy::config::{Chain, Common, Config, HealthCheck, Monitor, Node, SpecialMethodConfig};
use chain_proxy::factory::{
    chain_listener_spec, create_chain_proxy_config, create_common_proxy_config, listener_specs,
    ListenerKind, ListenerSpec,
};

const TEST_YAML: &str = r#"
Chains:
  - Name: solana
    Protocol: "jsonrpc"
    Listen: 1017
    Interval: 20
    BlockGap: 20
    ChainType: "solana"
    Nodes:
      - Address: https://example.com/solana
        Priority: 1
      - Address: https://api.mainnet-beta.solana.com
        Priority: 0
    HealthCheck:
      Path: /health1
      Method: GET
  - Name: ethereum
    Protocol: "jsonrpc"
    Listen: 1090
    Interval: 20
    BlockGap: 20
    ChainType: "ethereum"
    Nodes:
      - Address: https://example.com/ethereum
        Priority: 1
      - Address: https://api.ethereum.org
        Priority: 0
    SpecialMethods:
      - MethodName: "debug_"
        Nodes:
          - Address: http://127.0.0.1:22260
            Priority: 1
          - Address: https://special-node.infura.io/v3/559af310b68646d8accf0cf36111f2eb
            Priority: 0
      - MethodName: "/special"
        Nodes:
          - Address: http://127.0.0.1:33360
            Priority: 1
          - Address: https://another-special-node.infura.io/v3/559af310b68646d8accf0cf36111f2eb
            Priority: 0
    HealthCheck:
      Path: /health2
      Method: GET
Commons:
  - Name: common1
    Protocol: "jsonrpc"
    Listen: 2020
    Interval: 30
    Nodes:
      - Address: https://example.com/common1
        Priority: 1
      - Address: https://api.common1.com
        Priority: 0
    HealthCheck:
      Path: /health3
      Method: GET
      RequestBody: "test"
  - Name: common2
    Protocol: "jsonrpc"
    Listen: 2030
    Interval: 40
    Nodes:
      - Address: https://example.com/common2
        Priority: 1
      - Address: https://api.common2.com
        Priority: 0
    SpecialMethods:
      - MethodName: "trace_"
        Nodes:
          - Address: http://127.0.0.1:44460
            Priority: 1
          - Address: https://special-node.common2.com/v3/559af310b68646d8accf0cf36111f2eb
            Priority: 0
    HealthCheck:
      Path: /health4
      Method: GET

Monitor:
    Listen: 1018
    System: "test"
"#;

fn node_from(v: &serde_yaml::Value) -> Node {
    Node::new(
        v["Address"].as_str().unwrap().to_string(),
        v["Priority"].as_i64().unwrap() as i32,
        v["UserName"].as_str().map(|s| s.to_string()),
        v["Pass"].as_str().map(|s| s.to_string()),
        None,
    )
}

fn nodes_from(v: &serde_yaml::Value) -> Vec<Node> {
    v.as_sequence().unwrap().iter().map(node_from).collect()
}

fn health_check_from(v: &serde_yaml::Value) -> HealthCheck {
    HealthCheck::new(
        v["Path"].as_str().unwrap().to_string(),
        v["Method"].as_str().unwrap().to_string(),
        v["RequestBody"].as_str().unwrap_or("").to_string(),
    )
}

fn special_methods_from(v: &serde_yaml::Value) -> Option<Vec<SpecialMethodConfig>> {
    v.as_sequence().map(|seq| {
        seq.iter()
            .map(|m| SpecialMethodConfig {
                method_name: m["MethodName"].as_str().unwrap().to_string(),
                nodes: nodes_from(&m["Nodes"]),
            })
            .collect()
    })
}

fn config_from_value(v: &serde_yaml::Value) -> Config {
    let chains = v["Chains"]
        .as_sequence()
        .map(|seq| {
            seq.iter()
                .map(|c| {
                    Chain::new(
                        c["Name"].as_str().unwrap().to_string(),
                        c["Protocol"].as_str().unwrap().to_string(),
                        c["ChainType"].as_str().unwrap().to_string(),
                        c["Listen"].as_u64().unwrap() as u16,
                        c["Interval"].as_u64().unwrap(),
                        c["BlockGap"].as_u64().unwrap(),
                        c["LogRequest"].as_bool().unwrap_or(false),
                        nodes_from(&c["Nodes"]),
                        health_check_from(&c["HealthCheck"]),
                        special_methods_from(&c["SpecialMethods"]),
                    )
                })
                .collect()
        })
        .unwrap_or_default();
    let commons = v["Commons"]
        .as_sequence()
        .map(|seq| {
            seq.iter()
                .map(|c| {
                    Common::new(
                        c["Name"].as_str().unwrap().to_string(),
                        c["Protocol"].as_str().unwrap().to_string(),
                        c["Listen"].as_u64().unwrap() as u16,
                        c["Interval"].as_u64().unwrap(),
                        c["LogRequest"].as_bool().unwrap_or(false),
                        nodes_from(&c["Nodes"]),
                        health_check_from(&c["HealthCheck"]),
                        special_methods_from(&c["SpecialMethods"]),
                    )
                })
                .collect()
        })
        .unwrap_or_default();
    let monitor = Monitor::new(
        v["Monitor"]["Listen"].as_u64().unwrap() as u16,
        v["Monitor"]["System"].as_str().unwrap().to_string(),
    );
    let unify = v["UnifyProxyListenPort"].as_u64().map(|p| p as u16);
    Config::new(chains, commons, monitor, unify)
}

fn load_config(text: &str) -> Config {
    let value: serde_yaml::Value = serde_yaml::from_str(text).unwrap();
    config_from_value(&value)
}

#[test]
fn test_load_config() {
    let config = load_config(TEST_YAML);

    assert_eq!(config.chains.len(), 2);
    assert_eq!(config.chains[0].name(), "solana");
    assert_eq!(config.chains[0].listen(), 1017);
    assert_eq!(config.chains[0].interval(), 20);
    assert_eq!(config.chains[0].block_gap(), 20);
    assert_eq!(config.chains[0].nodes().len(), 2);
    assert_eq!(config.chains[0].nodes()[0].address(), "https://example.com/solana");
    assert_eq!(config.chains[0].nodes()[0].priority(), 1);

    assert_eq!(config.chains[0].health_check().path(), "/health1");
    assert_eq!(config.chains[0].health_check().method(), "GET");

    assert_eq!(config.monitor.listen(), 1018);

    let special_methods = config.chains[1].special_methods().unwrap();
    assert_eq!(special_methods.len(), 2);

    assert_eq!(special_methods[0].nodes.len(), 2);
    assert_eq!(special_methods[0].nodes[0].address(), "http://127.0.0.1:22260");
    assert_eq!(special_methods[0].nodes[0].priority(), 1);
    assert_eq!(
        special_methods[0].nodes[1].address(),
        "https://special-node.infura.io/v3/559af310b68646d8accf0cf36111f2eb"
    );
    assert_eq!(special_methods[0].nodes[1].priority(), 0);

    assert_eq!(special_methods[1].nodes.len(), 2);
    assert_eq!(special_methods[1].nodes[0].address(), "http://127.0.0.1:33360");
    assert_eq!(special_methods[1].nodes[0].priority(), 1);
    assert_eq!(
        special_methods[1].nodes[1].address(),
        "https://another-special-node.infura.io/v3/559af310b68646d8accf0cf36111f2eb"
    );
    assert_eq!(special_methods[1].nodes[1].priority(), 0);

    assert_eq!(config.commons.len(), 2);
    assert_eq!(config.commons[0].name(), "common1");
    assert_eq!(config.commons[0].listen(), 2020);
    assert_eq!(config.commons[0].interval(), 30);
    assert_eq!(config.commons[0].nodes().len(), 2);
    assert_eq!(config.commons[0].nodes()[0].address(), "https://example.com/common1");
    assert_eq!(config.commons[0].nodes()[0].priority(), 1);

    assert_eq!(config.commons[0].health_check().path(), "/health3");
    assert_eq!(config.commons[0].health_check().method(), "GET");
    assert_eq!(config.commons[0].health_check().request_body(), "test");

    let special_methods_common2 = config.commons[1].special_methods().unwrap();
    assert_eq!(special_methods_common2.len(), 1);

    assert_eq!(special_methods_common2[0].nodes.len(), 2);
    assert_eq!(special_methods_common2[0].nodes[0].address(), "http://127.0.0.1:44460");
    assert_eq!(special_methods_common2[0].nodes[0].priority(), 1);
    assert_eq!(
        special_methods_common2[0].nodes[1].address(),
        "https://special-node.common2.com/v3/559af310b68646d8accf0cf36111f2eb"
    );
    assert_eq!(special_methods_common2[0].nodes[1].priority(), 0);
}

#[test]
fn test_create_chain_proxy_config_urls() {
    let chain = Chain::new(
        "solana".to_string(),
        "jsonrpc".to_string(),
        "solana".to_string(),
        1017,
        20,
        20,
        false,
        Vec::new(),
        HealthCheck::new("/health1".to_string(), "GET".to_string(), "ping".to_string()),
        None,
    );
    let https_node = Node::new("https://example.com/solana".to_string(), 1, None, None, None);
    let cfg = create_chain_proxy_config(&https_node, &chain).unwrap();
    assert_eq!(cfg.proxy_addr.as_str(), "example.com:443");
    assert!(cfg.proxy_tls);
    assert_eq!(cfg.proxy_hostname.as_str(), "example.com");
    assert_eq!(cfg.proxy_uri.as_str(), "https://example.com/solana");
    assert_eq!(cfg.priority, 1);
    assert_eq!(cfg.path.as_str(), "/health1");
    assert_eq!(cfg.method.as_str(), "GET");
    assert_eq!(cfg.request_body.as_deref(), Some(b"ping".as_slice()));
    assert_eq!(cfg.interval, 20);
    assert_eq!(cfg.block_gap, 20);
    assert_eq!(cfg.chain_type.as_str(), "solana");

    let port_node = Node::new("http://127.0.0.1:22260".to_string(), 0, None, None, None);
    let cfg = create_chain_proxy_config(&port_node, &chain).unwrap();
    assert_eq!(cfg.proxy_addr.as_str(), "127.0.0.1:22260");
    assert!(!cfg.proxy_tls);

    let http_node = Node::new("http://plain.example/x".to_string(), 0, None, None, None);
    let cfg = create_chain_proxy_config(&http_node, &chain).unwrap();
    assert_eq!(cfg.proxy_addr.as_str(), "plain.example:80");

    let ftp_node = Node::new("ftp://files.example/x".to_string(), 0, None, None, None);
    assert!(create_chain_proxy_config(&ftp_node, &chain).is_none());
    let junk_node = Node::new("not a url".to_string(), 0, None, None, None);
    assert!(create_chain_proxy_config(&junk_node, &chain).is_none());
}

#[test]
fn test_create_common_proxy_config() {
    let common = Common::new(
        "common1".to_string(),
        "http".to_string(),
        2020,
        30,
        true,
        Vec::new(),
        HealthCheck::new("/health3".to_string(), "GET".to_string(), "test".to_string()),
        None,
    );
    let node = Node::new(
        "https://example.com/common1".to_string(),
        1,
        Some("user".to_string()),
        Some("SECRET-REDACTED".to_string()),
        None,
    );
    let cfg = create_common_proxy_config(&node, &common).unwrap();
    assert_eq!(cfg.proxy_addr.as_str(), "example.com:443");
    assert_eq!(cfg.chain_type.as_str(), "");
    assert_eq!(cfg.block_gap, 0);
    assert_eq!(cfg.interval, 30);
    assert!(cfg.log_request_detail);
    assert_eq!(cfg.username.as_deref(), Some("user"));
    assert_eq!(cfg.password.as_deref(), Some("SECRET-REDACTED"));
}

#[test]
fn test_cluster_keys_match_pool() {
    let config = load_config(TEST_YAML);
    for chain in &config.chains {
        let spec = chain_listener_spec(chain);
        assert_eq!(spec.cluster_keys.len(), spec.host_configs.len());
        for (key, cfg) in spec.cluster_keys.iter().zip(spec.host_configs.iter()) {
            assert_eq!(key, &cfg.proxy_uri);
        }
    }
}

fn assert_specs_equal(a: &ListenerSpec, b: &ListenerSpec) {
    assert_eq!(a.kind, b.kind);
    assert_eq!(a.name, b.name);
    assert_eq!(a.protocol, b.protocol);
    assert_eq!(a.listen, b.listen);
    assert_eq!(a.interval, b.interval);
    assert_eq!(a.log_request_detail, b.log_request_detail);
    assert_eq!(a.cluster_keys, b.cluster_keys);
    assert_eq!(a.host_configs.len(), b.host_configs.len());
    for (x, y) in a.host_configs.iter().zip(b.host_configs.iter()) {
        assert_eq!(x.proxy_addr, y.proxy_addr);
        assert_eq!(x.proxy_tls, y.proxy_tls);
        assert_eq!(x.proxy_hostname, y.proxy_hostname);
        assert_eq!(x.proxy_uri, y.proxy_uri);
        assert_eq!(x.priority, y.priority);
        assert_eq!(x.path, y.path);
        assert_eq!(x.method, y.method);
        assert_eq!(x.request_body, y.request_body);
        assert_eq!(x.interval, y.interval);
        assert_eq!(x.block_gap, y.block_gap);
        assert_eq!(x.chain_type, y.chain_type);
        assert_eq!(x.log_request_detail, y.log_request_detail);
    }
    assert_eq!(a.special_method_configs.len(), b.special_method_configs.len());
    for (x, y) in a
        .special_method_configs
        .iter()
        .zip(b.special_method_configs.iter())
    {
        assert_eq!(x.method_name, y.method_name);
        assert_eq!(x.nodes.len(), y.nodes.len());
    }
}

#[test]
fn test_config_reserialize_round_trip() {
    // Loading, re-serializing and loading again yields identical listener
    // specifications.
    let value: serde_yaml::Value = serde_yaml::from_str(TEST_YAML).unwrap();
    let first = config_from_value(&value);
    let reserialized = serde_yaml::to_string(&value).unwrap();
    let second = load_config(&reserialized);
    let specs1 = listener_specs(&first);
    let specs2 = listener_specs(&second);
    assert_eq!(specs1.len(), 4);
    assert_eq!(specs1.len(), specs2.len());
    for (a, b) in specs1.iter().zip(specs2.iter()) {
        assert_specs_equal(a, b);
    }
    assert_eq!(specs1[0].kind, ListenerKind::Chain);
    assert_eq!(specs1[0].listen, 1017);
    assert_eq!(specs1[2].kind, ListenerKind::Common);
    assert_eq!(specs1[2].listen, 2020);
}

#[test]
fn test_grpc_listener_kind() {
    let chain = Chain::new(
        "tron".to_string(),
        "grpc".to_string(),
        "tron_grpc".to_string(),
        1050,
        20,
        20,
        false,
        vec![Node::new("https://grpc.example:50051".to_string(), 1, None, None, None)],
        HealthCheck::new("/".to_string(), "GET".to_string(), String::new()),
        None,
    );
    let spec = chain_listener_spec(&chain);
    assert_eq!(spec.kind, ListenerKind::Grpc);
    assert_eq!(spec.host_configs.len(), 1);
    assert_eq!(spec.host_configs[0].proxy_addr.as_str(), "grpc.example:50051");
}
