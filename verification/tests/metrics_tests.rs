use chain_proxy::metrics::{
    inc_proxy_result_counter, init_metrics, proxy_result_labels, record_proxy_result,
    set_node_height_gauge, MetricsError,
};

#[test]
fn test_metrics() {
    // Initialize metrics
    let metrics = init_metrics("wallet").unwrap();

    // Set a test value
    set_node_height_gauge(&metrics, "test_chain", "test_host", 42);
    inc_proxy_result_counter(&metrics, "test_chain", "test_host", "200", "GET");
    inc_proxy_result_counter(&metrics, "test_chain", "test_host", "404", "POST");
    inc_proxy_result_counter(&metrics, "test_chain", "test_host", "500", "PUT");

    // Check if the value is set correctly
    let metric_families = prometheus::gather();
    let metric = metric_families
        .iter()
        .find(|m| m.name() == "wallet_node_height_gauge")
        .unwrap();

    let metric = metric.get_metric();
    assert_eq!(metric.len(), 1);

    let proxy_result_counter = metric_families
        .iter()
        .find(|m| m.name() == "wallet_proxy_result_counter")
        .unwrap();
    let proxy_result_counter = proxy_result_counter.get_metric();
    assert_eq!(proxy_result_counter.len(), 3);
}

#[test]
fn test_proxy_result_labels() {
    let host = "api.example".to_string();
    let l = proxy_result_labels("eth", Some(&host), Some(200), "GET");
    assert_eq!(l.chain.as_str(), "eth");
    assert_eq!(l.host.as_str(), "api.example");
    assert_eq!(l.code.as_str(), "200");
    assert_eq!(l.method.as_str(), "GET");

    // A failed request writes no response: its code label is 0.
    let l = proxy_result_labels("eth", Some(&host), None, "POST");
    assert_eq!(l.code.as_str(), "0");

    // A request without a Host header counts under "unknown".
    let l = proxy_result_labels("eth", None, Some(502), "POST");
    assert_eq!(l.host.as_str(), "unknown");
    assert_eq!(l.code.as_str(), "502");
}

#[test]
fn test_record_proxy_result_once() {
    let metrics = init_metrics("recorder").unwrap();
    let host = "h1".to_string();
    let labels = proxy_result_labels("c1", Some(&host), Some(200), "GET");
    record_proxy_result(&metrics, &labels);
    record_proxy_result(&metrics, &labels);
    let families = prometheus::gather();
    let counter = families
        .iter()
        .find(|m| m.name() == "recorder_proxy_result_counter")
        .unwrap();
    let children = counter.get_metric();
    assert_eq!(children.len(), 1);
    assert_eq!(children[0].get_counter().value() as u64, 2);
}

#[test]
fn test_init_metrics_register_collision() {
    // The same namespace cannot be registered twice with the process
    // registry.
    assert!(init_metrics("twice").is_ok());
    match init_metrics("twice") {
        Ok(_) => panic!("second registration must collide"),
        Err(e) => assert_eq!(e, MetricsError::Register),
    }
}

#[test]
fn test_init_metrics_bad_namespace() {
    // A namespace that makes the descriptor name invalid is rejected at
    // creation, before any registration.
    match init_metrics("bad namespace") {
        Ok(_) => panic!("descriptor with a space must be rejected"),
        Err(e) => assert_eq!(e, MetricsError::Create),
    }
}

