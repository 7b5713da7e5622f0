//! The metrics surface: one gauge family for node tips and one counter
//! family for request results.
//!
//! The families are created once under the configured namespace and
//! registered with the process-wide registry; every finished request
//! increments the counter exactly once, with the labels computed by
//! [`proxy_result_labels`].

use vstd::prelude::*;
use vstd::string::*;
use crate::numeric::{dec_str_of, u64_to_dec_string};

verus! {

#[verifier::external_type_specification]
#[verifier::external_body]
pub struct ExPrometheusError(prometheus::Error);

/// One integer gauge family.  The prometheus vector type cannot be named
/// through its public alias alone, so it sits in an opaque field behind
/// the wrappers below.
#[verifier::external_body]
pub struct IntGaugeFamily {
    inner: prometheus::IntGaugeVec,
}

/// One integer counter family, held as the gauge family is.
#[verifier::external_body]
pub struct IntCounterFamily {
    inner: prometheus::IntCounterVec,
}

/// Whether prometheus accepts a two-label gauge descriptor.  Left
/// abstract: acceptance is prometheus's descriptor validation, a function
/// of the name, help text, namespace and label names alone.
pub uninterp spec fn gauge_vec_accepted(
    name: Seq<char>,
    help: Seq<char>,
    namespace: Seq<char>,
    l1: Seq<char>,
    l2: Seq<char>,
) -> bool;

/// Whether prometheus accepts a four-label counter descriptor, as
/// [`gauge_vec_accepted`] is for gauges.
pub uninterp spec fn counter_vec_accepted(
    name: Seq<char>,
    help: Seq<char>,
    namespace: Seq<char>,
    l1: Seq<char>,
    l2: Seq<char>,
    l3: Seq<char>,
    l4: Seq<char>,
) -> bool;

/// Relies on prometheus's `IntGaugeVec::new` with `Opts`: a fresh integer
/// gauge family under the given name, help text, namespace and two label
/// names.  The descriptor validation depends on these arguments alone, so
/// success is exactly [`gauge_vec_accepted`] of them.
#[verifier::external_body]
fn new_int_gauge_vec(name: &str, help: &str, namespace: &str, l1: &str, l2: &str) -> (r: Result<
    IntGaugeFamily,
    prometheus::Error,
>)
    ensures
        r is Ok <==> gauge_vec_accepted(name@, help@, namespace@, l1@, l2@),
{
    let opts = prometheus::Opts::new(name, help).namespace(namespace);
    match prometheus::IntGaugeVec::new(opts, &[l1, l2]) {
        Ok(inner) => Ok(IntGaugeFamily { inner }),
        Err(e) => Err(e),
    }
}

/// Relies on prometheus's `IntCounterVec::new` with `Opts`: a fresh
/// integer counter family under the given name, help text, namespace and
/// four label names; success is exactly [`counter_vec_accepted`] of them.
#[verifier::external_body]
fn new_int_counter_vec(
    name: &str,
    help: &str,
    namespace: &str,
    l1: &str,
    l2: &str,
    l3: &str,
    l4: &str,
) -> (r: Result<IntCounterFamily, prometheus::Error>)
    ensures
        r is Ok <==> counter_vec_accepted(name@, help@, namespace@, l1@, l2@, l3@, l4@),
{
    let opts = prometheus::Opts::new(name, help).namespace(namespace);
    match prometheus::IntCounterVec::new(opts, &[l1, l2, l3, l4]) {
        Ok(inner) => Ok(IntCounterFamily { inner }),
        Err(e) => Err(e),
    }
}

/// Relies on prometheus's `Registry::register` on the default registry:
/// `Err` when a colliding collector is already registered.
#[verifier::external_body]
fn register_gauge(g: &IntGaugeFamily) -> Result<(), prometheus::Error> {
    prometheus::default_registry().register(Box::new(g.inner.clone()))
}

/// Relies on prometheus's `Registry::register` on the default registry:
/// `Err` when a colliding collector is already registered.
#[verifier::external_body]
fn register_counter(c: &IntCounterFamily) -> Result<(), prometheus::Error> {
    prometheus::default_registry().register(Box::new(c.inner.clone()))
}

/// Relies on prometheus's `with_label_values` and `set`: sets the gauge
/// child under the two labels; a height above `i64` range wraps.
#[verifier::external_body]
fn gauge_set(g: &IntGaugeFamily, chain: &str, host: &str, height: u64) {
    g.inner.with_label_values(&[chain, host]).set(height as i64)
}

/// Relies on prometheus's `with_label_values` and `inc`: adds one to the
/// counter child under the four labels.
#[verifier::external_body]
fn counter_inc(c: &IntCounterFamily, chain: &str, host: &str, code: &str, method: &str) {
    c.inner.with_label_values(&[chain, host, code, method]).inc()
}

/// Why the metrics surface could not be brought up.
#[derive(Debug, Clone, Copy, PartialEq, Eq, Structural)]
pub enum MetricsError {
    /// A metric family descriptor was rejected.
    Create,
    /// Registration with the process registry failed.
    Register,
}

/// The two metric families.
pub struct Metrics {
    pub node_height_gauge: IntGaugeFamily,
    pub proxy_result_counter: IntCounterFamily,
}

/// Whether prometheus accepts both of the library's metric descriptors
/// under the given namespace: the two-label tip gauge and the four-label
/// result counter.
pub open spec fn metrics_descriptors_accepted(namespace: Seq<char>) -> bool {
    &&& gauge_vec_accepted(
        "node_height_gauge"@,
        "node height gauge"@,
        namespace,
        "chain"@,
        "host"@,
    )
    &&& counter_vec_accepted(
        "proxy_result_counter"@,
        "proxy result counter"@,
        namespace,
        "chain"@,
        "host"@,
        "code"@,
        "method"@,
    )
}

impl Metrics {
    /// Create the gauge and counter families under a namespace: the tip
    /// gauge labelled by chain and host, and the result counter labelled
    /// by chain, host, code and method.
    pub fn new(namespace: &str) -> (r: Result<Metrics, MetricsError>)
        ensures
            r is Ok <==> metrics_descriptors_accepted(namespace@),
            r is Err ==> r == Err::<Metrics, MetricsError>(MetricsError::Create),
    {
        let node_height_gauge = match new_int_gauge_vec(
            "node_height_gauge",
            "node height gauge",
            namespace,
            "chain",
            "host",
        ) {
            Ok(g) => g,
            Err(_) => {
                return Err(MetricsError::Create);
            },
        };
        let proxy_result_counter = match new_int_counter_vec(
            "proxy_result_counter",
            "proxy result counter",
            namespace,
            "chain",
            "host",
            "code",
            "method",
        ) {
            Ok(c) => c,
            Err(_) => {
                return Err(MetricsError::Create);
            },
        };
        Ok(Metrics { node_height_gauge, proxy_result_counter })
    }

    /// Register both families with the process-wide registry.  Success
    /// depends on what is already registered there, so it is not promised;
    /// a success returns the families unchanged.
    pub fn register(self) -> (r: Result<Metrics, MetricsError>)
        ensures
            (match r {
                Ok(m) => m == self,
                Err(e) => e == MetricsError::Register,
            }),
    {
        match register_gauge(&self.node_height_gauge) {
            Ok(_) => {},
            Err(_) => {
                return Err(MetricsError::Register);
            },
        }
        match register_counter(&self.proxy_result_counter) {
            Ok(_) => {},
            Err(_) => {
                return Err(MetricsError::Register);
            },
        }
        Ok(self)
    }

    /// Publish one upstream's tip.
    pub fn set_node_height_gauge(&self, chain: &str, host: &str, height: u64) {
        gauge_set(&self.node_height_gauge, chain, host, height);
    }

    /// Count one finished request.
    pub fn inc_proxy_result_counter(&self, chain: &str, host: &str, code: &str, method: &str) {
        counter_inc(&self.proxy_result_counter, chain, host, code, method);
    }
}

/// Create and register the metric families under the configured
/// namespace.  A rejected descriptor is the `Create` error, exactly when
/// prometheus rejects one of the two descriptors; a registry collision is
/// the `Register` error.
pub fn init_metrics(system: &str) -> (r: Result<Metrics, MetricsError>)
    ensures
        r is Ok ==> metrics_descriptors_accepted(system@),
        (r == Err::<Metrics, MetricsError>(MetricsError::Create)) <==> !metrics_descriptors_accepted(
            system@,
        ),
{
    match Metrics::new(system) {
        Ok(m) => m.register(),
        Err(e) => Err(e),
    }
}

/// Publish one upstream's tip.
pub fn set_node_height_gauge(metrics: &Metrics, chain: &str, host: &str, height: u64) {
    metrics.set_node_height_gauge(chain, host, height);
}

/// Count one finished request.
pub fn inc_proxy_result_counter(
    metrics: &Metrics,
    chain: &str,
    host: &str,
    code: &str,
    method: &str,
) {
    metrics.inc_proxy_result_counter(chain, host, code, method);
}

/// The labels of the one counter increment a finished request makes.
#[derive(Debug, Clone)]
pub struct ProxyResultLabels {
    pub chain: String,
    pub host: String,
    pub code: String,
    pub method: String,
}

/// The labels a finished request reports: its listener's chain name, the
/// request's Host header or `unknown` when there is none, the response
/// status in decimal — 0 when the request failed before any response was
/// written — and the request method.
pub fn proxy_result_labels(
    chain: &str,
    host_header: Option<&String>,
    response_code: Option<u16>,
    method: &str,
) -> (r: ProxyResultLabels)
    ensures
        r.chain@ == chain@,
        r.host@ == (match host_header {
            Some(h) => h@,
            None => "unknown"@,
        }),
        r.code@ == dec_str_of(
            (match response_code {
                Some(c) => c as nat,
                None => 0 as nat,
            }),
        ),
        r.method@ == method@,
{
    let code: u16 = match response_code {
        Some(c) => c,
        None => 0,
    };
    ProxyResultLabels {
        chain: chain.to_owned(),
        host: match host_header {
            Some(h) => h.clone(),
            None => "unknown".to_owned(),
        },
        code: u64_to_dec_string(code as u64),
        method: method.to_owned(),
    }
}

/// Count one finished request under its computed labels.
pub fn record_proxy_result(metrics: &Metrics, labels: &ProxyResultLabels) {
    metrics.inc_proxy_result_counter(
        labels.chain.as_str(),
        labels.host.as_str(),
        labels.code.as_str(),
        labels.method.as_str(),
    );
}

} // verus!
