//! The loaded configuration: chains, common pools, the monitor endpoint
//! and the unify port.
//!
//! A configuration is read once at startup and frozen; everything here is
//! immutable data with plain accessors.  Parsing the configuration file is
//! the caller's business: these types take plain values.

use vstd::prelude::*;
use vstd::string::*;

verus! {

/// One configured upstream node.
#[derive(Debug, Clone)]
pub struct Node {
    pub address: String,
    pub priority: i32,
    pub user_name: Option<String>,
    pub pass: Option<String>,
    pub custom_headers: Option<Vec<(String, String)>>,
}

impl Node {
    pub fn new(
        address: String,
        priority: i32,
        user_name: Option<String>,
        pass: Option<String>,
        custom_headers: Option<Vec<(String, String)>>,
    ) -> (r: Self)
        ensures
            r.address == address,
            r.priority == priority,
            r.user_name == user_name,
            r.pass == pass,
            r.custom_headers == custom_headers,
    {
        Node { address, priority, user_name, pass, custom_headers }
    }

    /// The node's URL.
    pub fn address(&self) -> (r: &str)
        ensures
            r@ == self.address@,
    {
        self.address.as_str()
    }

    /// The node's priority; the higher the better.
    pub fn priority(&self) -> (r: i32)
        ensures
            r == self.priority,
    {
        self.priority
    }

    /// Basic Auth user name for the health probe, if any.
    pub fn user_name(&self) -> (r: Option<&String>)
        ensures
            (match r {
                Some(u) => self.user_name == Some(*u),
                None => self.user_name is None,
            }),
    {
        self.user_name.as_ref()
    }

    /// Basic Auth password for the health probe, if any.
    pub fn pass(&self) -> (r: Option<&String>)
        ensures
            (match r {
                Some(p) => self.pass == Some(*p),
                None => self.pass is None,
            }),
    {
        self.pass.as_ref()
    }

    /// Extra headers for the health probe, if any.
    pub fn custom_headers(&self) -> (r: Option<&Vec<(String, String)>>)
        ensures
            (match r {
                Some(h) => self.custom_headers == Some(*h),
                None => self.custom_headers is None,
            }),
    {
        self.custom_headers.as_ref()
    }
}

/// How a pool's upstreams are probed.
#[derive(Debug, Clone)]
pub struct HealthCheck {
    pub path: String,
    pub method: String,
    pub request_body: String,
}

impl HealthCheck {
    pub fn new(path: String, method: String, request_body: String) -> (r: Self)
        ensures
            r.path == path,
            r.method == method,
            r.request_body == request_body,
    {
        HealthCheck { path, method, request_body }
    }

    /// The probe path, appended to each node's URL.
    pub fn path(&self) -> (r: &str)
        ensures
            r@ == self.path@,
    {
        self.path.as_str()
    }

    /// The probe method, such as `GET` or `POST`.
    pub fn method(&self) -> (r: &str)
        ensures
            r@ == self.method@,
    {
        self.method.as_str()
    }

    /// The probe body for pools without a registered chain checker.
    pub fn request_body(&self) -> (r: &str)
        ensures
            r@ == self.request_body@,
    {
        self.request_body.as_str()
    }
}

/// A dedicated pool for one JSON-RPC method name.
#[derive(Debug, Clone)]
pub struct SpecialMethodConfig {
    pub method_name: String,
    pub nodes: Vec<Node>,
}

/// One chain listener.
#[derive(Debug, Clone)]
pub struct Chain {
    pub name: String,
    pub protocol: String,
    pub chain_type: String,
    pub listen: u16,
    pub interval: u64,
    pub block_gap: u64,
    pub log_request: bool,
    pub nodes: Vec<Node>,
    pub health_check: HealthCheck,
    pub special_methods: Option<Vec<SpecialMethodConfig>>,
}

impl Chain {
    pub fn new(
        name: String,
        protocol: String,
        chain_type: String,
        listen: u16,
        interval: u64,
        block_gap: u64,
        log_request: bool,
        nodes: Vec<Node>,
        health_check: HealthCheck,
        special_methods: Option<Vec<SpecialMethodConfig>>,
    ) -> (r: Self)
        ensures
            r.name == name,
            r.protocol == protocol,
            r.chain_type == chain_type,
            r.listen == listen,
            r.interval == interval,
            r.block_gap == block_gap,
            r.log_request == log_request,
            r.nodes == nodes,
            r.health_check == health_check,
            r.special_methods == special_methods,
    {
        Chain {
            name,
            protocol,
            chain_type,
            listen,
            interval,
            block_gap,
            log_request,
            nodes,
            health_check,
            special_methods,
        }
    }

    /// The chain's name, a metrics label.
    pub fn name(&self) -> (r: &str)
        ensures
            r@ == self.name@,
    {
        self.name.as_str()
    }

    /// The proxy protocol: `jsonrpc`, `http` or `grpc`.
    pub fn protocol(&self) -> (r: &str)
        ensures
            r@ == self.protocol@,
    {
        self.protocol.as_str()
    }

    /// The chain type selecting the health check validator.
    pub fn chain_type(&self) -> (r: &str)
        ensures
            r@ == self.chain_type@,
    {
        self.chain_type.as_str()
    }

    /// The TCP port the listener accepts on.
    pub fn listen(&self) -> (r: u16)
        ensures
            r == self.listen,
    {
        self.listen
    }

    /// Seconds between health probes.
    pub fn interval(&self) -> (r: u64)
        ensures
            r == self.interval,
    {
        self.interval
    }

    /// Maximum tolerated lag behind the pool leader.
    pub fn block_gap(&self) -> (r: u64)
        ensures
            r == self.block_gap,
    {
        self.block_gap
    }

    /// Whether request and response bodies are captured for logging.
    pub fn log_request(&self) -> (r: bool)
        ensures
            r == self.log_request,
    {
        self.log_request
    }

    /// The configured upstream nodes.
    pub fn nodes(&self) -> (r: &Vec<Node>)
        ensures
            r == &self.nodes,
    {
        &self.nodes
    }

    /// How the nodes are probed.
    pub fn health_check(&self) -> (r: &HealthCheck)
        ensures
            r == &self.health_check,
    {
        &self.health_check
    }

    /// The special-method pools, if any.
    pub fn special_methods(&self) -> (r: Option<&Vec<SpecialMethodConfig>>)
        ensures
            (match r {
                Some(s) => self.special_methods == Some(*s),
                None => self.special_methods is None,
            }),
    {
        self.special_methods.as_ref()
    }
}

/// One common (non-blockchain) listener.
#[derive(Debug, Clone)]
pub struct Common {
    pub name: String,
    pub protocol: String,
    pub listen: u16,
    pub interval: u64,
    pub log_request: bool,
    pub nodes: Vec<Node>,
    pub health_check: HealthCheck,
    pub special_methods: Option<Vec<SpecialMethodConfig>>,
}

impl Common {
    pub fn new(
        name: String,
        protocol: String,
        listen: u16,
        interval: u64,
        log_request: bool,
        nodes: Vec<Node>,
        health_check: HealthCheck,
        special_methods: Option<Vec<SpecialMethodConfig>>,
    ) -> (r: Self)
        ensures
            r.name == name,
            r.protocol == protocol,
            r.listen == listen,
            r.interval == interval,
            r.log_request == log_request,
            r.nodes == nodes,
            r.health_check == health_check,
            r.special_methods == special_methods,
    {
        Common { name, protocol, listen, interval, log_request, nodes, health_check, special_methods }
    }

    /// The pool's name, a metrics label.
    pub fn name(&self) -> (r: &str)
        ensures
            r@ == self.name@,
    {
        self.name.as_str()
    }

    /// The proxy protocol: `jsonrpc` or `http`.
    pub fn protocol(&self) -> (r: &str)
        ensures
            r@ == self.protocol@,
    {
        self.protocol.as_str()
    }

    /// The TCP port the listener accepts on.
    pub fn listen(&self) -> (r: u16)
        ensures
            r == self.listen,
    {
        self.listen
    }

    /// Seconds between health probes.
    pub fn interval(&self) -> (r: u64)
        ensures
            r == self.interval,
    {
        self.interval
    }

    /// Whether request and response bodies are captured for logging.
    pub fn log_request(&self) -> (r: bool)
        ensures
            r == self.log_request,
    {
        self.log_request
    }

    /// The configured upstream nodes.
    pub fn nodes(&self) -> (r: &Vec<Node>)
        ensures
            r == &self.nodes,
    {
        &self.nodes
    }

    /// How the nodes are probed.
    pub fn health_check(&self) -> (r: &HealthCheck)
        ensures
            r == &self.health_check,
    {
        &self.health_check
    }

    /// The special-method pools, if any.
    pub fn special_methods(&self) -> (r: Option<&Vec<SpecialMethodConfig>>)
        ensures
            (match r {
                Some(s) => self.special_methods == Some(*s),
                None => self.special_methods is None,
            }),
    {
        self.special_methods.as_ref()
    }
}

/// The metrics endpoint.
#[derive(Debug, Clone)]
pub struct Monitor {
    pub listen: u16,
    pub system: String,
}

impl Monitor {
    pub fn new(listen: u16, system: String) -> (r: Self)
        ensures
            r.listen == listen,
            r.system == system,
    {
        Monitor { listen, system }
    }

    /// The TCP port the metrics endpoint accepts on.
    pub fn listen(&self) -> (r: u16)
        ensures
            r == self.listen,
    {
        self.listen
    }

    /// The metric namespace.
    pub fn system(&self) -> (r: &str)
        ensures
            r@ == self.system@,
    {
        self.system.as_str()
    }
}

/// The whole loaded configuration.
#[derive(Debug, Clone)]
pub struct Config {
    pub chains: Vec<Chain>,
    pub commons: Vec<Common>,
    pub monitor: Monitor,
    pub unify_proxy_listen_port: Option<u16>,
}

impl Config {
    pub fn new(
        chains: Vec<Chain>,
        commons: Vec<Common>,
        monitor: Monitor,
        unify_proxy_listen_port: Option<u16>,
    ) -> (r: Self)
        ensures
            r.chains == chains,
            r.commons == commons,
            r.monitor == monitor,
            r.unify_proxy_listen_port == unify_proxy_listen_port,
    {
        Config { chains, commons, monitor, unify_proxy_listen_port }
    }
}

} // verus!
