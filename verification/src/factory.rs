//! From configuration to listeners: node URLs become upstream descriptors,
//! chains and common pools become listener specifications.

use vstd::prelude::*;
use vstd::string::*;
use vstd::utf8::encode_utf8;
use crate::config::{Node, Chain, Common, Config};
use crate::numeric::{dec_str_of, u64_to_dec_string};
use crate::selector::{ChainProxyConfig, SpecialMethodConfig};
use crate::strutil::str_eq;

verus! {

/// The parts of a parsed URL that the factory reads.
#[derive(Debug, Clone)]
pub struct UrlParts {
    pub scheme: String,
    pub host: Option<String>,
    pub port: Option<u16>,
}

/// What URL parsing extracts from a string: `None` when the string is not
/// an absolute URL.  Left abstract: the parse is the `url` crate's, and
/// the factory's contracts speak of this name.
pub uninterp spec fn url_parts_of(s: Seq<char>) -> Option<UrlParts>;

/// Relies on `url::Url::parse` and its accessors `scheme`, `host_str` and
/// `port`: the parts are a function of the string alone.
#[verifier::external_body]
fn parse_url(s: &str) -> (r: Option<UrlParts>)
    ensures
        r == url_parts_of(s@),
{
    match url::Url::parse(s) {
        Ok(u) => Some(
            UrlParts {
                scheme: u.scheme().to_string(),
                host: u.host_str().map(|h| h.to_string()),
                port: u.port(),
            },
        ),
        Err(_) => None,
    }
}

/// Two optional header lists hold the same pairs.
pub open spec fn headers_match(
    a: Option<Vec<(String, String)>>,
    b: Option<Vec<(String, String)>>,
) -> bool {
    match (a, b) {
        (Some(x), Some(y)) => x@ == y@,
        (None, None) => true,
        _ => false,
    }
}

/// Whether a node's URL yields an upstream descriptor: it parses, has a
/// host, and uses the `http` or `https` scheme.
pub open spec fn node_ok(node: Node) -> bool {
    match url_parts_of(node.address@) {
        Some(parts) => parts.host is Some && (parts.scheme@ == "http"@ || parts.scheme@
            == "https"@),
        None => false,
    }
}

/// The port an upstream connects to: the URL's explicit port, else 443 for
/// `https` and 80 otherwise.
pub open spec fn effective_port(scheme: Seq<char>, explicit: Option<u16>) -> u16 {
    match explicit {
        Some(p) => p,
        None => if scheme == "https"@ {
            443u16
        } else {
            80u16
        },
    }
}

/// What a chain node's upstream descriptor holds, field by field:
/// `host:port` address, TLS by scheme, the URL host as SNI, the node URL
/// as upstream URI, and the chain's probe and gap settings.
pub open spec fn chain_config_post(node: Node, chain: Chain, r: Option<ChainProxyConfig>) -> bool {
    if !node_ok(node) {
        r is None
    } else {
        match r {
            None => false,
            Some(cfg) => {
                let parts = url_parts_of(node.address@).unwrap();
                let host = parts.host.unwrap()@;
                let port = effective_port(parts.scheme@, parts.port);
                &&& cfg.proxy_addr@ == host + ":"@ + dec_str_of(port as nat)
                &&& cfg.proxy_tls == (parts.scheme@ == "https"@)
                &&& cfg.proxy_hostname@ == host
                &&& cfg.proxy_uri@ == node.address@
                &&& cfg.priority == node.priority
                &&& cfg.path@ == chain.health_check.path@
                &&& cfg.method@ == chain.health_check.method@
                &&& (match cfg.request_body {
                    Some(b) => b@ == encode_utf8(chain.health_check.request_body@),
                    None => false,
                })
                &&& cfg.interval == chain.interval
                &&& cfg.block_gap == chain.block_gap
                &&& cfg.chain_type@ == chain.chain_type@
                &&& cfg.log_request_detail == chain.log_request
                &&& cfg.username == node.user_name
                &&& cfg.password == node.pass
                &&& headers_match(cfg.custom_headers, node.custom_headers)
            },
        }
    }
}

/// What a common node's upstream descriptor holds: as a chain node's, with
/// no chain type and no block gap.
pub open spec fn common_config_post(node: Node, common: Common, r: Option<
    ChainProxyConfig,
>) -> bool {
    if !node_ok(node) {
        r is None
    } else {
        match r {
            None => false,
            Some(cfg) => {
                let parts = url_parts_of(node.address@).unwrap();
                let host = parts.host.unwrap()@;
                let port = effective_port(parts.scheme@, parts.port);
                &&& cfg.proxy_addr@ == host + ":"@ + dec_str_of(port as nat)
                &&& cfg.proxy_tls == (parts.scheme@ == "https"@)
                &&& cfg.proxy_hostname@ == host
                &&& cfg.proxy_uri@ == node.address@
                &&& cfg.priority == node.priority
                &&& cfg.path@ == common.health_check.path@
                &&& cfg.method@ == common.health_check.method@
                &&& (match cfg.request_body {
                    Some(b) => b@ == encode_utf8(common.health_check.request_body@),
                    None => false,
                })
                &&& cfg.interval == common.interval
                &&& cfg.block_gap == 0
                &&& cfg.chain_type@ == ""@
                &&& cfg.log_request_detail == common.log_request
                &&& cfg.username == node.user_name
                &&& cfg.password == node.pass
                &&& headers_match(cfg.custom_headers, node.custom_headers)
            },
        }
    }
}

/// The descriptor parts are functions of the configured values alone: two
/// nodes and pools that read the same produce descriptors that read the
/// same, so reloading an identical configuration yields identical
/// descriptors.
pub proof fn lemma_chain_config_deterministic(
    n1: Node,
    c1: Chain,
    r1: Option<ChainProxyConfig>,
    n2: Node,
    c2: Chain,
    r2: Option<ChainProxyConfig>,
)
    requires
        chain_config_post(n1, c1, r1),
        chain_config_post(n2, c2, r2),
        n1.address@ == n2.address@,
        n1.priority == n2.priority,
        n1.user_name == n2.user_name,
        n1.pass == n2.pass,
        headers_match(n1.custom_headers, n2.custom_headers),
        c1.health_check.path@ == c2.health_check.path@,
        c1.health_check.method@ == c2.health_check.method@,
        c1.health_check.request_body@ == c2.health_check.request_body@,
        c1.interval == c2.interval,
        c1.block_gap == c2.block_gap,
        c1.chain_type@ == c2.chain_type@,
        c1.log_request == c2.log_request,
    ensures
        r1 is Some <==> r2 is Some,
        (r1 is Some && r2 is Some) ==> {
            let g1 = r1.unwrap();
            let g2 = r2.unwrap();
            &&& g1.proxy_addr@ == g2.proxy_addr@
            &&& g1.proxy_tls == g2.proxy_tls
            &&& g1.proxy_hostname@ == g2.proxy_hostname@
            &&& g1.proxy_uri@ == g2.proxy_uri@
            &&& g1.priority == g2.priority
            &&& g1.path@ == g2.path@
            &&& g1.method@ == g2.method@
            &&& g1.request_body.unwrap()@ == g2.request_body.unwrap()@
            &&& g1.interval == g2.interval
            &&& g1.block_gap == g2.block_gap
            &&& g1.chain_type@ == g2.chain_type@
            &&& g1.log_request_detail == g2.log_request_detail
            &&& g1.username == g2.username
            &&& g1.password == g2.password
            &&& headers_match(g1.custom_headers, g2.custom_headers)
        },
{
}

/// Build one chain node's upstream descriptor, or nothing when the URL is
/// unusable.
pub fn create_chain_proxy_config(node: &Node, chain: &Chain) -> (r: Option<ChainProxyConfig>)
    ensures
        chain_config_post(*node, *chain, r),
{
    let parts = match parse_url(node.address()) {
        Some(p) => p,
        None => {
            return None;
        },
    };
    let host: &String = match &parts.host {
        Some(h) => h,
        None => {
            return None;
        },
    };
    let https = str_eq(parts.scheme.as_str(), "https");
    let http = str_eq(parts.scheme.as_str(), "http");
    if !https && !http {
        return None;
    }
    let port: u16 = match parts.port {
        Some(p) => p,
        None => if https {
            443
        } else {
            80
        },
    };
    let mut addr = host.clone();
    addr.append(":");
    let port_str = u64_to_dec_string(port as u64);
    addr.append(port_str.as_str());
    proof {
        reveal_strlit(":");
        assert(addr@ =~= host@ + ":"@ + dec_str_of(port as nat));
    }
    Some(
        ChainProxyConfig {
            proxy_addr: addr,
            proxy_tls: https,
            proxy_hostname: host.clone(),
            proxy_uri: node.address().to_owned(),
            priority: node.priority(),
            path: chain.health_check().path().to_owned(),
            method: chain.health_check().method().to_owned(),
            request_body: Some(chain.health_check().request_body().as_bytes_vec()),
            interval: chain.interval(),
            block_gap: chain.block_gap(),
            chain_type: chain.chain_type().to_owned(),
            log_request_detail: chain.log_request(),
            username: match node.user_name() {
                Some(u) => Some(u.clone()),
                None => None,
            },
            password: match node.pass() {
                Some(p) => Some(p.clone()),
                None => None,
            },
            custom_headers: match node.custom_headers() {
                Some(h) => Some(crate::strutil::clone_string_pairs(h)),
                None => None,
            },
        },
    )
}

/// Build one common node's upstream descriptor, or nothing when the URL
/// is unusable.
pub fn create_common_proxy_config(node: &Node, common: &Common) -> (r: Option<ChainProxyConfig>)
    ensures
        common_config_post(*node, *common, r),
{
    let parts = match parse_url(node.address()) {
        Some(p) => p,
        None => {
            return None;
        },
    };
    let host: &String = match &parts.host {
        Some(h) => h,
        None => {
            return None;
        },
    };
    let https = str_eq(parts.scheme.as_str(), "https");
    let http = str_eq(parts.scheme.as_str(), "http");
    if !https && !http {
        return None;
    }
    let port: u16 = match parts.port {
        Some(p) => p,
        None => if https {
            443
        } else {
            80
        },
    };
    let mut addr = host.clone();
    addr.append(":");
    let port_str = u64_to_dec_string(port as u64);
    addr.append(port_str.as_str());
    proof {
        reveal_strlit(":");
        assert(addr@ =~= host@ + ":"@ + dec_str_of(port as nat));
    }
    Some(
        ChainProxyConfig {
            proxy_addr: addr,
            proxy_tls: https,
            proxy_hostname: host.clone(),
            proxy_uri: node.address().to_owned(),
            priority: node.priority(),
            path: common.health_check().path().to_owned(),
            method: common.health_check().method().to_owned(),
            request_body: Some(common.health_check().request_body().as_bytes_vec()),
            interval: common.interval(),
            block_gap: 0,
            chain_type: "".to_owned(),
            log_request_detail: common.log_request(),
            username: match node.user_name() {
                Some(u) => Some(u.clone()),
                None => None,
            },
            password: match node.pass() {
                Some(p) => Some(p.clone()),
                None => None,
            },
            custom_headers: match node.custom_headers() {
                Some(h) => Some(crate::strutil::clone_string_pairs(h)),
                None => None,
            },
        },
    )
}


/// A descriptor list is the pool built from a node list: nodes with
/// unusable URLs are skipped, the rest map in order through `post`.
pub open spec fn filtered_configs(
    nodes: Seq<Node>,
    post: spec_fn(Node, Option<ChainProxyConfig>) -> bool,
    cfgs: Seq<ChainProxyConfig>,
) -> bool
    decreases nodes.len(),
{
    if nodes.len() == 0 {
        cfgs.len() == 0
    } else if node_ok(nodes[0]) {
        cfgs.len() > 0 && post(nodes[0], Some(cfgs[0])) && filtered_configs(
            nodes.drop_first(),
            post,
            cfgs.drop_first(),
        )
    } else {
        filtered_configs(nodes.drop_first(), post, cfgs)
    }
}

/// A usable node appended to the list appends its descriptor to the pool.
proof fn lemma_filtered_push_ok(
    nodes: Seq<Node>,
    post: spec_fn(Node, Option<ChainProxyConfig>) -> bool,
    cfgs: Seq<ChainProxyConfig>,
    n: Node,
    cfg: ChainProxyConfig,
)
    requires
        filtered_configs(nodes, post, cfgs),
        node_ok(n),
        post(n, Some(cfg)),
    ensures
        filtered_configs(nodes.push(n), post, cfgs.push(cfg)),
    decreases nodes.len(),
{
    if nodes.len() == 0 {
        reveal_with_fuel(filtered_configs, 2);
        assert(nodes.push(n)[0] == n);
        assert(cfgs.push(cfg)[0] == cfg);
        assert(nodes.push(n).drop_first() =~= Seq::<Node>::empty());
        assert(cfgs.push(cfg).drop_first() =~= Seq::<ChainProxyConfig>::empty());
    } else {
        assert(nodes.push(n)[0] == nodes[0]);
        assert(nodes.push(n).drop_first() =~= nodes.drop_first().push(n));
        if node_ok(nodes[0]) {
            assert(cfgs.push(cfg)[0] == cfgs[0]);
            assert(cfgs.push(cfg).drop_first() =~= cfgs.drop_first().push(cfg));
            lemma_filtered_push_ok(nodes.drop_first(), post, cfgs.drop_first(), n, cfg);
        } else {
            lemma_filtered_push_ok(nodes.drop_first(), post, cfgs, n, cfg);
        }
    }
}

/// An unusable node appended to the list leaves the pool as it is.
proof fn lemma_filtered_push_bad(
    nodes: Seq<Node>,
    post: spec_fn(Node, Option<ChainProxyConfig>) -> bool,
    cfgs: Seq<ChainProxyConfig>,
    n: Node,
)
    requires
        filtered_configs(nodes, post, cfgs),
        !node_ok(n),
    ensures
        filtered_configs(nodes.push(n), post, cfgs),
    decreases nodes.len(),
{
    if nodes.len() == 0 {
        reveal_with_fuel(filtered_configs, 2);
        assert(nodes.push(n)[0] == n);
        assert(nodes.push(n).drop_first() =~= Seq::<Node>::empty());
    } else {
        assert(nodes.push(n)[0] == nodes[0]);
        assert(nodes.push(n).drop_first() =~= nodes.drop_first().push(n));
        if node_ok(nodes[0]) {
            assert(cfgs.len() > 0);
            lemma_filtered_push_bad(nodes.drop_first(), post, cfgs.drop_first(), n);
        } else {
            lemma_filtered_push_bad(nodes.drop_first(), post, cfgs, n);
        }
    }
}

/// Build the pool for a chain listener's node list, skipping unusable
/// URLs.
#[verifier::loop_isolation(false)]
fn chain_configs_from_nodes(nodes: &Vec<Node>, chain: &Chain) -> (r: Vec<ChainProxyConfig>)
    ensures
        filtered_configs(
            nodes@,
            (|n: Node, c: Option<ChainProxyConfig>| chain_config_post(n, *chain, c)),
            r@,
        ),
{
    let ghost post = |n: Node, c: Option<ChainProxyConfig>| chain_config_post(n, *chain, c);
    let nn = nodes.len();
    let mut r: Vec<ChainProxyConfig> = Vec::new();
    let mut i: usize = 0;
    proof {
        assert(nodes@.take(0) =~= Seq::<Node>::empty());
    }
    while i < nn
        invariant
            i <= nn,
            filtered_configs(nodes@.take(i as int), post, r@),
        decreases nn - i,
    {
        let ghost old_r = r@;
        let node = &nodes[i];
        match create_chain_proxy_config(node, chain) {
            Some(cfg) => {
                let ghost cfg_spec = cfg;
                r.push(cfg);
                proof {
                    lemma_filtered_push_ok(nodes@.take(i as int), post, old_r, *node, cfg_spec);
                    assert(nodes@.take(i as int + 1) =~= nodes@.take(i as int).push(
                        nodes@[i as int],
                    ));
                    assert(r@ =~= old_r.push(cfg_spec));
                }
            },
            None => {
                proof {
                    lemma_filtered_push_bad(nodes@.take(i as int), post, old_r, *node);
                    assert(nodes@.take(i as int + 1) =~= nodes@.take(i as int).push(
                        nodes@[i as int],
                    ));
                }
            },
        }
        i = i + 1;
    }
    proof {
        assert(nodes@.take(nn as int) =~= nodes@);
    }
    r
}

/// Build the pool for a common listener's node list, skipping unusable
/// URLs.
#[verifier::loop_isolation(false)]
fn common_configs_from_nodes(nodes: &Vec<Node>, common: &Common) -> (r: Vec<ChainProxyConfig>)
    ensures
        filtered_configs(
            nodes@,
            (|n: Node, c: Option<ChainProxyConfig>| common_config_post(n, *common, c)),
            r@,
        ),
{
    let ghost post = |n: Node, c: Option<ChainProxyConfig>| common_config_post(n, *common, c);
    let nn = nodes.len();
    let mut r: Vec<ChainProxyConfig> = Vec::new();
    let mut i: usize = 0;
    proof {
        assert(nodes@.take(0) =~= Seq::<Node>::empty());
    }
    while i < nn
        invariant
            i <= nn,
            filtered_configs(nodes@.take(i as int), post, r@),
        decreases nn - i,
    {
        let ghost old_r = r@;
        let node = &nodes[i];
        match create_common_proxy_config(node, common) {
            Some(cfg) => {
                let ghost cfg_spec = cfg;
                r.push(cfg);
                proof {
                    lemma_filtered_push_ok(nodes@.take(i as int), post, old_r, *node, cfg_spec);
                    assert(nodes@.take(i as int + 1) =~= nodes@.take(i as int).push(
                        nodes@[i as int],
                    ));
                    assert(r@ =~= old_r.push(cfg_spec));
                }
            },
            None => {
                proof {
                    lemma_filtered_push_bad(nodes@.take(i as int), post, old_r, *node);
                    assert(nodes@.take(i as int + 1) =~= nodes@.take(i as int).push(
                        nodes@[i as int],
                    ));
                }
            },
        }
        i = i + 1;
    }
    proof {
        assert(nodes@.take(nn as int) =~= nodes@);
    }
    r
}

/// The cluster keys of a pool: each descriptor's upstream URI, in order.
#[verifier::loop_isolation(false)]
pub fn cluster_keys_of(configs: &Vec<ChainProxyConfig>) -> (r: Vec<String>)
    ensures
        r@.len() == configs@.len(),
        forall|i: int| 0 <= i < configs@.len() ==> (#[trigger] r@[i])@ == configs@[i].proxy_uri@,
{
    let n = configs.len();
    let mut r: Vec<String> = Vec::new();
    let mut i: usize = 0;
    while i < n
        invariant
            i <= n,
            r@.len() == i,
            forall|j: int| 0 <= j < i ==> (#[trigger] r@[j])@ == configs@[j].proxy_uri@,
        decreases n - i,
    {
        r.push(configs[i].proxy_uri.clone());
        i = i + 1;
    }
    r
}

/// Every pool member's URI is among cluster keys built this way.
pub proof fn lemma_cluster_keys_cover(
    keys: Seq<String>,
    configs: Seq<ChainProxyConfig>,
    i: int,
)
    requires
        keys.len() == configs.len(),
        forall|j: int| 0 <= j < configs.len() ==> (#[trigger] keys[j])@ == configs[j].proxy_uri@,
        0 <= i < configs.len(),
    ensures
        crate::selector::has_cluster_key(keys, configs[i].proxy_uri@),
{
    assert(keys[i]@ == configs[i].proxy_uri@);
}

/// Which proxy application a listener runs.
#[derive(Debug, Clone, Copy, PartialEq, Eq, Structural)]
pub enum ListenerKind {
    /// A chain pool selected by tip gap.
    Chain,
    /// A chain pool with a single gRPC upstream.
    Grpc,
    /// A common pool selected by health flag.
    Common,
}

/// Everything needed to run one listener.
#[derive(Debug)]
pub struct ListenerSpec {
    pub kind: ListenerKind,
    pub name: String,
    pub protocol: String,
    pub listen: u16,
    pub interval: u64,
    pub log_request_detail: bool,
    pub host_configs: Vec<ChainProxyConfig>,
    pub special_method_configs: Vec<SpecialMethodConfig>,
    pub cluster_keys: Vec<String>,
}

/// What a chain listener's specification holds: the gRPC application for
/// the `grpc` protocol, the pool built from the chain's nodes, special
/// pools built from the chain's special methods, and one cluster key per
/// pool member, equal to its upstream URI.
pub open spec fn chain_listener_post(chain: Chain, r: ListenerSpec) -> bool {
    &&& r.kind == (if chain.protocol@ == "grpc"@ {
        ListenerKind::Grpc
    } else {
        ListenerKind::Chain
    })
    &&& r.name@ == chain.name@
    &&& r.protocol@ == chain.protocol@
    &&& r.listen == chain.listen
    &&& r.interval == chain.interval
    &&& r.log_request_detail == chain.log_request
    &&& filtered_configs(
        chain.nodes@,
        (|n: Node, c: Option<ChainProxyConfig>| chain_config_post(n, chain, c)),
        r.host_configs@,
    )
    &&& (match chain.special_methods {
        None => r.special_method_configs@.len() == 0,
        Some(sm) => r.special_method_configs@.len() == sm.len() && (forall|k: int|
            0 <= k < sm.len() ==> (#[trigger] r.special_method_configs@[k]).method_name@
                == sm[k].method_name@ && filtered_configs(
                sm[k].nodes@,
                (|n: Node, c: Option<ChainProxyConfig>| chain_config_post(n, chain, c)),
                r.special_method_configs@[k].nodes@,
            )),
    })
    &&& r.cluster_keys@.len() == r.host_configs@.len()
    &&& (forall|i: int|
        0 <= i < r.host_configs@.len() ==> (#[trigger] r.cluster_keys@[i])@
            == r.host_configs@[i].proxy_uri@)
}

/// What a common listener's specification holds.
pub open spec fn common_listener_post(common: Common, r: ListenerSpec) -> bool {
    &&& r.kind == ListenerKind::Common
    &&& r.name@ == common.name@
    &&& r.protocol@ == common.protocol@
    &&& r.listen == common.listen
    &&& r.interval == common.interval
    &&& r.log_request_detail == common.log_request
    &&& filtered_configs(
        common.nodes@,
        (|n: Node, c: Option<ChainProxyConfig>| common_config_post(n, common, c)),
        r.host_configs@,
    )
    &&& (match common.special_methods {
        None => r.special_method_configs@.len() == 0,
        Some(sm) => r.special_method_configs@.len() == sm.len() && (forall|k: int|
            0 <= k < sm.len() ==> (#[trigger] r.special_method_configs@[k]).method_name@
                == sm[k].method_name@ && filtered_configs(
                sm[k].nodes@,
                (|n: Node, c: Option<ChainProxyConfig>| common_config_post(n, common, c)),
                r.special_method_configs@[k].nodes@,
            )),
    })
    &&& r.cluster_keys@.len() == r.host_configs@.len()
    &&& (forall|i: int|
        0 <= i < r.host_configs@.len() ==> (#[trigger] r.cluster_keys@[i])@
            == r.host_configs@[i].proxy_uri@)
}

/// Build one chain listener's specification.
#[verifier::loop_isolation(false)]
pub fn chain_listener_spec(chain: &Chain) -> (r: ListenerSpec)
    ensures
        chain_listener_post(*chain, r),
{
    let host_configs = chain_configs_from_nodes(chain.nodes(), chain);
    let cluster_keys = cluster_keys_of(&host_configs);
    let mut special_method_configs: Vec<SpecialMethodConfig> = Vec::new();
    match chain.special_methods() {
        None => {},
        Some(sms) => {
            let nsm = sms.len();
            let mut k: usize = 0;
            while k < nsm
                invariant
                    k <= nsm,
                    special_method_configs@.len() == k,
                    forall|j: int|
                        0 <= j < k ==> (#[trigger] special_method_configs@[j]).method_name@
                            == sms@[j].method_name@ && filtered_configs(
                            sms@[j].nodes@,
                            (|n: Node, c: Option<ChainProxyConfig>| chain_config_post(
                                n,
                                *chain,
                                c,
                            )),
                            special_method_configs@[j].nodes@,
                        ),
                decreases nsm - k,
            {
                let nodes = chain_configs_from_nodes(&sms[k].nodes, chain);
                special_method_configs.push(
                    SpecialMethodConfig { method_name: sms[k].method_name.clone(), nodes },
                );
                k = k + 1;
            }
        },
    }
    let kind = if str_eq(chain.protocol(), "grpc") {
        ListenerKind::Grpc
    } else {
        ListenerKind::Chain
    };
    ListenerSpec {
        kind,
        name: chain.name().to_owned(),
        protocol: chain.protocol().to_owned(),
        listen: chain.listen(),
        interval: chain.interval(),
        log_request_detail: chain.log_request(),
        host_configs,
        special_method_configs,
        cluster_keys,
    }
}

/// Build one common listener's specification.
#[verifier::loop_isolation(false)]
pub fn common_listener_spec(common: &Common) -> (r: ListenerSpec)
    ensures
        common_listener_post(*common, r),
{
    let host_configs = common_configs_from_nodes(common.nodes(), common);
    let cluster_keys = cluster_keys_of(&host_configs);
    let mut special_method_configs: Vec<SpecialMethodConfig> = Vec::new();
    match common.special_methods() {
        None => {},
        Some(sms) => {
            let nsm = sms.len();
            let mut k: usize = 0;
            while k < nsm
                invariant
                    k <= nsm,
                    special_method_configs@.len() == k,
                    forall|j: int|
                        0 <= j < k ==> (#[trigger] special_method_configs@[j]).method_name@
                            == sms@[j].method_name@ && filtered_configs(
                            sms@[j].nodes@,
                            (|n: Node, c: Option<ChainProxyConfig>| common_config_post(
                                n,
                                *common,
                                c,
                            )),
                            special_method_configs@[j].nodes@,
                        ),
                decreases nsm - k,
            {
                let nodes = common_configs_from_nodes(&sms[k].nodes, common);
                special_method_configs.push(
                    SpecialMethodConfig { method_name: sms[k].method_name.clone(), nodes },
                );
                k = k + 1;
            }
        },
    }
    ListenerSpec {
        kind: ListenerKind::Common,
        name: common.name().to_owned(),
        protocol: common.protocol().to_owned(),
        listen: common.listen(),
        interval: common.interval(),
        log_request_detail: common.log_request(),
        host_configs,
        special_method_configs,
        cluster_keys,
    }
}

/// Build every listener's specification from the configuration: the
/// chains in order, then the common pools in order.
#[verifier::loop_isolation(false)]
pub fn listener_specs(config: &Config) -> (r: Vec<ListenerSpec>)
    ensures
        r@.len() == config.chains@.len() + config.commons@.len(),
        forall|i: int|
            0 <= i < config.chains@.len() ==> chain_listener_post(
                #[trigger] config.chains@[i],
                r@[i],
            ),
        forall|j: int|
            0 <= j < config.commons@.len() ==> common_listener_post(
                #[trigger] config.commons@[j],
                r@[config.chains@.len() + j],
            ),
{
    let mut r: Vec<ListenerSpec> = Vec::new();
    let nc = config.chains.len();
    let mut i: usize = 0;
    while i < nc
        invariant
            i <= nc,
            r@.len() == i,
            forall|k: int|
                0 <= k < i ==> chain_listener_post(#[trigger] config.chains@[k], r@[k]),
        decreases nc - i,
    {
        let spec = chain_listener_spec(&config.chains[i]);
        r.push(spec);
        i = i + 1;
    }
    let nm = config.commons.len();
    let mut j: usize = 0;
    while j < nm
        invariant
            j <= nm,
            r@.len() == nc + j,
            forall|k: int|
                0 <= k < nc ==> chain_listener_post(#[trigger] config.chains@[k], r@[k]),
            forall|k: int|
                0 <= k < j ==> common_listener_post(#[trigger] config.commons@[k], r@[nc + k]),
        decreases nm - j,
    {
        let spec = common_listener_spec(&config.commons[j]);
        r.push(spec);
        j = j + 1;
    }
    r
}

/// A bare upstream target for the plain proxy service.
#[derive(Debug, Clone)]
pub struct HostConfigPlain {
    pub proxy_addr: String,
    pub proxy_tls: bool,
    pub proxy_hostname: String,
}

} // verus!
