//! Per-request upstream selection.
//!
//! Once per inbound request the listener asks for an upstream peer: the
//! eligible upstreams are found (by tip gap, health flag, or position,
//! depending on the listener flavour), the highest priority bucket wins, a
//! random member of that bucket is taken, the request URI and Host header
//! are rewritten, and peer options are chosen.  A special-method header can
//! divert the request to a dedicated pool first.

use vstd::prelude::*;
use vstd::string::*;
use crate::kv::{KvList, kv_lookup, lemma_kv_lookup_some};
use crate::state::{NodeState, max_tip, lemma_max_tip_ge};
use crate::strutil::{str_eq, str_concat, string_eq_str};

verus! {

/// Everything the proxy needs to know about one upstream node.
#[derive(Debug, Clone)]
pub struct ChainProxyConfig {
    /// `host:port` used to open the TCP or TLS connection.
    pub proxy_addr: String,
    /// Whether the upstream speaks TLS.
    pub proxy_tls: bool,
    /// SNI and outgoing Host header.
    pub proxy_hostname: String,
    /// Canonical upstream URL including base path; the key into state and
    /// cluster maps and the prefix for URI rewriting.
    pub proxy_uri: String,
    /// Within a request's eligible set, the highest priority bucket wins.
    pub priority: i32,
    /// Health check path.
    pub path: String,
    /// Health check method, such as `POST` or `GET`.
    pub method: String,
    /// Health check request body for chains without a registered checker.
    pub request_body: Option<Vec<u8>>,
    /// Health check interval, in seconds.
    pub interval: u64,
    /// Maximum tolerated lag behind the pool leader before the upstream
    /// becomes ineligible.
    pub block_gap: u64,
    /// Chain type selecting the validator, empty for common pools.
    pub chain_type: String,
    /// Whether request and response bodies are captured for logging.
    pub log_request_detail: bool,
    /// Optional Basic Auth user name for the health probe.
    pub username: Option<String>,
    /// Optional Basic Auth password for the health probe.
    pub password: Option<String>,
    /// Optional extra headers for the health probe.
    pub custom_headers: Option<Vec<(String, String)>>,
}

/// A dedicated pool used when the special-method header matches
/// `method_name` exactly.
#[derive(Debug, Clone)]
pub struct SpecialMethodConfig {
    pub method_name: String,
    pub nodes: Vec<ChainProxyConfig>,
}

/// Why no upstream peer could be produced.
#[derive(Debug, Clone, Copy, PartialEq, Eq, Structural)]
pub enum SelectError {
    /// No upstream has reported a tip yet (cold start, or probes failing).
    NoTipYet,
    /// Every upstream lags the leader or is unhealthy.
    NoEligibleCluster,
    /// The chosen upstream has no cluster; a configuration bug.
    ClusterMissing,
}

impl SelectError {
    /// The static reason logged and surfaced with the failure.
    pub fn reason(&self) -> (r: &'static str)
        ensures
            (match self {
                SelectError::NoTipYet => r@
                    == "No block number found, maybe health check is unavailable or system is starting"@,
                SelectError::NoEligibleCluster => r@ == "No eligible cluster found"@,
                SelectError::ClusterMissing => r@ == "Cluster not found"@,
            }),
    {
        match self {
            SelectError::NoTipYet => "No block number found, maybe health check is unavailable or system is starting",
            SelectError::NoEligibleCluster => "No eligible cluster found",
            SelectError::ClusterMissing => "Cluster not found",
        }
    }
}

/// The ALPN protocols offered to the upstream.
#[derive(Debug, Clone, Copy, PartialEq, Eq, Structural)]
pub enum AlpnChoice {
    H1,
    H2,
}

/// The fixed options template attached to every upstream peer.
#[derive(Debug, Clone, Copy, PartialEq, Eq, Structural)]
pub struct PeerSettings {
    pub verify_hostname: bool,
    pub verify_cert: bool,
    pub connection_timeout_secs: u64,
    pub total_connection_timeout_secs: u64,
    pub read_timeout_secs: u64,
    pub write_timeout_secs: u64,
    pub tcp_recv_buf: usize,
    pub tcp_keepalive_count: usize,
    pub tcp_keepalive_interval_secs: u64,
    pub tcp_keepalive_idle_secs: u64,
    pub alpn: AlpnChoice,
    pub max_h2_streams: usize,
    pub second_keyshare: bool,
}

/// The default peer options: HTTP/1 ALPN, hostname verification on,
/// certificate verification off, and the fixed timeout and keepalive
/// template.
pub open spec fn default_peer_settings() -> PeerSettings {
    PeerSettings {
        verify_hostname: true,
        verify_cert: false,
        connection_timeout_secs: 30,
        total_connection_timeout_secs: 5,
        read_timeout_secs: 30,
        write_timeout_secs: 5,
        tcp_recv_buf: 524288,
        tcp_keepalive_count: 5,
        tcp_keepalive_interval_secs: 10,
        tcp_keepalive_idle_secs: 30,
        alpn: AlpnChoice::H1,
        max_h2_streams: 5,
        second_keyshare: true,
    }
}

/// The ALPN for a listener protocol: HTTP/2 for gRPC listeners, HTTP/1.1
/// for every other.
pub open spec fn alpn_for(protocol: Seq<char>) -> AlpnChoice {
    if protocol == "grpc"@ {
        AlpnChoice::H2
    } else {
        AlpnChoice::H1
    }
}

/// The options attached to a peer of a listener with the given protocol:
/// the default template with the protocol's ALPN.
pub open spec fn peer_options_for(protocol: Seq<char>) -> PeerSettings {
    PeerSettings { alpn: alpn_for(protocol), ..default_peer_settings() }
}

/// One upstream peer, ready for the connector.
#[derive(Debug, Clone)]
pub struct PeerSpec {
    pub addr: String,
    pub tls: bool,
    pub sni: String,
    pub options: PeerSettings,
}

/// Build the peer for an upstream under a listener protocol.
pub fn build_peer(config: &ChainProxyConfig, protocol: &str) -> (r: PeerSpec)
    ensures
        r.addr@ == config.proxy_addr@,
        r.tls == config.proxy_tls,
        r.sni@ == config.proxy_hostname@,
        r.options == peer_options_for(protocol@),
{
    let alpn = if str_eq(protocol, "grpc") {
        AlpnChoice::H2
    } else {
        AlpnChoice::H1
    };
    PeerSpec {
        addr: config.proxy_addr.clone(),
        tls: config.proxy_tls,
        sni: config.proxy_hostname.clone(),
        options: PeerSettings {
            verify_hostname: true,
            verify_cert: false,
            connection_timeout_secs: 30,
            total_connection_timeout_secs: 5,
            read_timeout_secs: 30,
            write_timeout_secs: 5,
            tcp_recv_buf: 524288,
            tcp_keepalive_count: 5,
            tcp_keepalive_interval_secs: 10,
            tcp_keepalive_idle_secs: 30,
            alpn,
            max_h2_streams: 5,
            second_keyshare: true,
        },
    }
}

/// The view of an optional string.
pub open spec fn opt_str_view(q: Option<&str>) -> Option<Seq<char>> {
    match q {
        Some(s) => Some(s@),
        None => None,
    }
}

/// The view of an optional owned string.
pub open spec fn opt_string_view(q: Option<&String>) -> Option<Seq<char>> {
    match q {
        Some(s) => Some(s@),
        None => None,
    }
}

/// The upstream request URI for a listener protocol: `jsonrpc` listeners
/// replace the URI with the upstream URL and drop the query string; `http`
/// and `grpc` listeners append the incoming path (unless empty or `/`) and
/// keep the incoming query string.
pub open spec fn request_uri_of(
    protocol: Seq<char>,
    proxy_uri: Seq<char>,
    path: Seq<char>,
    query: Option<Seq<char>>,
) -> Seq<char> {
    if protocol == "jsonrpc"@ {
        proxy_uri
    } else {
        let base = if path.len() == 0 || path == "/"@ {
            proxy_uri
        } else {
            proxy_uri + path
        };
        match query {
            Some(q) => base + "?"@ + q,
            None => base,
        }
    }
}

/// The query string survives the rewrite exactly when the listener
/// protocol is not `jsonrpc`: then the rewritten URI ends in `?` and the
/// query; a `jsonrpc` listener's URI is the upstream URL alone.
pub proof fn lemma_rewrite_query(
    protocol: Seq<char>,
    proxy_uri: Seq<char>,
    path: Seq<char>,
    q: Seq<char>,
)
    ensures
        protocol != "jsonrpc"@ ==> request_uri_of(protocol, proxy_uri, path, Some(q))
            == request_uri_of(protocol, proxy_uri, path, None) + "?"@ + q,
        protocol == "jsonrpc"@ ==> request_uri_of(protocol, proxy_uri, path, Some(q)) == proxy_uri,
{
}

/// Rewrite the request URI for the chosen upstream.
pub fn rewrite_uri(protocol: &str, proxy_uri: &str, path: &str, query: Option<&str>) -> (r: String)
    ensures
        r@ == request_uri_of(protocol@, proxy_uri@, path@, opt_str_view(query)),
{
    if str_eq(protocol, "jsonrpc") {
        proxy_uri.to_owned()
    } else {
        let base = if path.is_empty() || str_eq(path, "/") {
            proxy_uri.to_owned()
        } else {
            str_concat(proxy_uri, path)
        };
        match query {
            Some(q) => {
                let mut r = base;
                r.append("?");
                r.append(q);
                r
            },
            None => base,
        }
    }
}

/// Index of the first special route whose `method_name` equals `h`, by
/// exact character equality.
pub open spec fn first_route(routes: Seq<SpecialMethodConfig>, h: Seq<char>) -> Option<int>
    decreases routes.len(),
{
    if routes.len() == 0 {
        None
    } else if routes[0].method_name@ == h {
        Some(0int)
    } else {
        match first_route(routes.drop_first(), h) {
            Some(i) => Some(i + 1),
            None => None,
        }
    }
}

/// The special route a request takes: the first route whose name equals
/// the header value exactly; none when the header is absent.
pub open spec fn special_route_of(
    routes: Seq<SpecialMethodConfig>,
    header: Option<Seq<char>>,
) -> Option<int> {
    match header {
        Some(h) => first_route(routes, h),
        None => None,
    }
}

/// A matched route's name equals the header value character for
/// character: no prefix match and no case folding.
pub proof fn lemma_special_match_exact(routes: Seq<SpecialMethodConfig>, h: Seq<char>, i: int)
    requires
        first_route(routes, h) == Some(i),
    ensures
        0 <= i < routes.len(),
        routes[i].method_name@ == h,
    decreases routes.len(),
{
    if routes.len() > 0 && routes[0].method_name@ != h {
        lemma_special_match_exact(routes.drop_first(), h, i - 1);
        assert(routes.drop_first()[i - 1] == routes[i]);
    }
}

/// Find the special route for the request's method header, if any.
#[verifier::loop_isolation(false)]
pub fn find_special_route(
    routes: &Vec<SpecialMethodConfig>,
    header: Option<&String>,
) -> (r: Option<usize>)
    ensures
        match r {
            Some(i) => special_route_of(routes@, opt_string_view(header)) == Some(i as int),
            None => special_route_of(routes@, opt_string_view(header)) is None,
        },
{
    match header {
        None => None,
        Some(h) => {
            let n = routes.len();
            let mut i: usize = 0;
            proof {
                assert(routes@.skip(0) =~= routes@);
            }
            while i < n
                invariant
                    i <= n,
                    first_route(routes@, h@) == (match first_route(routes@.skip(i as int), h@) {
                        Some(k) => Some(k + i),
                        None => None,
                    }),
                decreases n - i,
            {
                proof {
                    assert(routes@.skip(i as int).drop_first() =~= routes@.skip(i as int + 1));
                    assert(routes@.skip(i as int)[0] == routes@[i as int]);
                }
                if string_eq_str(&routes[i].method_name, h.as_str()) {
                    return Some(i);
                }
                i = i + 1;
            }
            proof {
                assert(routes@.skip(n as int) =~= Seq::<SpecialMethodConfig>::empty());
            }
            None
        },
    }
}

/// Whether an upstream passes the tip-gap filter: it has a recorded tip
/// and lags the pool leader by at most `gap`.
pub open spec fn chain_eligible(
    config: ChainProxyConfig,
    tips: Seq<(String, u64)>,
    gap: u64,
) -> bool {
    match kv_lookup(tips, config.proxy_uri@) {
        Some(t) => max_tip(tips) - t <= gap,
        None => false,
    }
}

/// An upstream whose tip lags the leader by more than the gap is never
/// eligible.
pub proof fn lemma_gap_excluded(config: ChainProxyConfig, tips: Seq<(String, u64)>, gap: u64)
    requires
        (match kv_lookup(tips, config.proxy_uri@) {
            Some(t) => t + gap < max_tip(tips),
            None => true,
        }),
    ensures
        !chain_eligible(config, tips, gap),
{
}

/// Whether a common-pool upstream is eligible: its last probe succeeded.
pub open spec fn common_eligible(config: ChainProxyConfig, health: Seq<(String, bool)>) -> bool {
    kv_lookup(health, config.proxy_uri@) == Some(true)
}

/// Indices of the upstreams that pass the tip-gap filter.
#[verifier::loop_isolation(false)]
fn eligible_indices_chain(
    configs: &Vec<ChainProxyConfig>,
    tips: &KvList<u64>,
    gap: u64,
) -> (r: Vec<usize>)
    ensures
        forall|j: int|
            0 <= j < r@.len() ==> (#[trigger] r@[j]) < configs@.len() && chain_eligible(
                configs@[r@[j] as int],
                tips@,
                gap,
            ),
        forall|i: int|
            0 <= i < configs@.len() && chain_eligible(#[trigger] configs@[i], tips@, gap)
                ==> r@.contains(i as usize),
{
    let m = crate::state::max_tip_of(tips);
    let n = configs.len();
    let mut r: Vec<usize> = Vec::new();
    let mut i: usize = 0;
    while i < n
        invariant
            i <= n,
            forall|j: int|
                0 <= j < r@.len() ==> (#[trigger] r@[j]) < configs@.len() && chain_eligible(
                    configs@[r@[j] as int],
                    tips@,
                    gap,
                ),
            forall|k: int|
                0 <= k < i && chain_eligible(#[trigger] configs@[k], tips@, gap) ==> r@.contains(
                    k as usize,
                ),
        decreases n - i,
    {
        match tips.get(configs[i].proxy_uri.as_str()) {
            Some(t) => {
                proof {
                    lemma_kv_lookup_some(tips@, configs@[i as int].proxy_uri@, *t);
                    let j = choose|j: int|
                        0 <= j < tips@.len() && (#[trigger] tips@[j]).0@
                            == configs@[i as int].proxy_uri@ && tips@[j].1 == *t;
                    lemma_max_tip_ge(tips@, j);
                }
                if m - *t <= gap {
                    let ghost old_r = r@;
                    r.push(i);
                    proof {
                        assert forall|k: int|
                            0 <= k < i + 1 && chain_eligible(
                                #[trigger] configs@[k],
                                tips@,
                                gap,
                            ) implies r@.contains(k as usize) by {
                            if k < i {
                                let j = choose|j: int|
                                    0 <= j < old_r.len() && old_r[j] == k as usize;
                                assert(r@[j] == k as usize);
                            } else {
                                assert(r@[r@.len() - 1] == i as usize);
                            }
                        }
                    }
                }
            },
            None => {},
        }
        i = i + 1;
    }
    r
}

/// Indices of the common-pool upstreams whose last probe succeeded.
#[verifier::loop_isolation(false)]
fn eligible_indices_common(
    configs: &Vec<ChainProxyConfig>,
    health: &NodeState,
) -> (r: Vec<usize>)
    ensures
        forall|j: int|
            0 <= j < r@.len() ==> (#[trigger] r@[j]) < configs@.len() && common_eligible(
                configs@[r@[j] as int],
                health.health_status@,
            ),
        forall|i: int|
            0 <= i < configs@.len() && common_eligible(#[trigger] configs@[i], health.health_status@)
                ==> r@.contains(i as usize),
{
    let n = configs.len();
    let mut r: Vec<usize> = Vec::new();
    let mut i: usize = 0;
    while i < n
        invariant
            i <= n,
            forall|j: int|
                0 <= j < r@.len() ==> (#[trigger] r@[j]) < configs@.len() && common_eligible(
                    configs@[r@[j] as int],
                    health.health_status@,
                ),
            forall|k: int|
                0 <= k < i && common_eligible(#[trigger] configs@[k], health.health_status@)
                    ==> r@.contains(k as usize),
        decreases n - i,
    {
        if health.is_healthy(configs[i].proxy_uri.as_str()) {
            let ghost old_r = r@;
            r.push(i);
            proof {
                assert forall|k: int|
                    0 <= k < i + 1 && common_eligible(
                        #[trigger] configs@[k],
                        health.health_status@,
                    ) implies r@.contains(k as usize) by {
                    if k < i {
                        let j = choose|j: int| 0 <= j < old_r.len() && old_r[j] == k as usize;
                        assert(r@[j] == k as usize);
                    } else {
                        assert(r@[r@.len() - 1] == i as usize);
                    }
                }
            }
        }
        i = i + 1;
    }
    r
}

/// Relies on `rand::random_range`: one index drawn uniformly at random
/// below `n`; panics on an empty range, so `n` must be positive.
#[verifier::external_body]
fn random_below(n: usize) -> (r: usize)
    requires
        n > 0,
    ensures
        r < n,
{
    rand::random_range(0..n)
}

/// An index that is eligible and of maximal priority among the eligible.
pub open spec fn eligible_top(
    configs: Seq<ChainProxyConfig>,
    elig: spec_fn(int) -> bool,
    i: int,
) -> bool {
    &&& 0 <= i < configs.len()
    &&& elig(i)
    &&& forall|j: int|
        0 <= j < configs.len() && elig(j) ==> (#[trigger] configs[j]).priority <= configs[i].priority
}

/// Some cluster key equals the string `u`.
pub open spec fn has_cluster_key(keys: Seq<String>, u: Seq<char>) -> bool {
    exists|j: int| 0 <= j < keys.len() && (#[trigger] keys[j])@ == u
}

/// A produced upstream peer with the rewritten request parts.
#[derive(Debug, Clone)]
pub struct UpstreamSelection {
    /// Index of the chosen node in the pool that was considered (the
    /// special route's pool when one matched, the listener's otherwise).
    pub index: usize,
    /// The special route that was taken, if any.
    pub special_route: Option<usize>,
    /// The value for the outgoing Host header.
    pub host_header: String,
    /// The rewritten request URI.
    pub uri: String,
    /// The upstream peer.
    pub peer: PeerSpec,
}

/// What a successful selection over a pool guarantees: the chosen node is
/// eligible and of top priority among the eligible, the Host header and
/// peer come from it, the URI is the protocol's rewrite, and its cluster
/// exists.
pub open spec fn selection_ok(
    s: UpstreamSelection,
    configs: Seq<ChainProxyConfig>,
    elig: spec_fn(int) -> bool,
    protocol: Seq<char>,
    cluster_keys: Seq<String>,
    path: Seq<char>,
    query: Option<Seq<char>>,
) -> bool {
    &&& eligible_top(configs, elig, s.index as int)
    &&& s.host_header@ == configs[s.index as int].proxy_hostname@
    &&& s.uri@ == request_uri_of(protocol, configs[s.index as int].proxy_uri@, path, query)
    &&& s.peer.addr@ == configs[s.index as int].proxy_addr@
    &&& s.peer.tls == configs[s.index as int].proxy_tls
    &&& s.peer.sni@ == configs[s.index as int].proxy_hostname@
    &&& s.peer.options == peer_options_for(protocol)
    &&& has_cluster_key(cluster_keys, configs[s.index as int].proxy_uri@)
}

/// Whether some cluster key equals `u`.
#[verifier::loop_isolation(false)]
fn contains_cluster_key(keys: &Vec<String>, u: &String) -> (r: bool)
    ensures
        r == has_cluster_key(keys@, u@),
{
    let n = keys.len();
    let mut i: usize = 0;
    while i < n
        invariant
            i <= n,
            forall|j: int| 0 <= j < i ==> (#[trigger] keys@[j])@ != u@,
        decreases n - i,
    {
        if string_eq_str(&keys[i], u.as_str()) {
            return true;
        }
        i = i + 1;
    }
    proof {
        if has_cluster_key(keys@, u@) {
            let j = choose|j: int| 0 <= j < keys@.len() && (#[trigger] keys@[j])@ == u@;
            assert(false);
        }
    }
    false
}

/// Choose one node from the eligible indices: find the top priority, take
/// its bucket, pick one member at random (or the only one), check its
/// cluster, and rewrite the request for it.
#[verifier::loop_isolation(false)]
fn decide_from(
    configs: &Vec<ChainProxyConfig>,
    idxs: &Vec<usize>,
    Ghost(elig): Ghost<spec_fn(int) -> bool>,
    protocol: &str,
    cluster_keys: &Vec<String>,
    special_route: Option<usize>,
    req_path: &str,
    req_query: Option<&str>,
) -> (r: Result<UpstreamSelection, SelectError>)
    requires
        idxs@.len() > 0,
        forall|j: int|
            0 <= j < idxs@.len() ==> ((#[trigger] idxs@[j]) as int) < configs@.len() && elig(
                idxs@[j] as int,
            ),
        forall|i: int| 0 <= i < configs@.len() && #[trigger] elig(i) ==> idxs@.contains(i as usize),
    ensures
        (match r {
            Ok(s) => selection_ok(
                s,
                configs@,
                elig,
                protocol@,
                cluster_keys@,
                req_path@,
                opt_str_view(req_query),
            ) && s.special_route == special_route,
            Err(e) => e == SelectError::ClusterMissing && (exists|i: int|
                #[trigger] eligible_top(configs@, elig, i) && !has_cluster_key(
                    cluster_keys@,
                    configs@[i].proxy_uri@,
                )),
        }),
        (forall|i: int|
            #[trigger] eligible_top(configs@, elig, i) ==> has_cluster_key(
                cluster_keys@,
                configs@[i].proxy_uri@,
            )) ==> r is Ok,
{
    let n = idxs.len();
    let ncfg = configs.len();
    let mut maxp: i32 = configs[idxs[0]].priority;
    let mut i: usize = 1;
    proof {
        assert(configs@[idxs@[0] as int].priority == maxp);
    }
    while i < n
        invariant
            1 <= i <= n,
            exists|j: int| 0 <= j < i && configs@[(#[trigger] idxs@[j]) as int].priority == maxp,
            forall|j: int| 0 <= j < i ==> configs@[(#[trigger] idxs@[j]) as int].priority <= maxp,
        decreases n - i,
    {
        if configs[idxs[i]].priority > maxp {
            maxp = configs[idxs[i]].priority;
        }
        i = i + 1;
    }
    let mut bucket: Vec<usize> = Vec::new();
    let mut k: usize = 0;
    while k < n
        invariant
            k <= n,
            forall|b: int|
                0 <= b < bucket@.len() ==> ((#[trigger] bucket@[b]) as int) < configs@.len() && elig(
                    bucket@[b] as int,
                ) && configs@[bucket@[b] as int].priority == maxp,
            (exists|j: int| 0 <= j < k && configs@[(#[trigger] idxs@[j]) as int].priority == maxp)
                ==> bucket@.len() > 0,
        decreases n - k,
    {
        if configs[idxs[k]].priority == maxp {
            bucket.push(idxs[k]);
        }
        k = k + 1;
    }
    let bi: usize = if bucket.len() == 1 {
        0
    } else {
        random_below(bucket.len())
    };
    let chosen: usize = bucket[bi];
    proof {
        assert(bucket@[bi as int] == chosen);
        assert(configs@[chosen as int].priority == maxp);
        assert(eligible_top(configs@, elig, chosen as int)) by {
            assert forall|j: int| 0 <= j < configs@.len() && elig(j) implies (
            #[trigger] configs@[j]).priority <= configs@[chosen as int].priority by {
                assert((j as usize) as int == j);
                assert(idxs@.contains(j as usize));
                let jj = choose|jj: int| 0 <= jj < idxs@.len() && idxs@[jj] == (j as usize);
                assert(configs@[(idxs@[jj]) as int].priority <= maxp);
            }
        }
    }
    let config = &configs[chosen];
    if !contains_cluster_key(cluster_keys, &config.proxy_uri) {
        return Err(SelectError::ClusterMissing);
    }
    let uri = rewrite_uri(protocol, config.proxy_uri.as_str(), req_path, req_query);
    let peer = build_peer(config, protocol);
    Ok(
        UpstreamSelection {
            index: chosen,
            special_route,
            host_header: config.proxy_hostname.clone(),
            uri,
            peer,
        },
    )
}

/// What deciding over one pool guarantees: a success satisfies
/// [`selection_ok`] and records the route taken; the only failure is a
/// missing cluster for some top-priority eligible node, and when every
/// top-priority eligible node has its cluster, the decision succeeds.
pub open spec fn pool_decision_post(
    configs: Seq<ChainProxyConfig>,
    elig: spec_fn(int) -> bool,
    protocol: Seq<char>,
    cluster_keys: Seq<String>,
    path: Seq<char>,
    query: Option<Seq<char>>,
    route: Option<usize>,
    r: Result<UpstreamSelection, SelectError>,
) -> bool {
    &&& (match r {
        Ok(s) => selection_ok(s, configs, elig, protocol, cluster_keys, path, query)
            && s.special_route == route,
        Err(e) => e == SelectError::ClusterMissing && (exists|i: int|
            #[trigger] eligible_top(configs, elig, i) && !has_cluster_key(
                cluster_keys,
                configs[i].proxy_uri@,
            )),
    })
    &&& ((forall|i: int|
        #[trigger] eligible_top(configs, elig, i) ==> has_cluster_key(
            cluster_keys,
            configs[i].proxy_uri@,
        )) ==> r is Ok)
}

/// The contract of a chain listener's upstream decision.  A matching
/// special-method route diverts to its pool with every node eligible;
/// otherwise a zero maximum tip means no tip has been recorded yet, an
/// empty tip-gap filter result means no cluster is eligible, and else one
/// top-priority node within the gap is chosen.
pub open spec fn chain_decision_post(
    sel: ProxySelector,
    tips: Seq<(String, u64)>,
    header: Option<Seq<char>>,
    path: Seq<char>,
    query: Option<Seq<char>>,
    r: Result<UpstreamSelection, SelectError>,
) -> bool {
    match special_route_of(sel.special_method_configs@, header) {
        Some(ri) => {
            let nodes = sel.special_method_configs@[ri].nodes@;
            if nodes.len() == 0 {
                r == Err::<UpstreamSelection, SelectError>(SelectError::NoEligibleCluster)
            } else {
                pool_decision_post(
                    nodes,
                    (|i: int| true),
                    sel.protocol@,
                    sel.cluster_keys@,
                    path,
                    query,
                    Some(ri as usize),
                    r,
                )
            }
        },
        None => {
            let gap = sel.host_configs@[0].block_gap;
            if max_tip(tips) == 0 {
                r == Err::<UpstreamSelection, SelectError>(SelectError::NoTipYet)
            } else if forall|i: int|
                0 <= i < sel.host_configs@.len() ==> !chain_eligible(
                    #[trigger] sel.host_configs@[i],
                    tips,
                    gap,
                ) {
                r == Err::<UpstreamSelection, SelectError>(SelectError::NoEligibleCluster)
            } else {
                pool_decision_post(
                    sel.host_configs@,
                    (|i: int| chain_eligible(sel.host_configs@[i], tips, gap)),
                    sel.protocol@,
                    sel.cluster_keys@,
                    path,
                    query,
                    None::<usize>,
                    r,
                )
            }
        },
    }
}

/// The contract of a common listener's upstream decision: as the chain
/// listener's, with the health flag in place of the tip-gap filter and no
/// cold-start error.
pub open spec fn common_decision_post(
    sel: ProxySelector,
    health: Seq<(String, bool)>,
    header: Option<Seq<char>>,
    path: Seq<char>,
    query: Option<Seq<char>>,
    r: Result<UpstreamSelection, SelectError>,
) -> bool {
    match special_route_of(sel.special_method_configs@, header) {
        Some(ri) => {
            let nodes = sel.special_method_configs@[ri].nodes@;
            if nodes.len() == 0 {
                r == Err::<UpstreamSelection, SelectError>(SelectError::NoEligibleCluster)
            } else {
                pool_decision_post(
                    nodes,
                    (|i: int| true),
                    sel.protocol@,
                    sel.cluster_keys@,
                    path,
                    query,
                    Some(ri as usize),
                    r,
                )
            }
        },
        None => {
            if forall|i: int|
                0 <= i < sel.host_configs@.len() ==> !common_eligible(
                    #[trigger] sel.host_configs@[i],
                    health,
                ) {
                r == Err::<UpstreamSelection, SelectError>(SelectError::NoEligibleCluster)
            } else {
                pool_decision_post(
                    sel.host_configs@,
                    (|i: int| common_eligible(sel.host_configs@[i], health)),
                    sel.protocol@,
                    sel.cluster_keys@,
                    path,
                    query,
                    None::<usize>,
                    r,
                )
            }
        },
    }
}

/// The contract of a gRPC listener's upstream decision: the first
/// configured node wins, with no eligibility filter and no special-method
/// diversion.
pub open spec fn grpc_decision_post(
    sel: ProxySelector,
    path: Seq<char>,
    query: Option<Seq<char>>,
    r: Result<UpstreamSelection, SelectError>,
) -> bool {
    if sel.host_configs@.len() == 0 {
        r == Err::<UpstreamSelection, SelectError>(SelectError::NoEligibleCluster)
    } else {
        pool_decision_post(
            sel.host_configs@,
            (|i: int| i == 0),
            sel.protocol@,
            sel.cluster_keys@,
            path,
            query,
            None::<usize>,
            r,
        )
    }
}

/// One listener's selection state: its pool, special routes, protocol and
/// the keys of the clusters it owns.
#[derive(Debug)]
pub struct ProxySelector {
    /// The listener's chain or pool name, a metrics label.
    pub chain_name: String,
    /// The listener protocol: `jsonrpc`, `http` or `grpc`.
    pub protocol: String,
    /// Whether request and response bodies are captured for logging.
    pub log_request_detail: bool,
    /// The configured upstream pool.
    pub host_configs: Vec<ChainProxyConfig>,
    /// The special-method routes.
    pub special_method_configs: Vec<SpecialMethodConfig>,
    /// The keys of the per-node clusters the listener owns.
    pub cluster_keys: Vec<String>,
}

impl ProxySelector {
    pub fn new(
        chain_name: String,
        protocol: String,
        log_request_detail: bool,
        host_configs: Vec<ChainProxyConfig>,
        special_method_configs: Vec<SpecialMethodConfig>,
        cluster_keys: Vec<String>,
    ) -> (r: Self)
        ensures
            r.chain_name == chain_name,
            r.protocol == protocol,
            r.log_request_detail == log_request_detail,
            r.host_configs == host_configs,
            r.special_method_configs == special_method_configs,
            r.cluster_keys == cluster_keys,
    {
        ProxySelector {
            chain_name,
            protocol,
            log_request_detail,
            host_configs,
            special_method_configs,
            cluster_keys,
        }
    }

    /// All indices of a pool, for a decision without an eligibility
    /// filter.
    #[verifier::loop_isolation(false)]
    fn all_indices(n: usize) -> (r: Vec<usize>)
        ensures
            r@.len() == n,
            forall|j: int| 0 <= j < n ==> (#[trigger] r@[j]) == j,
    {
        let mut r: Vec<usize> = Vec::new();
        let mut i: usize = 0;
        while i < n
            invariant
                i <= n,
                r@.len() == i,
                forall|j: int| 0 <= j < i ==> (#[trigger] r@[j]) == j,
            decreases n - i,
        {
            r.push(i);
            i = i + 1;
        }
        r
    }

    /// Decide the upstream for a chain listener: special-method diversion
    /// first, then the tip-gap filter over the current tips snapshot.
    pub fn upstream_decision_chain(
        &self,
        tips: &KvList<u64>,
        special_header: Option<&String>,
        req_path: &str,
        req_query: Option<&str>,
    ) -> (r: Result<UpstreamSelection, SelectError>)
        requires
            self.host_configs@.len() > 0,
        ensures
            chain_decision_post(
                *self,
                tips@,
                opt_string_view(special_header),
                req_path@,
                opt_str_view(req_query),
                r,
            ),
    {
        match find_special_route(&self.special_method_configs, special_header) {
            Some(ri) => {
                proof {
                    let hv = opt_string_view(special_header);
                    lemma_special_match_exact(
                        self.special_method_configs@,
                        hv.unwrap(),
                        ri as int,
                    );
                }
                let nodes = &self.special_method_configs[ri].nodes;
                let nn = nodes.len();
                if nn == 0 {
                    return Err(SelectError::NoEligibleCluster);
                }
                let idxs = Self::all_indices(nn);
                proof {
                    assert forall|i: int| 0 <= i < nodes@.len() implies #[trigger] idxs@.contains(
                        i as usize,
                    ) by {
                        assert(idxs@[i] == i as usize);
                    }
                }
                decide_from(
                    nodes,
                    &idxs,
                    Ghost(|i: int| true),
                    self.protocol.as_str(),
                    &self.cluster_keys,
                    Some(ri),
                    req_path,
                    req_query,
                )
            },
            None => {
                let m = crate::state::max_tip_of(tips);
                if m == 0 {
                    return Err(SelectError::NoTipYet);
                }
                let gap = self.host_configs[0].block_gap;
                let idxs = eligible_indices_chain(&self.host_configs, tips, gap);
                if idxs.len() == 0 {
                    proof {
                        assert forall|i: int| 0 <= i < self.host_configs@.len() implies
                            !chain_eligible(#[trigger] self.host_configs@[i], tips@, gap) by {
                            if chain_eligible(self.host_configs@[i], tips@, gap) {
                                assert(idxs@.contains(i as usize));
                                let j = choose|j: int|
                                    0 <= j < idxs@.len() && idxs@[j] == (i as usize);
                            }
                        }
                    }
                    return Err(SelectError::NoEligibleCluster);
                }
                decide_from(
                    &self.host_configs,
                    &idxs,
                    Ghost(|i: int| chain_eligible(self.host_configs@[i], tips@, gap)),
                    self.protocol.as_str(),
                    &self.cluster_keys,
                    None,
                    req_path,
                    req_query,
                )
            },
        }
    }

    /// Decide the upstream for a common listener: special-method diversion
    /// first, then the health filter over the current flags.
    pub fn upstream_decision_common(
        &self,
        health: &NodeState,
        special_header: Option<&String>,
        req_path: &str,
        req_query: Option<&str>,
    ) -> (r: Result<UpstreamSelection, SelectError>)
        ensures
            common_decision_post(
                *self,
                health.health_status@,
                opt_string_view(special_header),
                req_path@,
                opt_str_view(req_query),
                r,
            ),
    {
        match find_special_route(&self.special_method_configs, special_header) {
            Some(ri) => {
                proof {
                    let hv = opt_string_view(special_header);
                    lemma_special_match_exact(
                        self.special_method_configs@,
                        hv.unwrap(),
                        ri as int,
                    );
                }
                let nodes = &self.special_method_configs[ri].nodes;
                let nn = nodes.len();
                if nn == 0 {
                    return Err(SelectError::NoEligibleCluster);
                }
                let idxs = Self::all_indices(nn);
                proof {
                    assert forall|i: int| 0 <= i < nodes@.len() implies #[trigger] idxs@.contains(
                        i as usize,
                    ) by {
                        assert(idxs@[i] == i as usize);
                    }
                }
                decide_from(
                    nodes,
                    &idxs,
                    Ghost(|i: int| true),
                    self.protocol.as_str(),
                    &self.cluster_keys,
                    Some(ri),
                    req_path,
                    req_query,
                )
            },
            None => {
                let idxs = eligible_indices_common(&self.host_configs, health);
                if idxs.len() == 0 {
                    proof {
                        assert forall|i: int| 0 <= i < self.host_configs@.len() implies
                            !common_eligible(
                            #[trigger] self.host_configs@[i],
                            health.health_status@,
                        ) by {
                            if common_eligible(self.host_configs@[i], health.health_status@) {
                                assert(idxs@.contains(i as usize));
                                let j = choose|j: int|
                                    0 <= j < idxs@.len() && idxs@[j] == (i as usize);
                            }
                        }
                    }
                    return Err(SelectError::NoEligibleCluster);
                }
                decide_from(
                    &self.host_configs,
                    &idxs,
                    Ghost(|i: int| common_eligible(self.host_configs@[i], health.health_status@)),
                    self.protocol.as_str(),
                    &self.cluster_keys,
                    None,
                    req_path,
                    req_query,
                )
            },
        }
    }

    /// Decide the upstream for a gRPC listener: the first configured node.
    pub fn upstream_decision_grpc(&self, req_path: &str, req_query: Option<&str>) -> (r: Result<
        UpstreamSelection,
        SelectError,
    >)
        ensures
            grpc_decision_post(*self, req_path@, opt_str_view(req_query), r),
    {
        if self.host_configs.len() == 0 {
            return Err(SelectError::NoEligibleCluster);
        }
        let mut idxs: Vec<usize> = Vec::new();
        idxs.push(0);
        proof {
            assert(idxs@[0] == 0usize);
            assert forall|i: int| 0 <= i < self.host_configs@.len() && i == 0 implies
                #[trigger] idxs@.contains(i as usize) by {
                assert(idxs@[0] == i as usize);
            }
        }
        decide_from(
            &self.host_configs,
            &idxs,
            Ghost(|i: int| i == 0),
            self.protocol.as_str(),
            &self.cluster_keys,
            None,
            req_path,
            req_query,
        )
    }
}


/// An upstream peer of a gRPC listener offers HTTP/2; every other
/// listener's peer offers HTTP/1.1.
pub proof fn lemma_peer_alpn(protocol: Seq<char>)
    ensures
        protocol == "grpc"@ ==> peer_options_for(protocol).alpn == AlpnChoice::H2,
        protocol != "grpc"@ ==> peer_options_for(protocol).alpn == AlpnChoice::H1,
{
}

/// A node whose tip lags the pool leader by more than the gap is never
/// the outcome of a chain decision, unless a special-method route
/// diverted the request.
pub proof fn lemma_lagging_node_never_selected(
    sel: ProxySelector,
    tips: Seq<(String, u64)>,
    header: Option<Seq<char>>,
    path: Seq<char>,
    query: Option<Seq<char>>,
    r: Result<UpstreamSelection, SelectError>,
    i: int,
)
    requires
        chain_decision_post(sel, tips, header, path, query, r),
        special_route_of(sel.special_method_configs@, header) is None,
        sel.host_configs@.len() > 0,
        r is Ok,
        0 <= i < sel.host_configs@.len(),
        (match kv_lookup(tips, sel.host_configs@[i].proxy_uri@) {
            Some(t) => t + sel.host_configs@[0].block_gap < max_tip(tips),
            None => true,
        }),
    ensures
        r.unwrap().index != i,
{
    let gap = sel.host_configs@[0].block_gap;
    lemma_gap_excluded(sel.host_configs@[i], tips, gap);
    if r.unwrap().index == i {
        assert(chain_eligible(sel.host_configs@[i], tips, gap));
    }
}

} // verus!
