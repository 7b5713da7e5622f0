//! The unify listener: one public port demultiplexed into the per-chain
//! listeners by URL prefix.
//!
//! A request path `/<chain_type>/<chain_name>[/<tail>]` is mapped through a
//! config-built table to the matching chain listener's local port; the two
//! leading segments are stripped and the request forwarded to
//! `127.0.0.1:<port>` over plain HTTP.

use vstd::prelude::*;
use vstd::string::*;
use crate::config::Config;
use crate::strutil::{str_concat, string_eq_str};

verus! {

/// Port under the first entry for `(ct, cn)`, or `None`.
pub open spec fn port_lookup(
    entries: Seq<(String, String, u16)>,
    ct: Seq<char>,
    cn: Seq<char>,
) -> Option<u16>
    decreases entries.len(),
{
    if entries.len() == 0 {
        None
    } else if entries[0].0@ == ct && entries[0].1@ == cn {
        Some(entries[0].2)
    } else {
        port_lookup(entries.drop_first(), ct, cn)
    }
}

/// The port of the last chain with the given type and name, or `None`.
pub open spec fn chains_port(
    chains: Seq<crate::config::Chain>,
    ct: Seq<char>,
    cn: Seq<char>,
) -> Option<u16>
    decreases chains.len(),
{
    if chains.len() == 0 {
        None
    } else if chains.last().chain_type@ == ct && chains.last().name@ == cn {
        Some(chains.last().listen)
    } else {
        chains_port(chains.drop_last(), ct, cn)
    }
}

/// Replacing the first entry for a pair changes that pair's lookup alone.
proof fn lemma_port_update(
    entries: Seq<(String, String, u16)>,
    i: int,
    e: (String, String, u16),
    ct: Seq<char>,
    cn: Seq<char>,
)
    requires
        0 <= i < entries.len(),
        entries[i].0@ == e.0@,
        entries[i].1@ == e.1@,
        forall|j: int|
            0 <= j < i ==> !((#[trigger] entries[j]).0@ == e.0@ && entries[j].1@ == e.1@),
    ensures
        port_lookup(entries.update(i, e), ct, cn) == (if ct == e.0@ && cn == e.1@ {
            Some(e.2)
        } else {
            port_lookup(entries, ct, cn)
        }),
    decreases entries.len(),
{
    let u = entries.update(i, e);
    if i == 0 {
        assert(u.drop_first() =~= entries.drop_first());
    } else {
        assert(u[0] == entries[0]);
        assert(u.drop_first() =~= entries.drop_first().update(i - 1, e));
        assert forall|j: int|
            0 <= j < i - 1 implies !((#[trigger] entries.drop_first()[j]).0@ == e.0@
            && entries.drop_first()[j].1@ == e.1@) by {
            assert(entries.drop_first()[j] == entries[j + 1]);
        }
        assert(entries.drop_first()[i - 1] == entries[i]);
        lemma_port_update(entries.drop_first(), i - 1, e, ct, cn);
    }
}

/// Appending an entry under a fresh pair changes that pair's lookup alone.
proof fn lemma_port_push(
    entries: Seq<(String, String, u16)>,
    e: (String, String, u16),
    ct: Seq<char>,
    cn: Seq<char>,
)
    requires
        port_lookup(entries, e.0@, e.1@) is None,
    ensures
        port_lookup(entries.push(e), ct, cn) == (if ct == e.0@ && cn == e.1@ {
            Some(e.2)
        } else {
            port_lookup(entries, ct, cn)
        }),
    decreases entries.len(),
{
    let u = entries.push(e);
    if entries.len() == 0 {
        reveal_with_fuel(port_lookup, 2);
        assert(u[0] == e);
        assert(u.drop_first() =~= Seq::<(String, String, u16)>::empty());
    } else {
        assert(u[0] == entries[0]);
        assert(u.drop_first() =~= entries.drop_first().push(e));
        lemma_port_push(entries.drop_first(), e, ct, cn);
    }
}

/// The mapping `chain_type -> chain_name -> port`, and the unify
/// listener's own port.
#[derive(Debug, Clone)]
pub struct UnifyProxyConfig {
    chain_ports: Vec<(String, String, u16)>,
    listen_port: u16,
}

impl UnifyProxyConfig {
    pub closed spec fn ports(&self) -> Seq<(String, String, u16)> {
        self.chain_ports@
    }

    pub closed spec fn spec_listen_port(&self) -> u16 {
        self.listen_port
    }

    /// Bind a `(chain type, chain name)` pair to a port, replacing any
    /// earlier binding of the same pair.
    #[verifier::loop_isolation(false)]
    fn set_port(&mut self, chain_type: &str, chain_name: &str, port: u16)
        ensures
            final(self).listen_port == old(self).listen_port,
            port_lookup(final(self).ports(), chain_type@, chain_name@) == Some(port),
            forall|ct: Seq<char>, cn: Seq<char>|
                #![trigger port_lookup(final(self).ports(), ct, cn)]
                #![trigger port_lookup(old(self).ports(), ct, cn)]
                !(ct == chain_type@ && cn == chain_name@) ==> port_lookup(
                    final(self).ports(),
                    ct,
                    cn,
                ) == port_lookup(old(self).ports(), ct, cn),
    {
        let n = self.chain_ports.len();
        let mut i: usize = 0;
        while i < n
            invariant
                i <= n,
                n == self.chain_ports@.len(),
                self.chain_ports@ == old(self).chain_ports@,
                self.listen_port == old(self).listen_port,
                forall|j: int|
                    0 <= j < i ==> !((#[trigger] self.chain_ports@[j]).0@ == chain_type@
                        && self.chain_ports@[j].1@ == chain_name@),
            decreases n - i,
        {
            if string_eq_str(&self.chain_ports[i].0, chain_type) && string_eq_str(
                &self.chain_ports[i].1,
                chain_name,
            ) {
                let ct = chain_type.to_owned();
                let cn = chain_name.to_owned();
                self.chain_ports.set(i, (ct, cn, port));
                proof {
                    assert forall|ct2: Seq<char>, cn2: Seq<char>| true implies #[trigger]
                        port_lookup(self.chain_ports@, ct2, cn2) == (if ct2 == chain_type@ && cn2
                        == chain_name@ {
                        Some(port)
                    } else {
                        port_lookup(old(self).chain_ports@, ct2, cn2)
                    }) by {
                        lemma_port_update(
                            old(self).chain_ports@,
                            i as int,
                            self.chain_ports@[i as int],
                            ct2,
                            cn2,
                        );
                    }
                }
                return ;
            }
            i = i + 1;
        }
        let ct = chain_type.to_owned();
        let cn = chain_name.to_owned();
        self.chain_ports.push((ct, cn, port));
        proof {
            let e = self.chain_ports@[self.chain_ports@.len() - 1];
            assert(self.chain_ports@ =~= old(self).chain_ports@.push(e));
            if port_lookup(old(self).chain_ports@, chain_type@, chain_name@) is Some {
                lemma_port_some_witness(old(self).chain_ports@, chain_type@, chain_name@);
                assert(false);
            }
            assert forall|ct2: Seq<char>, cn2: Seq<char>| true implies #[trigger] port_lookup(
                self.chain_ports@,
                ct2,
                cn2,
            ) == (if ct2 == chain_type@ && cn2 == chain_name@ {
                Some(port)
            } else {
                port_lookup(old(self).chain_ports@, ct2, cn2)
            }) by {
                lemma_port_push(old(self).chain_ports@, e, ct2, cn2);
            }
        }
    }

    /// Build the table from the configuration: every chain's
    /// `(chain_type, name)` mapped to its listen port, a later chain
    /// shadowing an earlier one under the same pair; the unify port
    /// defaults to 9999.
    #[verifier::loop_isolation(false)]
    pub fn from_config(config: &Config) -> (r: Self)
        ensures
            forall|ct: Seq<char>, cn: Seq<char>|
                #[trigger] port_lookup(r.ports(), ct, cn) == chains_port(config.chains@, ct, cn),
            r.spec_listen_port() == (match config.unify_proxy_listen_port {
                Some(p) => p,
                None => 9999u16,
            }),
    {
        let listen_port: u16 = match config.unify_proxy_listen_port {
            Some(p) => p,
            None => 9999,
        };
        let mut r = UnifyProxyConfig { chain_ports: Vec::new(), listen_port };
        let n = config.chains.len();
        let mut i: usize = 0;
        proof {
            assert(config.chains@.take(0) =~= Seq::<crate::config::Chain>::empty());
        }
        while i < n
            invariant
                i <= n,
                r.listen_port == listen_port,
                forall|ct: Seq<char>, cn: Seq<char>|
                    #[trigger] port_lookup(r.ports(), ct, cn) == chains_port(
                        config.chains@.take(i as int),
                        ct,
                        cn,
                    ),
            decreases n - i,
        {
            let chain = &config.chains[i];
            r.set_port(chain.chain_type.as_str(), chain.name.as_str(), chain.listen);
            proof {
                assert(config.chains@.take(i as int + 1).drop_last() =~= config.chains@.take(
                    i as int,
                ));
                assert(config.chains@.take(i as int + 1).last() == config.chains@[i as int]);
            }
            i = i + 1;
        }
        proof {
            assert(config.chains@.take(n as int) =~= config.chains@);
        }
        r
    }

    /// The port for a chain type and name, if configured.
    #[verifier::loop_isolation(false)]
    pub fn get_port(&self, chain_type: &str, chain_name: &str) -> (r: Option<u16>)
        ensures
            r == port_lookup(self.ports(), chain_type@, chain_name@),
    {
        let n = self.chain_ports.len();
        let mut i: usize = 0;
        proof {
            assert(self.chain_ports@.skip(0) =~= self.chain_ports@);
        }
        while i < n
            invariant
                i <= n,
                port_lookup(self.ports(), chain_type@, chain_name@) == port_lookup(
                    self.chain_ports@.skip(i as int),
                    chain_type@,
                    chain_name@,
                ),
            decreases n - i,
        {
            proof {
                assert(self.chain_ports@.skip(i as int).drop_first() =~= self.chain_ports@.skip(
                    i as int + 1,
                ));
                assert(self.chain_ports@.skip(i as int)[0] == self.chain_ports@[i as int]);
            }
            if string_eq_str(&self.chain_ports[i].0, chain_type) && string_eq_str(
                &self.chain_ports[i].1,
                chain_name,
            ) {
                return Some(self.chain_ports[i].2);
            }
            i = i + 1;
        }
        proof {
            assert(self.chain_ports@.skip(n as int) =~= Seq::<(String, String, u16)>::empty());
        }
        None
    }

    /// The unify listener's own port.
    pub fn listen_port(&self) -> (r: u16)
        ensures
            r == self.spec_listen_port(),
    {
        self.listen_port
    }
}

/// Why the unify listener rejected a request.
#[derive(Debug, Clone, Copy, PartialEq, Eq, Structural)]
pub enum UnifyError {
    /// The path has fewer than two segments.
    InvalidRequestPath,
    /// No chain is configured under the path's first two segments.
    NoMatchingChain,
}

impl UnifyError {
    /// The static reason logged and surfaced with the failure.
    pub fn reason(&self) -> (r: &'static str)
        ensures
            (match self {
                UnifyError::InvalidRequestPath => r@ == "Invalid request path"@,
                UnifyError::NoMatchingChain => r@ == "No matching chain found"@,
            }),
    {
        match self {
            UnifyError::InvalidRequestPath => "Invalid request path",
            UnifyError::NoMatchingChain => "No matching chain found",
        }
    }
}

/// Where the unify listener forwards one request.
#[derive(Debug, Clone)]
pub struct UnifyDecision {
    /// The matching chain listener's local port.
    pub port: u16,
    /// The path with the two leading segments stripped; unchanged when the
    /// path had no tail.
    pub new_path: String,
    /// The forwarding host, always the loopback address.
    pub host: String,
}

/// The path after its leading slashes.
pub open spec fn trim_slashes(s: Seq<char>) -> Seq<char>
    decreases s.len(),
{
    if s.len() > 0 && s[0] == '/' {
        trim_slashes(s.drop_first())
    } else {
        s
    }
}

/// Trimming removes exactly the leading run of slashes.
proof fn lemma_trim_slashes_at(s: Seq<char>, k: int)
    requires
        0 <= k <= s.len(),
        forall|j: int| 0 <= j < k ==> s[j] == '/',
        k == s.len() || s[k] != '/',
    ensures
        trim_slashes(s) == s.skip(k),
    decreases k,
{
    if k == 0 {
        assert(s.skip(0) =~= s);
    } else {
        assert(s.drop_first() =~= s.skip(1));
        lemma_trim_slashes_at(s.skip(1), k - 1);
        assert(s.skip(1).skip(k - 1) =~= s.skip(k));
    }
}

/// Index of the first `/` at or after `from`, or the length when there is
/// none.
pub open spec fn sep_index(s: Seq<char>, from: int) -> int
    decreases s.len() - from,
{
    if from >= s.len() {
        s.len() as int
    } else if s[from] == '/' {
        from
    } else {
        sep_index(s, from + 1)
    }
}

/// What the unify demux returns for one request path: with fewer than two
/// segments the path is invalid; otherwise the first two segments select
/// the chain listener's port, the remaining tail (preceded by `/`) becomes
/// the new path — or the path stays unchanged when there is no tail — and
/// the request goes to the loopback host.
pub open spec fn unify_decision_post(
    ports: Seq<(String, String, u16)>,
    path: Seq<char>,
    r: Result<UnifyDecision, UnifyError>,
) -> bool {
    let t = trim_slashes(path);
    let i1 = sep_index(t, 0);
    if i1 == t.len() {
        r == Err::<UnifyDecision, UnifyError>(UnifyError::InvalidRequestPath)
    } else {
        let ct = t.subrange(0, i1);
        let i2 = sep_index(t, i1 + 1);
        let cn = t.subrange(i1 + 1, i2);
        match port_lookup(ports, ct, cn) {
            None => r == Err::<UnifyDecision, UnifyError>(UnifyError::NoMatchingChain),
            Some(p) => match r {
                Ok(d) => d.port == p && d.host@ == "127.0.0.1"@ && d.new_path@ == (if i2 < t.len() {
                    seq!['/'] + t.skip(i2 + 1)
                } else {
                    path
                }),
                Err(_) => false,
            },
        }
    }
}

/// The unify listener: holds the demux table and decides where each
/// request goes.
#[derive(Debug)]
pub struct UnifyProxyApp {
    pub config: UnifyProxyConfig,
}

impl UnifyProxyApp {
    /// Wrap a demux table.
    pub fn new(config: UnifyProxyConfig) -> (r: Self)
        ensures
            r.config == config,
    {
        UnifyProxyApp { config }
    }

    /// Decide where one request goes, from its path.
    #[verifier::loop_isolation(false)]
    pub fn unify_decision(&self, path: &str) -> (r: Result<UnifyDecision, UnifyError>)
        ensures
            unify_decision_post(self.config.ports(), path@, r),
    {
        let n = path.unicode_len();
        let mut start: usize = 0;
        while start < n && path.get_char(start) == '/'
            invariant
                start <= n,
                forall|j: int| 0 <= j < start ==> path@[j] == '/',
            decreases n - start,
        {
            start = start + 1;
        }
        let ghost t = path@.skip(start as int);
        proof {
            lemma_trim_slashes_at(path@, start as int);
        }
        let mut i1: usize = start;
        while i1 < n && path.get_char(i1) != '/'
            invariant
                start <= i1 <= n,
                sep_index(t, 0) == sep_index(t, i1 - start),
                forall|j: int| start <= j < i1 ==> path@[j] != '/',
            decreases n - i1,
        {
            proof {
                assert(t[i1 - start] == path@[i1 as int]);
            }
            i1 = i1 + 1;
        }
        proof {
            if i1 < n {
                assert(t[i1 - start] == path@[i1 as int]);
                assert(sep_index(t, i1 - start) == i1 - start);
            } else {
                assert(sep_index(t, i1 - start) == t.len());
            }
        }
        if i1 >= n {
            return Err(UnifyError::InvalidRequestPath);
        }
        let mut i2: usize = i1 + 1;
        while i2 < n && path.get_char(i2) != '/'
            invariant
                i1 + 1 <= i2 <= n,
                sep_index(t, i1 + 1 - start) == sep_index(t, i2 - start),
            decreases n - i2,
        {
            proof {
                assert(t[i2 - start] == path@[i2 as int]);
            }
            i2 = i2 + 1;
        }
        proof {
            if i2 < n {
                assert(t[i2 - start] == path@[i2 as int]);
                assert(sep_index(t, i2 - start) == i2 - start);
            } else {
                assert(sep_index(t, i2 - start) == t.len());
            }
        }
        let ct = path.substring_char(start, i1);
        let cn = path.substring_char(i1 + 1, i2);
        proof {
            assert(ct@ =~= t.subrange(0, i1 - start));
            assert(cn@ =~= t.subrange(i1 + 1 - start, i2 - start));
        }
        match self.config.get_port(ct, cn) {
            None => Err(UnifyError::NoMatchingChain),
            Some(p) => {
                let new_path: String = if i2 < n {
                    let tail = path.substring_char(i2 + 1, n);
                    let r = str_concat("/", tail);
                    proof {
                        reveal_strlit("/");
                        assert("/"@ =~= seq!['/']);
                        assert(tail@ =~= t.skip(i2 + 1 - start));
                    }
                    r
                } else {
                    path.to_owned()
                };
                Ok(
                    UnifyDecision {
                        port: p,
                        new_path,
                        host: "127.0.0.1".to_owned(),
                    },
                )
            },
        }
    }
}

/// A bound pair sits at some entry.
proof fn lemma_port_some_witness(entries: Seq<(String, String, u16)>, ct: Seq<char>, cn: Seq<char>)
    requires
        port_lookup(entries, ct, cn) is Some,
    ensures
        exists|j: int|
            0 <= j < entries.len() && (#[trigger] entries[j]).0@ == ct && entries[j].1@ == cn,
    decreases entries.len(),
{
    if entries[0].0@ == ct && entries[0].1@ == cn {
        assert(entries[0].0@ == ct && entries[0].1@ == cn);
    } else {
        lemma_port_some_witness(entries.drop_first(), ct, cn);
        let j = choose|j: int|
            0 <= j < entries.drop_first().len() && (#[trigger] entries.drop_first()[j]).0@ == ct
                && entries.drop_first()[j].1@ == cn;
        assert(entries[j + 1] == entries.drop_first()[j]);
    }
}

} // verus!
