//! Health probes.
//!
//! Each upstream is probed on a fixed interval: an HTTP request is built
//! from the upstream's descriptor, sent by the caller, and the response
//! evaluated here — a non-success status or a validator rejection fails
//! the probe; a validated response yields the tip to record.

use vstd::prelude::*;
use vstd::string::*;
use vstd::slice::slice_to_vec;
use crate::json::json_of;
use crate::registry::{ChainCheckerRegistry, checker_body_of, checker_kind_of};
use crate::selector::ChainProxyConfig;
use crate::strutil::{clone_string_pairs, str_concat};
use crate::validators::{ValidatorError, ValidatorKind, tip_of, validate_response};

verus! {

/// What base64 encoding returns on a string's bytes.  Left abstract: the
/// encoding is the `base64` crate's, a function of the input alone.
pub uninterp spec fn base64_of(s: Seq<char>) -> Seq<char>;

/// Relies on the `base64` crate's standard engine (standard alphabet,
/// padded): the encoding is a function of the input alone.
#[verifier::external_body]
fn base64_encode(s: &str) -> (r: String)
    ensures
        r@ == base64_of(s@),
{
    base64::Engine::encode(&base64::engine::general_purpose::STANDARD, s)
}

/// Why one probe exchange failed.
#[derive(Debug, Clone, Copy, PartialEq, Eq, Structural)]
pub enum ProbeError {
    /// The request could not be sent or its response not read.
    Transport,
    /// The probe ran over its deadline.
    Timeout,
    /// The response carried a non-success status.
    Status(u16),
    /// The validator rejected the response body.
    Validator(ValidatorError),
}

/// One probe request, ready to send.
#[derive(Debug, Clone)]
pub struct ProbeRequest {
    pub method: String,
    pub url: String,
    pub headers: Vec<(String, String)>,
    pub body: Option<Vec<u8>>,
    pub timeout_secs: u64,
}

/// A header list, read at the character level.
pub open spec fn header_views(h: Seq<(String, String)>) -> Seq<(Seq<char>, Seq<char>)> {
    h.map_values(|p: (String, String)| (p.0@, p.1@))
}

/// Appending a header appends its characters to the header views.
proof fn lemma_header_views_push(h: Seq<(String, String)>, p: (String, String))
    ensures
        header_views(h.push(p)) =~~= header_views(h).push((p.0@, p.1@)),
{
}

/// The Basic Auth header value for a user name and password.
pub open spec fn basic_auth_of(user: Seq<char>, pass: Seq<char>) -> Seq<char> {
    "Basic "@ + base64_of(user + ":"@ + pass)
}

/// The chain health check: how one upstream is probed and its response
/// judged.
#[derive(Debug, Clone)]
pub struct ChainHealthCheck {
    /// Successful checks to flip from unhealthy to healthy.
    pub consecutive_success: usize,
    /// Failed checks to flip from healthy to unhealthy.
    pub consecutive_failure: usize,
    /// The probe's HTTP method.
    pub request_method: String,
    /// The probe URL: the upstream URI with the probe path appended.
    pub request_url: String,
    /// The probe body, if any.
    pub request_body: Option<Vec<u8>>,
    /// The probe deadline, in seconds.
    pub request_timeout_secs: u64,
    /// The validator judging response bodies; with none, any success
    /// status passes and no tip is recorded.
    pub validator: Option<ValidatorKind>,
    /// The upstream URI, the key under which tips are recorded.
    pub host: String,
    /// Basic Auth credentials, if any.
    pub authorization: Option<(String, String)>,
    /// Extra request headers, if any.
    pub custom_headers: Option<Vec<(String, String)>>,
}

impl ChainHealthCheck {
    /// A check against `host || path` with the given method; one success
    /// or failure flips the health state, the deadline is 60 seconds, and
    /// no body, validator, credentials or extra headers are set.
    pub fn new(host: &str, path: &str, method: &str) -> (r: Box<Self>)
        ensures
            r.consecutive_success == 1,
            r.consecutive_failure == 1,
            r.request_method@ == method@,
            r.request_url@ == host@ + path@,
            r.request_body is None,
            r.request_timeout_secs == 60,
            r.validator is None,
            r.host@ == host@,
            r.authorization is None,
            r.custom_headers is None,
    {
        Box::new(
            ChainHealthCheck {
                consecutive_success: 1,
                consecutive_failure: 1,
                request_method: method.to_owned(),
                request_url: str_concat(host, path),
                request_body: None,
                request_timeout_secs: 60,
                validator: None,
                host: host.to_owned(),
                authorization: None,
                custom_headers: None,
            },
        )
    }

    /// The same check with the given probe body.
    pub fn with_request_body(self, body: Vec<u8>) -> (r: Box<Self>)
        ensures
            *r == (ChainHealthCheck { request_body: Some(body), ..self }),
    {
        Box::new(ChainHealthCheck { request_body: Some(body), ..self })
    }

    /// The same check judging responses with the given validator.
    pub fn with_response_body_validator(self, validator: ValidatorKind) -> (r: Box<Self>)
        ensures
            *r == (ChainHealthCheck { validator: Some(validator), ..self }),
    {
        Box::new(ChainHealthCheck { validator: Some(validator), ..self })
    }

    /// The same check sending Basic Auth credentials.
    pub fn with_basic_auth(self, username: &str, password: &str) -> (r: Box<Self>)
        ensures
            (match r.authorization {
                Some(a) => a.0@ == username@ && a.1@ == password@,
                None => false,
            }),
            r.consecutive_success == self.consecutive_success,
            r.consecutive_failure == self.consecutive_failure,
            r.request_method == self.request_method,
            r.request_url == self.request_url,
            r.request_body == self.request_body,
            r.request_timeout_secs == self.request_timeout_secs,
            r.validator == self.validator,
            r.host == self.host,
            r.custom_headers == self.custom_headers,
    {
        Box::new(
            ChainHealthCheck {
                authorization: Some((username.to_owned(), password.to_owned())),
                ..self
            },
        )
    }

    /// The same check sending extra request headers.
    pub fn with_custom_headers(self, headers: Vec<(String, String)>) -> (r: Box<Self>)
        ensures
            *r == (ChainHealthCheck { custom_headers: Some(headers), ..self }),
    {
        Box::new(ChainHealthCheck { custom_headers: Some(headers), ..self })
    }

    /// The header characters a probe sends: the JSON content type, the
    /// Basic Auth header when credentials are set, then the extra
    /// headers.
    pub open spec fn probe_header_views(&self) -> Seq<(Seq<char>, Seq<char>)> {
        let base = seq![("Content-Type"@, "application/json"@)];
        let with_auth = match self.authorization {
            Some(a) => base.push(("Authorization"@, basic_auth_of(a.0@, a.1@))),
            None => base,
        };
        match self.custom_headers {
            Some(h) => with_auth + header_views(h@),
            None => with_auth,
        }
    }

    /// The request this check sends each tick.
    #[verifier::loop_isolation(false)]
    pub fn probe_request(&self) -> (r: ProbeRequest)
        ensures
            r.method@ == self.request_method@,
            r.url@ == self.request_url@,
            header_views(r.headers@) == self.probe_header_views(),
            (match (r.body, self.request_body) {
                (Some(a), Some(b)) => a@ == b@,
                (None, None) => true,
                _ => false,
            }),
            r.timeout_secs == self.request_timeout_secs,
    {
        let mut headers: Vec<(String, String)> = Vec::new();
        headers.push(("Content-Type".to_owned(), "application/json".to_owned()));
        match &self.authorization {
            Some(a) => {
                let mut creds = a.0.clone();
                creds.append(":");
                creds.append(a.1.as_str());
                proof {
                    assert(creds@ =~= a.0@ + ":"@ + a.1@);
                }
                let encoded = base64_encode(creds.as_str());
                let value = str_concat("Basic ", encoded.as_str());
                headers.push(("Authorization".to_owned(), value));
            },
            None => {},
        }
        let ghost with_auth = header_views(headers@);
        match &self.custom_headers {
            Some(extra) => {
                let n = extra.len();
                let mut i: usize = 0;
                proof {
                    assert(header_views(headers@) =~~= with_auth + header_views(
                        extra@.take(0),
                    ));
                }
                while i < n
                    invariant
                        i <= n,
                        header_views(headers@) == with_auth + header_views(
                            extra@.take(i as int),
                        ),
                    decreases n - i,
                {
                    let ghost old_h = headers@;
                    let pair = (extra[i].0.clone(), extra[i].1.clone());
                    let ghost pair_spec = pair;
                    headers.push(pair);
                    proof {
                        assert(extra@.take(i as int + 1) =~= extra@.take(i as int).push(
                            extra@[i as int],
                        ));
                        lemma_header_views_push(old_h, pair_spec);
                        lemma_header_views_push(extra@.take(i as int), extra@[i as int]);
                        assert(pair_spec.0@ == extra@[i as int].0@);
                        assert(pair_spec.1@ == extra@[i as int].1@);
                        assert(header_views(headers@) =~~= with_auth + header_views(
                            extra@.take(i as int + 1),
                        ));
                    }
                    i = i + 1;
                }
                proof {
                    assert(extra@.take(n as int) =~= extra@);
                }
            },
            None => {},
        }
        let body: Option<Vec<u8>> = match &self.request_body {
            Some(b) => Some(slice_to_vec(b.as_slice())),
            None => None,
        };
        proof {
            assert(header_views(headers@) =~~= self.probe_header_views());
        }
        ProbeRequest {
            method: self.request_method.clone(),
            url: self.request_url.clone(),
            headers,
            body,
            timeout_secs: self.request_timeout_secs,
        }
    }

    /// Judge one response: a non-success status fails the probe; with no
    /// validator any success passes and records nothing; otherwise the
    /// validator's tip is recorded, or its rejection fails the probe.
    pub fn evaluate(&self, status: u16, body: &[u8]) -> (r: Result<Option<u64>, ProbeError>)
        ensures
            r == probe_outcome_of(self.validator, status, body@),
    {
        if !(200 <= status && status < 300) {
            return Err(ProbeError::Status(status));
        }
        match self.validator {
            None => Ok(None),
            Some(kind) => match validate_response(kind, body) {
                Ok(t) => Ok(Some(t)),
                Err(e) => Err(ProbeError::Validator(e)),
            },
        }
    }

    /// How many consecutive outcomes of the given sign flip the health
    /// state.
    pub fn health_threshold(&self, success: bool) -> (r: usize)
        ensures
            r == (if success {
                self.consecutive_success
            } else {
                self.consecutive_failure
            }),
    {
        if success {
            self.consecutive_success
        } else {
            self.consecutive_failure
        }
    }
}

/// Build the chain health check for one upstream: probe the upstream URI
/// with the configured path and method; when the chain type has a
/// registered checker its validator and probe body are used and the
/// configured body is ignored, otherwise the configured body is sent
/// verbatim with no validator; Basic Auth applies only when both the user
/// name and the password are configured.
pub fn chain_health_check_for(
    config: &ChainProxyConfig,
    registry: &ChainCheckerRegistry,
) -> (r: Box<ChainHealthCheck>)
    ensures
        r.consecutive_success == 1,
        r.consecutive_failure == 1,
        r.request_method@ == config.method@,
        r.request_url@ == config.proxy_uri@ + config.path@,
        r.request_timeout_secs == 60,
        r.host@ == config.proxy_uri@,
        (match checker_kind_of(registry@, config.chain_type@) {
            Some(k) => r.validator == Some(k) && (match r.request_body {
                Some(b) => checker_body_of(registry@, config.chain_type@) == Some(b@),
                None => false,
            }),
            None => r.validator is None && (match (r.request_body, config.request_body) {
                (Some(a), Some(b)) => a@ == b@,
                (None, None) => true,
                _ => false,
            }),
        }),
        (match (config.username, config.password) {
            (Some(u), Some(p)) => (match r.authorization {
                Some(a) => a.0@ == u@ && a.1@ == p@,
                None => false,
            }),
            _ => r.authorization is None,
        }),
        (match (r.custom_headers, config.custom_headers) {
            (Some(a), Some(b)) => a@ == b@,
            (None, None) => true,
            _ => false,
        }),
{
    let mut check = ChainHealthCheck::new(
        config.proxy_uri.as_str(),
        config.path.as_str(),
        config.method.as_str(),
    );
    match (&config.username, &config.password) {
        (Some(u), Some(p)) => {
            check = check.with_basic_auth(u.as_str(), p.as_str());
        },
        _ => {},
    }
    match &config.custom_headers {
        Some(headers) => {
            check = check.with_custom_headers(clone_string_pairs(headers));
        },
        None => {},
    }
    match registry.get_chain_checker(config.chain_type.as_str()) {
        Some(checker) => {
            let body = slice_to_vec(checker.request_body.as_slice());
            let validator = checker.validator;
            check = check.with_response_body_validator(validator);
            check = check.with_request_body(body);
        },
        None => {
            match &config.request_body {
                Some(body) => {
                    check = check.with_request_body(slice_to_vec(body.as_slice()));
                },
                None => {},
            }
        },
    }
    check
}

/// The outcome of one probe exchange, as a function of the validator, the
/// response status and the response bytes.
pub open spec fn probe_outcome_of(
    validator: Option<ValidatorKind>,
    status: u16,
    body: Seq<u8>,
) -> Result<Option<u64>, ProbeError> {
    if !(200 <= status < 300) {
        Err(ProbeError::Status(status))
    } else {
        match validator {
            None => Ok(None),
            Some(k) => match tip_of(k, json_of(body)) {
                Ok(t) => Ok(Some(t)),
                Err(e) => Err(ProbeError::Validator(e)),
            },
        }
    }
}

/// Two probes of one upstream that draw the same response yield the same
/// outcome — together with `ChainState::update_block_number`, recording
/// that tip twice leaves every lookup as after the first.
pub proof fn lemma_probe_outcome_deterministic(
    validator: Option<ValidatorKind>,
    status: u16,
    b1: Seq<u8>,
    b2: Seq<u8>,
)
    requires
        b1 == b2,
    ensures
        probe_outcome_of(validator, status, b1) == probe_outcome_of(validator, status, b2),
{
}

/// The common health check: any success status is healthy.
#[derive(Debug, Clone)]
pub struct CommonHealthCheck {
    pub consecutive_success: usize,
    pub consecutive_failure: usize,
    pub request_method: String,
    pub request_url: String,
    pub request_body: Option<Vec<u8>>,
    pub request_timeout_secs: u64,
    pub host: String,
}

impl CommonHealthCheck {
    /// A check against `host || path` with the given method; one success
    /// or failure flips the health state and the deadline is 60 seconds.
    pub fn new(host: &str, path: &str, method: &str) -> (r: Box<Self>)
        ensures
            r.consecutive_success == 1,
            r.consecutive_failure == 1,
            r.request_method@ == method@,
            r.request_url@ == host@ + path@,
            r.request_body is None,
            r.request_timeout_secs == 60,
            r.host@ == host@,
    {
        Box::new(
            CommonHealthCheck {
                consecutive_success: 1,
                consecutive_failure: 1,
                request_method: method.to_owned(),
                request_url: str_concat(host, path),
                request_body: None,
                request_timeout_secs: 60,
                host: host.to_owned(),
            },
        )
    }

    /// The same check with the given probe body.
    pub fn with_request_body(self, body: Vec<u8>) -> (r: Box<Self>)
        ensures
            *r == (CommonHealthCheck { request_body: Some(body), ..self }),
    {
        Box::new(CommonHealthCheck { request_body: Some(body), ..self })
    }

    /// The request this check sends each tick: the JSON content type and
    /// the configured body.
    pub fn probe_request(&self) -> (r: ProbeRequest)
        ensures
            r.method@ == self.request_method@,
            r.url@ == self.request_url@,
            header_views(r.headers@) == seq![("Content-Type"@, "application/json"@)],
            (match (r.body, self.request_body) {
                (Some(a), Some(b)) => a@ == b@,
                (None, None) => true,
                _ => false,
            }),
            r.timeout_secs == self.request_timeout_secs,
    {
        let mut headers: Vec<(String, String)> = Vec::new();
        headers.push(("Content-Type".to_owned(), "application/json".to_owned()));
        let body: Option<Vec<u8>> = match &self.request_body {
            Some(b) => Some(slice_to_vec(b.as_slice())),
            None => None,
        };
        proof {
            assert(header_views(headers@) =~~= seq![("Content-Type"@, "application/json"@)]);
        }
        ProbeRequest {
            method: self.request_method.clone(),
            url: self.request_url.clone(),
            headers,
            body,
            timeout_secs: self.request_timeout_secs,
        }
    }

    /// Whether one response makes the upstream healthy: exactly the
    /// success statuses.
    pub fn evaluate(&self, status: u16) -> (r: bool)
        ensures
            r == (200 <= status < 300),
    {
        200 <= status && status < 300
    }

    /// How many consecutive outcomes of the given sign flip the health
    /// state.
    pub fn health_threshold(&self, success: bool) -> (r: usize)
        ensures
            r == (if success {
                self.consecutive_success
            } else {
                self.consecutive_failure
            }),
    {
        if success {
            self.consecutive_success
        } else {
            self.consecutive_failure
        }
    }
}

} // verus!
