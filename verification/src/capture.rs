//! Per-request body capture for audit logging.
//!
//! When a listener's capture flag is on, the request-body and
//! response-body hooks append every chunk into the per-request context;
//! when it is off they change nothing.

use vstd::prelude::*;

verus! {

/// The per-request context: body buffers filled only when capture is on.
#[derive(Debug)]
pub struct ProxyCtx {
    pub request_body: Vec<u8>,
    pub response_body: Vec<u8>,
}

impl ProxyCtx {
    /// A fresh context with empty buffers.
    pub fn new() -> (r: Self)
        ensures
            r.request_body@.len() == 0,
            r.response_body@.len() == 0,
    {
        ProxyCtx { request_body: Vec::new(), response_body: Vec::new() }
    }
}

/// Append a chunk to a buffer.
#[verifier::loop_isolation(false)]
fn append_chunk(buf: &mut Vec<u8>, chunk: &[u8])
    ensures
        final(buf)@ == old(buf)@ + chunk@,
{
    let n = chunk.len();
    let mut i: usize = 0;
    while i < n
        invariant
            i <= n,
            buf@ == old(buf)@ + chunk@.take(i as int),
        decreases n - i,
    {
        buf.push(chunk[i]);
        proof {
            assert(buf@ =~= old(buf)@ + chunk@.take(i as int + 1));
        }
        i = i + 1;
    }
    proof {
        assert(old(buf)@ + chunk@.take(n as int) =~= old(buf)@ + chunk@);
    }
}

/// The request-body hook: append the chunk when capture is on, else do
/// nothing.
pub fn request_body_filter(ctx: &mut ProxyCtx, body: Option<&Vec<u8>>, log_request_detail: bool)
    ensures
        final(ctx).request_body@ == (if log_request_detail {
            match body {
                Some(b) => old(ctx).request_body@ + b@,
                None => old(ctx).request_body@,
            }
        } else {
            old(ctx).request_body@
        }),
        final(ctx).response_body == old(ctx).response_body,
{
    if log_request_detail {
        match body {
            Some(b) => append_chunk(&mut ctx.request_body, b.as_slice()),
            None => {},
        }
    }
}

/// The response-body hook: append the chunk when capture is on, else do
/// nothing.
pub fn upstream_response_body_filter(
    ctx: &mut ProxyCtx,
    body: Option<&Vec<u8>>,
    log_request_detail: bool,
)
    ensures
        final(ctx).response_body@ == (if log_request_detail {
            match body {
                Some(b) => old(ctx).response_body@ + b@,
                None => old(ctx).response_body@,
            }
        } else {
            old(ctx).response_body@
        }),
        final(ctx).request_body == old(ctx).request_body,
{
    if log_request_detail {
        match body {
            Some(b) => append_chunk(&mut ctx.response_body, b.as_slice()),
            None => {},
        }
    }
}

} // verus!
