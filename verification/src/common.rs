//! Message envelope and the transport/dispatch contract.
//!
//! A call is a `Message` (method identifier plus encoded payload) sent under a
//! `Context` (caller identity, optional tracing span, optional deadline) with
//! optional per-call `SendOpts` overrides. `Transport` is the capability to
//! originate calls, `MessageDispatch` the capability to receive them; they are
//! the only crossing points of the protocol boundary.

use vstd::prelude::*;
use vstd::string::*;
use crate::error::{RpcError, RpcResult};

verus! {

/// Per-call ambient metadata, exclusively owned by the call in flight.
#[derive(Debug, Clone)]
pub struct Context {
    /// Identity of the calling actor, if the call originates from an actor.
    pub actor: Option<String>,
    /// Optional tracing span identifier carried across the call.
    pub span: Option<String>,
    /// Optional absolute deadline, in milliseconds of mesh time.
    pub deadline_ms: Option<u64>,
}

/// A call unit: a method identifier and an opaque encoded payload.
#[derive(Debug, Clone)]
pub struct Message {
    /// Method identifier routed on by the receiver.
    pub method: String,
    /// Encoded argument payload, opaque at this layer.
    pub arg: Vec<u8>,
}

/// Optional per-call transport overrides; defaults apply when absent.
#[derive(Debug, Clone)]
pub struct SendOpts {
    /// Optional timeout override, in milliseconds from send time.
    pub timeout_ms: Option<u64>,
}

impl Default for SendOpts {
    /// No overrides: the transport's defaults apply.
    fn default() -> (r: SendOpts)
        ensures
            r.timeout_ms is None,
    {
        SendOpts { timeout_ms: None }
    }
}

/// The capability-set a component implements to originate calls. `send` is
/// one of the two crossing points of the protocol boundary: it performs the
/// I/O of the call and must respect the effective deadline of the call,
/// failing with `DeadlineExceeded` before any I/O when the deadline has
/// already elapsed, and with `Timeout` when it elapses in flight.
pub trait Transport {
    /// Sends the message to the target under the given context and waits for
    /// the reply bytes or a classified error.
    fn send(&self, ctx: &Context, msg: &Message, opts: Option<SendOpts>) -> RpcResult<Vec<u8>>;

    /// Sets the default timeout applied when a call carries no override.
    fn set_timeout(&mut self, interval_ms: u64);
}

/// The capability-set a component implements to receive calls. `dispatch`
/// decodes the method identifier, routes to the matching handler, and returns
/// the encoded result or a classified error.
pub trait MessageDispatch {
    /// Routes one inbound message to application logic.
    fn dispatch(&self, ctx: &Context, msg: &Message) -> RpcResult<Vec<u8>>;
}

/// Addition on mesh-time milliseconds that saturates instead of wrapping.
pub open spec fn sat_add_u64(a: u64, b: u64) -> u64 {
    if a + b > u64::MAX {
        u64::MAX
    } else {
        (a + b) as u64
    }
}

/// The effective deadline of a call: the context deadline intersected with
/// the deadline implied by a per-call timeout override starting at `now_ms`,
/// whichever is more restrictive.
pub open spec fn effective_deadline_spec(
    deadline_ms: Option<u64>,
    timeout_ms: Option<u64>,
    now_ms: u64,
) -> Option<u64> {
    let from_timeout = match timeout_ms {
        Some(t) => Some(sat_add_u64(now_ms, t)),
        None => None,
    };
    match (deadline_ms, from_timeout) {
        (Some(a), Some(b)) => Some(if a <= b { a } else { b }),
        (Some(a), None) => Some(a),
        (None, Some(b)) => Some(b),
        (None, None) => None,
    }
}

/// A deadline has elapsed at `now_ms` iff it lies strictly in the past.
pub open spec fn deadline_elapsed_spec(deadline_ms: Option<u64>, now_ms: u64) -> bool {
    match deadline_ms {
        Some(d) => d < now_ms,
        None => false,
    }
}

/// Resolves the effective deadline of a call from its context, its per-call
/// overrides, and the current mesh time.
pub fn effective_deadline(ctx: &Context, opts: &Option<SendOpts>, now_ms: u64) -> (r: Option<u64>)
    ensures
        r == effective_deadline_spec(
            ctx.deadline_ms,
            match *opts {
                Some(o) => o.timeout_ms,
                None => None::<u64>,
            },
            now_ms,
        ),
{
    let timeout_ms: Option<u64> = match opts {
        Some(o) => o.timeout_ms,
        None => None,
    };
    let from_timeout: Option<u64> = match timeout_ms {
        Some(t) => {
            if t > u64::MAX - now_ms {
                Some(u64::MAX)
            } else {
                Some(now_ms + t)
            }
        },
        None => None,
    };
    match (ctx.deadline_ms, from_timeout) {
        (Some(a), Some(b)) => Some(if a <= b { a } else { b }),
        (Some(a), None) => Some(a),
        (None, Some(b)) => Some(b),
        (None, None) => None,
    }
}

/// Decides whether a call may be sent at all: a call whose effective deadline
/// has already elapsed at send time fails with `DeadlineExceeded` before any
/// I/O is attempted.
pub fn precheck_deadline(ctx: &Context, opts: &Option<SendOpts>, now_ms: u64) -> (r: RpcResult<()>)
    ensures
        ({
            let d = effective_deadline_spec(
                ctx.deadline_ms,
                match *opts {
                    Some(o) => o.timeout_ms,
                    None => None::<u64>,
                },
                now_ms,
            );
            &&& deadline_elapsed_spec(d, now_ms) ==> (r matches Err(e) && e matches
                RpcError::DeadlineExceeded(_))
            &&& !deadline_elapsed_spec(d, now_ms) ==> r is Ok
        }),
{
    let d = effective_deadline(ctx, opts, now_ms);
    match d {
        Some(dl) => {
            if dl < now_ms {
                Err(
                    RpcError::DeadlineExceeded(
                        String::from_str("deadline elapsed before the call was sent"),
                    ),
                )
            } else {
                Ok(())
            }
        },
        None => Ok(()),
    }
}

/// Classifies the outcome of an in-flight call: a reply that never arrived
/// because the effective deadline elapsed mid-flight is a `Timeout`; a reply
/// that arrived is returned as is.
pub fn classify_reply(reply: Option<Vec<u8>>) -> (r: RpcResult<Vec<u8>>)
    ensures
        reply matches Some(b) ==> (r matches Ok(out) && out@ == b@),
        reply is None ==> (r matches Err(e) && e matches RpcError::Timeout(_)),
{
    match reply {
        Some(b) => Ok(b),
        None => Err(RpcError::Timeout(String::from_str("deadline elapsed in flight"))),
    }
}

} // verus!
