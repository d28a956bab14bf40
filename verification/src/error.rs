//! Cross-cutting error taxonomy for the RPC protocol core.
//!
//! Every fallible operation in this crate reports one of these kinds; no
//! foreign error type crosses the protocol boundary unwrapped.

use vstd::prelude::*;
use vstd::string::*;

verus! {

/// The I/O error type of the platform, opaque at this layer.
#[verifier::external_type_specification]
#[verifier::external_body]
pub struct ExIoError(std::io::Error);

/// An error that can occur in the processing of an RPC. These are not
/// request-specific errors but cross-cutting kinds that can always occur.
#[derive(Debug, Clone)]
pub enum RpcError {
    /// The request exceeded its deadline before or while being sent.
    DeadlineExceeded(String),
    /// A capability provider was called before it finished initializing.
    NotInitialized(String),
    /// No handler is registered for the requested method.
    MethodNotHandled(String),
    /// A handler exists but the optional behavior is intentionally absent.
    NotImplemented,
    /// The underlying transport or host reported a send failure.
    HostError(String),
    /// The codec boundary failed to decode a payload.
    Deser(String),
    /// The codec boundary failed to encode a payload.
    Ser(String),
    /// Generic protocol-level failure not otherwise classified.
    Rpc(String),
    /// Underlying bus-specific failure.
    Nats(String),
    /// A caller supplied a malformed or empty required value.
    InvalidParameter(String),
    /// Failure raised inside an actor's own handler logic.
    ActorHandler(String),
    /// Failure during provider startup or link establishment.
    ProviderInit(String),
    /// An in-flight call exceeded its deadline.
    Timeout(String),
    /// Anything else; used for lossless wrapping of foreign error types.
    Other(String),
}

/// Result type used throughout the protocol core.
pub type RpcResult<T> = Result<T, RpcError>;

/// The human-readable message carried by an error; empty for the one kind
/// that carries none.
pub open spec fn message_spec(e: RpcError) -> Seq<char> {
    match e {
        RpcError::DeadlineExceeded(m) => m@,
        RpcError::NotInitialized(m) => m@,
        RpcError::MethodNotHandled(m) => m@,
        RpcError::NotImplemented => Seq::<char>::empty(),
        RpcError::HostError(m) => m@,
        RpcError::Deser(m) => m@,
        RpcError::Ser(m) => m@,
        RpcError::Rpc(m) => m@,
        RpcError::Nats(m) => m@,
        RpcError::InvalidParameter(m) => m@,
        RpcError::ActorHandler(m) => m@,
        RpcError::ProviderInit(m) => m@,
        RpcError::Timeout(m) => m@,
        RpcError::Other(m) => m@,
    }
}

impl RpcError {
    /// Returns the human-readable message carried by this error.
    pub fn message(&self) -> (r: String)
        ensures
            r@ == message_spec(*self),
    {
        match self {
            RpcError::DeadlineExceeded(m) => m.clone(),
            RpcError::NotInitialized(m) => m.clone(),
            RpcError::MethodNotHandled(m) => m.clone(),
            RpcError::NotImplemented => String::new(),
            RpcError::HostError(m) => m.clone(),
            RpcError::Deser(m) => m.clone(),
            RpcError::Ser(m) => m.clone(),
            RpcError::Rpc(m) => m.clone(),
            RpcError::Nats(m) => m.clone(),
            RpcError::InvalidParameter(m) => m.clone(),
            RpcError::ActorHandler(m) => m.clone(),
            RpcError::ProviderInit(m) => m.clone(),
            RpcError::Timeout(m) => m.clone(),
            RpcError::Other(m) => m.clone(),
        }
    }

    /// Wraps unclassified message text losslessly as `Other`, as wrapping an
    /// owned message does.
    pub fn from_text(s: &str) -> (r: RpcError)
        ensures
            r matches RpcError::Other(m) && m@ == s@,
    {
        RpcError::Other(s.to_owned())
    }
}

impl From<String> for RpcError {
    /// Wraps an unclassified message losslessly as `Other`.
    fn from(s: String) -> (r: RpcError) {
        RpcError::Other(s)
    }
}

impl vstd::std_specs::convert::FromSpecImpl<String> for RpcError {
    open spec fn obeys_from_spec() -> bool {
        true
    }

    open spec fn from_spec(s: String) -> RpcError {
        RpcError::Other(s)
    }
}

/// Relies on `ToString::to_string` over the I/O error's `Display` form.
#[verifier::external_body]
pub(crate) fn io_error_text(e: &std::io::Error) -> String {
    e.to_string()
}

/// Builds the `Other` wrapping of foreign I/O failure text: the tag, then
/// the text, nothing dropped.
pub fn io_error_of_text(text: &str) -> (r: RpcError)
    ensures
        r matches RpcError::Other(m) && m@ == "io: "@ + text@,
{
    let mut m = String::from_str("io: ");
    m.append(text);
    RpcError::Other(m)
}

/// Wraps a foreign I/O failure into the taxonomy: always `Other`, with the
/// message holding the tag and the foreign error's own text.
pub fn io_error_to_rpc(e: std::io::Error) -> (r: RpcError)
    ensures
        r matches RpcError::Other(m) && (exists|t: Seq<char>| m@ == "io: "@ + t),
{
    let text = io_error_text(&e);
    io_error_of_text(text.as_str())
}

} // verus!
