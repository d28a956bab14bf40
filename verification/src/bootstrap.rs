//! Connection bootstrap: how a provider process turns host-supplied startup
//! configuration into a bus connection plan.
//!
//! Address resolution and failure classification are decided here and
//! verified; parsing the address and opening the connection are carried out
//! by the caller against the bus client, which hands the outcome back. A bad
//! address is a configuration bug and reported as `InvalidParameter`; a
//! failed connection attempt is an operational condition and reported as
//! `ProviderInit`.

use vstd::prelude::*;
use vstd::string::*;
use crate::error::{RpcError, io_error_text};

verus! {

/// Reserved host identity that marks a provider running under a test
/// harness, outside a real host.
pub const TEST_HARNESS: &'static str = "_TEST_";

/// Fallback bus address used when the host passes no connection URL.
pub const DEFAULT_NATS_ADDR: &'static str = "nats://127.0.0.1:4222";

/// Process-wide configuration handed to a provider at startup.
#[derive(Debug, Clone)]
pub struct HostData {
    /// Identity of the host that launched the provider.
    pub host_id: String,
    /// Bus connection URL; empty means the fallback address applies.
    pub lattice_rpc_url: String,
    /// Identity assigned to the provider itself.
    pub provider_key: String,
    /// Link name this provider instance was started for.
    pub link_name: String,
}

/// A connection plan: the resolved bus address text together with the
/// reconnection policy. Reconnect attempts are unbounded, because a
/// capability provider is long-lived infrastructure that must outlast
/// transient bus restarts.
#[derive(Debug, Clone)]
pub struct ConnectPlan {
    /// The resolved address text the bus client is to connect to.
    pub url: String,
    /// Maximum number of reconnect attempts; `None` means never give up.
    pub max_reconnects: Option<u32>,
}

/// The connection URL a host data record resolves to: the configured URL
/// when one is present, else the fallback address.
pub open spec fn resolved_url_spec(h: HostData) -> Seq<char> {
    if h.lattice_rpc_url@.len() > 0 {
        h.lattice_rpc_url@
    } else {
        "nats://127.0.0.1:4222"@
    }
}

impl HostData {
    /// Returns whether the provider is running under a test harness: the
    /// host identity equals the reserved sentinel, whatever the other fields
    /// hold.
    pub fn is_test(&self) -> (r: bool)
        ensures
            r == (self.host_id@ == "_TEST_"@),
    {
        let sentinel = String::from_str(TEST_HARNESS);
        proof {
            reveal_strlit("_TEST_");
        }
        self.host_id == sentinel
    }

    /// Resolves the bus connection URL from the host configuration.
    pub fn resolved_rpc_url(&self) -> (r: String)
        ensures
            r@ == resolved_url_spec(*self),
    {
        if self.lattice_rpc_url.as_str().is_empty() {
            String::from_str(DEFAULT_NATS_ADDR)
        } else {
            self.lattice_rpc_url.clone()
        }
    }

    /// Builds the connection plan for this host configuration: the resolved
    /// address, connected to with unbounded reconnects.
    pub fn connect_plan(&self) -> (r: ConnectPlan)
        ensures
            r.url@ == resolved_url_spec(*self),
            r.max_reconnects is None,
    {
        ConnectPlan { url: self.resolved_rpc_url(), max_reconnects: None }
    }
}

/// Builds the `InvalidParameter` report for a bus address the client
/// refused to parse: the offending address and the parser's text, nothing
/// dropped.
pub fn address_error_of_text(url: &str, text: &str) -> (r: RpcError)
    ensures
        r matches RpcError::InvalidParameter(m) && m@ == "Invalid nats server url '"@ + url@
            + "': "@ + text@,
{
    let mut m = String::from_str("Invalid nats server url '");
    m.append(url);
    m.append("': ");
    m.append(text);
    RpcError::InvalidParameter(m)
}

/// Classifies a bus address the client refused to parse: always
/// `InvalidParameter` — a malformed address is a configuration bug a human
/// fixes, not a condition to retry — with the message holding the offending
/// address and the foreign error's own text.
pub fn address_error_to_rpc(url: &str, e: std::io::Error) -> (r: RpcError)
    ensures
        r matches RpcError::InvalidParameter(m) && (exists|t: Seq<char>|
            m@ == "Invalid nats server url '"@ + url@ + "': "@ + t),
{
    let text = io_error_text(&e);
    address_error_of_text(url, text.as_str())
}

/// Builds the `ProviderInit` report for a failed initial connection
/// attempt: the address and the client's text, nothing dropped.
pub fn connect_error_of_text(url: &str, text: &str) -> (r: RpcError)
    ensures
        r matches RpcError::ProviderInit(m) && m@ == "nats connection to "@ + url@ + " failed: "@
            + text@,
{
    let mut m = String::from_str("nats connection to ");
    m.append(url);
    m.append(" failed: ");
    m.append(text);
    RpcError::ProviderInit(m)
}

/// Classifies a failed initial connection attempt: always `ProviderInit` —
/// an operational condition of the environment rather than a caller bug —
/// with the message holding the address and the foreign error's own text.
pub fn connect_error_to_rpc(url: &str, e: std::io::Error) -> (r: RpcError)
    ensures
        r matches RpcError::ProviderInit(m) && (exists|t: Seq<char>|
            m@ == "nats connection to "@ + url@ + " failed: "@ + t),
{
    let text = io_error_text(&e);
    connect_error_of_text(url, text.as_str())
}

} // verus!
