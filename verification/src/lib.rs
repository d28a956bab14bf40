//! Protocol core of an RPC runtime for a distributed actor mesh.
//!
//! The crate covers the pieces every actor and capability provider agrees on:
//! entity addressing and canonical locator derivation, the message envelope
//! and dispatch contracts, the cross-cutting error taxonomy, and the
//! connection-bootstrap policy handed to a provider process at startup.

pub mod bootstrap;
pub mod codec;
pub mod common;
pub mod dispatch;
pub mod entity;
pub mod error;

pub use bootstrap::ConnectPlan;
pub use bootstrap::HostData;
pub use bootstrap::address_error_of_text;
pub use bootstrap::address_error_to_rpc;
pub use bootstrap::connect_error_of_text;
pub use bootstrap::connect_error_to_rpc;
pub use codec::decode_error_to_rpc;
pub use codec::deser_error_of_text;
pub use codec::deserialize_text;
pub use codec::encode_error_to_rpc;
pub use codec::encode_rpc_error_to_rpc;
pub use codec::ser_error_of_text;
pub use codec::serialize_text;
pub use error::io_error_of_text;
pub use error::io_error_to_rpc;

pub use common::Context;
pub use common::Message;
pub use common::MessageDispatch;
pub use common::SendOpts;
pub use common::Transport;
pub use common::classify_reply;
pub use common::effective_deadline;
pub use common::precheck_deadline;
pub use dispatch::MethodRouter;
pub use entity::LinkDefinition;
pub use entity::WasmCloudEntity;
pub use error::RpcError;
pub use error::RpcResult;
