//! Verified core of the roam RPC stack.
//!
//! The crate holds the decision logic of roam: the session handshake and
//! virtual-connection state machines, the connection driver's bookkeeping,
//! reliable and stable delivery over replaceable links, the response
//! envelope, middleware and dispatch preparation, the grammar of service
//! trait definitions, and the TypeScript and Rust code generators.
use vstd::prelude::*;

pub mod text;
pub mod code_writer;
pub mod session;
pub mod link;
pub mod reliable;
pub mod stable;
pub mod envelope;
pub mod dispatch;
pub mod middleware;
pub mod request_ids;
pub mod acceptor;
pub mod memory_link;
pub mod shapes;
pub mod ts_codec;
pub mod ts_service;
pub mod rpc_driver;
pub mod chaos;
pub mod channel;
pub mod service_grammar;
pub mod ts_endpoints;
pub mod rust_dispatch;
pub mod rust_generator;
pub mod session_slots;
pub mod bridge;
pub mod bare_conduit;
pub mod ts_method_ids;

verus! {

} // verus!
