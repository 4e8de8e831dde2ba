//! A proxyable, fail-closed Ethereum JSON-RPC client core.
pub mod config;
pub mod contract;
pub mod dialect;
pub mod error;
pub mod gate;
pub mod gate_laws;
pub mod json;
pub mod laws;
pub mod link;
pub mod methods;
pub mod module;
pub mod num;
pub mod order;
pub mod probes;
pub mod proxy;
pub mod reply;
pub mod router;
pub mod routing_laws;
pub mod rpc;
pub mod serve;
pub mod status;
pub mod store;
pub mod text;
pub mod time;
pub mod verdict;
