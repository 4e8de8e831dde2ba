//! The module's boundary: what a host calls, and what subscribers hear.
use vstd::prelude::*;

verus! {

/// What the host tells the module about itself.
#[derive(Clone, Debug, PartialEq, Eq)]
pub struct RustModuleContext {
    pub instance_id: String,
    /// The directory that the module may keep files in.
    pub instance_persistence_path: String,
}

/// What a host calls. Structured values cross as JSON text: `{"ok": true, ...}` or
/// `{"ok": false, "error": "..."}`.
pub trait EthRpcModule: Send + Sync + 'static {
    /// Stores the config of a chain. A verified field that is left out keeps what is stored.
    fn set_chain_config(&self, chain_id: i64, config_json: String) -> bool;

    fn get_chain_config(&self, chain_id: i64) -> String;

    fn remove_chain_config(&self, chain_id: i64) -> bool;

    fn list_chains(&self) -> String;

    fn verify_chain_id(&self, chain_id: i64) -> String;

    fn block_number(&self, chain_id: i64) -> String;

    fn get_balance(&self, chain_id: i64, address: String) -> String;

    /// `deadline_ms` is the caller's own wall budget, counted from when the module receives the
    /// call. It may only shorten what the chain permits.
    fn call(&self, chain_id: i64, call_json: String, deadline_ms: Option<i64>) -> String;

    fn get_transaction_count(&self, chain_id: i64, address: String) -> String;

    fn gas_price(&self, chain_id: i64) -> String;

    fn fee_history(&self, chain_id: i64, blocks: i64, reward_percentiles_json: String) -> String;

    fn estimate_gas(&self, chain_id: i64, tx_json: String) -> String;

    fn send_raw_transaction(&self, chain_id: i64, raw_hex: String) -> String;

    fn get_transaction_receipt(&self, chain_id: i64, hash_hex: String) -> String;

    fn get_transaction_by_hash(&self, chain_id: i64, hash_hex: String) -> String;

    /// Any JSON-RPC method; `params_json` is an array.
    fn raw_rpc(&self, chain_id: i64, method: String, params_json: String) -> String;

    /// The same at an explicit url, with the chain's client.
    fn raw_rpc_url(&self, chain_id: i64, url: String, method: String, params_json: String) -> String;

    /// Seeds a chain only where it lacks something.
    fn ensure_chain_config(&self, chain_id: i64, config_json: String) -> String;

    /// Sets the timeouts; `0` leaves one as it is.
    fn patch_chain_transport(
        &self,
        chain_id: i64,
        timeout_secs: i64,
        verified_timeout_secs: i64,
    ) -> String;

    /// Sets the endpoint and nothing else.
    fn patch_chain_endpoint(&self, chain_id: i64, endpoint: String) -> String;

    /// `off` talks to the endpoint; `required` goes through the light-client proxy and refuses
    /// rather than fall back.
    fn set_verified_proxy_mode(&self, chain_id: i64, mode: String) -> String;

    /// What state a chain's verified proxy is in, whether a verified call would answer now, and what
    /// the user has to do about it.
    fn verified_proxy_status(&self, chain_id: i64) -> String;

    /// Whether a config has been set, and what it is. It asks nobody.
    fn config_status(&self) -> String;

    /// Seeds the built-in endpoints, only where something is lacking.
    fn init_defaults(&self) -> String;

    fn on_context_ready(&self, _ctx: &RustModuleContext) {
    }
}

/// What subscribers hear.
pub trait EthRpcModuleEvents {
    /// One chain's record was added, removed or altered.
    fn chain_config_changed(&self, chain_id: i64);

    /// The verified-proxy gate of one chain moved; `mode` is the one now in force. A chain whose
    /// record was removed is off.
    fn verified_proxy_mode_changed(&self, chain_id: i64, mode: String);
}

} // verus!
