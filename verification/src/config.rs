//! What is stored for a chain, how a caller's write is resolved against it, and what a write moved.
use vstd::prelude::*;
use vstd::string::*;

use crate::json::{Json, JsonView, empty_object};

verus! {

/// How JSON-RPC for a chain is routed.
#[derive(Clone, Copy, Debug, PartialEq, Eq, Structural)]
pub enum VerifiedProxyMode {
    /// Talk to the configured endpoint directly.
    Off,
    /// Route through the light-client proxy and refuse rather than fall back. There is no
    /// `preferred` mode on purpose: quietly answering from an unverified source when the user
    /// asked for verification is what this mode exists to prevent.
    Required,
}

impl Default for VerifiedProxyMode {
    fn default() -> (r: Self)
        ensures
            r == VerifiedProxyMode::Off,
    {
        VerifiedProxyMode::Off
    }
}

/// Who wrote a chain's record. It is there to be reported: what refuses to overwrite a record is
/// the way the store seeds, not this label.
#[derive(Clone, Copy, Debug, PartialEq, Eq, Structural)]
pub enum ConfigSource {
    /// A caller wrote it. A record whose writer is not known counts as a caller's.
    External,
    /// It was seeded from [`DEFAULT_ENDPOINTS`].
    Builtin,
}

impl Default for ConfigSource {
    fn default() -> (r: Self)
        ensures
            r == ConfigSource::External,
    {
        ConfigSource::External
    }
}

/// What is stored for one chain. `endpoint` is the JSON-RPC URL; `proxy` and `proxy_required` say
/// how a client may reach it.
#[derive(Debug, PartialEq, Eq)]
pub struct ChainConfig {
    pub endpoint: String,
    /// A network proxy, such as `socks5h://127.0.0.1:9050`: it hides who is asking.
    pub proxy: Option<String>,
    pub proxy_required: bool,
    pub timeout_secs: u64,
    /// Whether calls go through the light-client proxy: it proves the answer.
    pub verified_proxy_mode: VerifiedProxyMode,
    pub verified_timeout_secs: u64,
    pub source: ConfigSource,
}

/// What a [`ChainConfig`] says.
#[verifier::ext_equal]
pub struct ChainConfigView {
    pub endpoint: Seq<char>,
    pub proxy: Option<Seq<char>>,
    pub proxy_required: bool,
    pub timeout_secs: u64,
    pub verified_proxy_mode: VerifiedProxyMode,
    pub verified_timeout_secs: u64,
    pub source: ConfigSource,
}

/// The text of an owned string that may be absent.
pub open spec fn opt_string(s: Option<String>) -> Option<Seq<char>> {
    match s {
        Some(s) => Some(s@),
        None => None,
    }
}

impl View for ChainConfig {
    type V = ChainConfigView;

    open spec fn view(&self) -> ChainConfigView {
        ChainConfigView {
            endpoint: self.endpoint@,
            proxy: opt_string(self.proxy),
            proxy_required: self.proxy_required,
            timeout_secs: self.timeout_secs,
            verified_proxy_mode: self.verified_proxy_mode,
            verified_timeout_secs: self.verified_timeout_secs,
            source: self.source,
        }
    }
}

impl Clone for ChainConfig {
    fn clone(&self) -> (r: Self)
        ensures
            r == *self,
    {
        ChainConfig {
            endpoint: self.endpoint.clone(),
            proxy: self.proxy.clone(),
            proxy_required: self.proxy_required,
            timeout_secs: self.timeout_secs,
            verified_proxy_mode: self.verified_proxy_mode,
            verified_timeout_secs: self.verified_timeout_secs,
            source: self.source,
        }
    }
}

/// The transport timeout of a record that names none, in seconds. It stays well under the 20 s
/// after which a caller gives up on the module itself.
pub const DEFAULT_TIMEOUT_SECS: u64 = 8;

/// The budget of one verified call where a record names none, in seconds. The verified path is a
/// second hop, so it gets more room.
pub const DEFAULT_VERIFIED_TIMEOUT_SECS: u64 = 15;

pub fn default_timeout() -> (r: u64)
    ensures
        r == DEFAULT_TIMEOUT_SECS,
{
    DEFAULT_TIMEOUT_SECS
}

pub fn default_verified_timeout() -> (r: u64)
    ensures
        r == DEFAULT_VERIFIED_TIMEOUT_SECS,
{
    DEFAULT_VERIFIED_TIMEOUT_SECS
}

/// The endpoints that seeding writes, one per chain, so that a fresh device works with no
/// configuration at all.
pub const DEFAULT_ENDPOINTS: [(u64, &'static str); 3] = [
    (1, "https://ethereum-rpc.publicnode.com"),
    (11155111, "https://ethereum-sepolia-rpc.publicnode.com"),
    (560048, "https://ethereum-hoodi-rpc.publicnode.com"),
];

/// What is said of a record that asks for a network proxy and for verified routing at once.
pub const CONTRADICTION: &'static str = "proxyRequired and verifiedProxyMode=required cannot both be set: the verified proxy makes its own connections and cannot honour a SOCKS proxy configured here";

/// The record that seeding writes for `endpoint`.
pub open spec fn builtin_config(endpoint: Seq<char>) -> ChainConfigView {
    ChainConfigView {
        endpoint,
        proxy: None,
        proxy_required: false,
        timeout_secs: DEFAULT_TIMEOUT_SECS,
        verified_proxy_mode: VerifiedProxyMode::Off,
        verified_timeout_secs: DEFAULT_VERIFIED_TIMEOUT_SECS,
        source: ConfigSource::Builtin,
    }
}

impl ChainConfigView {
    /// Whether the record asks for a network proxy and for verified routing at once. The verified
    /// proxy makes its own connections and knows nothing of a network proxy set here, so both
    /// cannot be honoured.
    pub open spec fn contradictory(self) -> bool {
        self.proxy_required && self.verified_proxy_mode == VerifiedProxyMode::Required
    }
}

impl ChainConfig {
    /// The built-in record for `endpoint`. Verified routing is off.
    pub fn builtin(endpoint: &str) -> (r: Self)
        ensures
            r@ == builtin_config(endpoint@),
    {
        ChainConfig {
            endpoint: endpoint.to_string(),
            proxy: None,
            proxy_required: false,
            timeout_secs: default_timeout(),
            verified_proxy_mode: VerifiedProxyMode::Off,
            verified_timeout_secs: default_verified_timeout(),
            source: ConfigSource::Builtin,
        }
    }

    /// The record that a caller's JSON stands for, given what the JSON was parsed into: whatever
    /// the JSON claims of its `source`, a caller that writes a record makes it theirs.
    pub fn from_caller_json(parsed: ChainConfig) -> (r: Self)
        ensures
            r@ == (ChainConfigView { source: ConfigSource::External, ..parsed@ }),
    {
        let mut cfg = parsed;
        cfg.source = ConfigSource::External;
        cfg
    }

    /// Refuses a record that asks for a network proxy and for verified routing at once.
    pub fn validate(&self) -> (r: Result<(), String>)
        ensures
            match r {
                Ok(()) => !self@.contradictory(),
                Err(e) => self@.contradictory() && e@ == CONTRADICTION@,
            },
    {
        if self.proxy_required && self.verified_proxy_mode == VerifiedProxyMode::Required {
            return Err(CONTRADICTION.to_string());
        }
        Ok(())
    }
}

/// A chain config as a caller sends it. The verified fields may be left out here, and only here:
/// leaving one out keeps what is stored, so that a caller that never heard of verified routing
/// cannot revoke it by silence.
#[derive(Clone, Debug, PartialEq, Eq)]
pub struct ChainConfigWire {
    pub endpoint: String,
    pub proxy: Option<String>,
    pub proxy_required: bool,
    pub timeout_secs: u64,
    pub verified_proxy_mode: Option<VerifiedProxyMode>,
    pub verified_timeout_secs: Option<u64>,
}

/// What a [`ChainConfigWire`] says.
#[verifier::ext_equal]
pub struct ChainConfigWireView {
    pub endpoint: Seq<char>,
    pub proxy: Option<Seq<char>>,
    pub proxy_required: bool,
    pub timeout_secs: u64,
    pub verified_proxy_mode: Option<VerifiedProxyMode>,
    pub verified_timeout_secs: Option<u64>,
}

impl View for ChainConfigWire {
    type V = ChainConfigWireView;

    open spec fn view(&self) -> ChainConfigWireView {
        ChainConfigWireView {
            endpoint: self.endpoint@,
            proxy: opt_string(self.proxy),
            proxy_required: self.proxy_required,
            timeout_secs: self.timeout_secs,
            verified_proxy_mode: self.verified_proxy_mode,
            verified_timeout_secs: self.verified_timeout_secs,
        }
    }
}

/// The view of a stored record that may be absent.
pub open spec fn opt_config(c: Option<&ChainConfig>) -> Option<ChainConfigView> {
    match c {
        Some(c) => Some(c@),
        None => None,
    }
}

/// The mode in force for a chain: one without a record is off.
pub open spec fn mode_of(c: Option<ChainConfigView>) -> VerifiedProxyMode {
    match c {
        Some(c) => c.verified_proxy_mode,
        None => VerifiedProxyMode::Off,
    }
}

/// The record that a caller's write stands for, next to what is stored.
pub open spec fn resolved_config(
    wire: ChainConfigWireView,
    existing: Option<ChainConfigView>,
) -> ChainConfigView {
    ChainConfigView {
        endpoint: wire.endpoint,
        proxy: wire.proxy,
        proxy_required: wire.proxy_required,
        timeout_secs: wire.timeout_secs,
        verified_proxy_mode: match wire.verified_proxy_mode {
            Some(mode) => mode,
            None => mode_of(existing),
        },
        verified_timeout_secs: match (wire.verified_timeout_secs, existing) {
            (Some(secs), _) => secs,
            (None, Some(c)) => c.verified_timeout_secs,
            (None, None) => DEFAULT_VERIFIED_TIMEOUT_SECS,
        },
        source: ConfigSource::External,
    }
}

impl ChainConfigWire {
    /// Resolves the write against what is stored: a verified field that is left out keeps the
    /// stored value, or takes the default where the chain is new. A caller that writes a record
    /// makes it theirs.
    pub fn resolve(self, existing: Option<&ChainConfig>) -> (r: ChainConfig)
        ensures
            r@ == resolved_config(self@, opt_config(existing)),
    {
        let verified_proxy_mode = match (self.verified_proxy_mode, existing) {
            (Some(mode), _) => mode,
            (None, Some(c)) => c.verified_proxy_mode,
            (None, None) => VerifiedProxyMode::Off,
        };
        let verified_timeout_secs: u64 = match (self.verified_timeout_secs, existing) {
            (Some(secs), _) => secs,
            (None, Some(c)) => c.verified_timeout_secs,
            (None, None) => default_verified_timeout(),
        };
        ChainConfig {
            endpoint: self.endpoint,
            proxy: self.proxy,
            proxy_required: self.proxy_required,
            timeout_secs: self.timeout_secs,
            verified_proxy_mode,
            verified_timeout_secs,
            source: ConfigSource::External,
        }
    }
}

/// The wire label of a mode.
pub open spec fn mode_text(mode: VerifiedProxyMode) -> Seq<char> {
    match mode {
        VerifiedProxyMode::Off => "off"@,
        VerifiedProxyMode::Required => "required"@,
    }
}

/// The wire label of a chain's mode: what the mode event carries and what setting the mode
/// accepts.
pub fn mode_label(mode: VerifiedProxyMode) -> (r: &'static str)
    ensures
        r@ == mode_text(mode),
{
    match mode {
        VerifiedProxyMode::Off => "off",
        VerifiedProxyMode::Required => "required",
    }
}

/// The wire label of a record's writer.
pub open spec fn source_text(source: ConfigSource) -> Seq<char> {
    match source {
        ConfigSource::External => "external"@,
        ConfigSource::Builtin => "default"@,
    }
}

/// The wire label of a record's writer.
pub fn source_label(source: ConfigSource) -> (r: &'static str)
    ensures
        r@ == source_text(source),
{
    match source {
        ConfigSource::External => "external",
        ConfigSource::Builtin => "default",
    }
}

/// What a write actually moved. A setter that stores the same record again must not wake every
/// subscriber, so what is announced is a difference of records, never that a setter was called.
#[derive(Clone, Copy, Debug, PartialEq, Eq)]
pub struct ChainChange {
    /// The stored record differs: added, removed, or any field.
    pub config: bool,
    /// The verified-proxy gate moved; the mode now in force.
    pub mode: Option<VerifiedProxyMode>,
}

impl Default for ChainChange {
    fn default() -> (r: Self)
        ensures
            r == (ChainChange { config: false, mode: None }),
    {
        ChainChange { config: false, mode: None }
    }
}

impl ChainChange {
    /// Whether anything moved.
    pub fn any(&self) -> (r: bool)
        ensures
            r == (self.config || self.mode is Some),
    {
        self.config || self.mode.is_some()
    }
}

/// What lies between the record before a write and the record after it. A chain without a record
/// counts as off.
pub open spec fn chain_change(
    before: Option<ChainConfigView>,
    after: Option<ChainConfigView>,
) -> ChainChange {
    ChainChange {
        config: before != after,
        mode: if mode_of(before) != mode_of(after) {
            Some(mode_of(after))
        } else {
            None
        },
    }
}

fn same_proxy(a: &Option<String>, b: &Option<String>) -> (r: bool)
    ensures
        r == (opt_string(*a) == opt_string(*b)),
{
    match (a, b) {
        (Some(a), Some(b)) => *a == *b,
        (None, None) => true,
        _ => false,
    }
}

impl ChainConfig {
    /// Whether two records say the same.
    pub fn same(&self, other: &ChainConfig) -> (r: bool)
        ensures
            r == (self@ == other@),
    {
        self.endpoint == other.endpoint && same_proxy(&self.proxy, &other.proxy)
            && self.proxy_required == other.proxy_required && self.timeout_secs
            == other.timeout_secs && self.verified_proxy_mode == other.verified_proxy_mode
            && self.verified_timeout_secs == other.verified_timeout_secs && self.source
            == other.source
    }
}

/// Compares one chain's record across a write.
pub fn diff_chain(before: Option<&ChainConfig>, after: Option<&ChainConfig>) -> (r: ChainChange)
    ensures
        r == chain_change(opt_config(before), opt_config(after)),
{
    let b = match before {
        Some(c) => c.verified_proxy_mode,
        None => VerifiedProxyMode::Off,
    };
    let a = match after {
        Some(c) => c.verified_proxy_mode,
        None => VerifiedProxyMode::Off,
    };
    let same = match (before, after) {
        (Some(x), Some(y)) => x.same(y),
        (None, None) => true,
        _ => false,
    };
    ChainChange {
        config: !same,
        mode: if b != a {
            Some(a)
        } else {
            None
        },
    }
}

/// A text that may be absent, as JSON.
pub open spec fn opt_text_json(s: Option<Seq<char>>) -> JsonView {
    match s {
        Some(s) => JsonView::Text(s),
        None => JsonView::Null,
    }
}

/// The JSON form of a record.
pub open spec fn config_json(c: ChainConfigView) -> JsonView {
    empty_object().with("endpoint"@, JsonView::Text(c.endpoint)).with(
        "proxy"@,
        opt_text_json(c.proxy),
    ).with("proxyRequired"@, JsonView::Bool(c.proxy_required)).with(
        "timeoutSecs"@,
        JsonView::Int(c.timeout_secs as int),
    ).with("verifiedProxyMode"@, JsonView::Text(mode_text(c.verified_proxy_mode))).with(
        "verifiedTimeoutSecs"@,
        JsonView::Int(c.verified_timeout_secs as int),
    ).with("source"@, JsonView::Text(source_text(c.source)))
}

impl ChainConfig {
    /// The JSON form of the record, in camel case.
    pub fn to_json(&self) -> (r: Json)
        ensures
            r@ == config_json(self@),
    {
        let proxy = match &self.proxy {
            Some(p) => Json::text(p.as_str()),
            None => Json::Null,
        };
        Json::object().with("endpoint", Json::text(self.endpoint.as_str())).with(
            "proxy",
            proxy,
        ).with("proxyRequired", Json::Bool(self.proxy_required)).with(
            "timeoutSecs",
            Json::Unsigned(self.timeout_secs),
        ).with("verifiedProxyMode", Json::text(mode_label(self.verified_proxy_mode))).with(
            "verifiedTimeoutSecs",
            Json::Unsigned(self.verified_timeout_secs),
        ).with("source", Json::text(source_label(self.source)))
    }
}

/// What is read of a record, or of a caller's config, is what stands in its fields.
pub proof fn law_a_record_says_what_stands_in_it(
    c: ChainConfig,
    w: ChainConfigWire,
    s: Option<String>,
)
    ensures
        c@.endpoint == c.endpoint@,
        c@.proxy is Some <==> c.proxy is Some,
        c.proxy is Some ==> c@.proxy == Some(c.proxy->0@),
        c@.proxy_required == c.proxy_required,
        c@.timeout_secs == c.timeout_secs,
        c@.verified_proxy_mode == c.verified_proxy_mode,
        c@.verified_timeout_secs == c.verified_timeout_secs,
        c@.source == c.source,
        opt_config(Some(&c)) == Some(c@),
        opt_config(None) is None,
        w@.endpoint == w.endpoint@,
        w@.proxy is Some <==> w.proxy is Some,
        w.proxy is Some ==> w@.proxy == Some(w.proxy->0@),
        w@.proxy_required == w.proxy_required,
        w@.timeout_secs == w.timeout_secs,
        w@.verified_proxy_mode == w.verified_proxy_mode,
        w@.verified_timeout_secs == w.verified_timeout_secs,
        opt_string(None) is None,
        s is Some ==> opt_string(s) == Some(s->0@),
{
}

} // verus!
