//! The one place that decides how a request may leave: through which network proxy, or not at all.
use vstd::prelude::*;
use vstd::string::*;

use crate::config::opt_string;
use crate::text::{begins_with, has_prefix, trimmed};
use crate::time::{Duration, seconds};

verus! {

/// How a chain's requests may leave.
#[derive(Debug, PartialEq, Eq)]
pub struct ProxyConfig {
    /// The network proxy to go through.
    pub proxy: Option<String>,
    /// Refuse rather than send without a proxy.
    pub proxy_required: bool,
    /// The timeout of each phase of a request; `0` leaves the client's own.
    pub timeout_secs: u64,
}

/// What a [`ProxyConfig`] says.
#[verifier::ext_equal]
pub struct ProxyConfigView {
    pub proxy: Option<Seq<char>>,
    pub proxy_required: bool,
    pub timeout_secs: u64,
}

impl View for ProxyConfig {
    type V = ProxyConfigView;

    open spec fn view(&self) -> ProxyConfigView {
        ProxyConfigView {
            proxy: opt_string(self.proxy),
            proxy_required: self.proxy_required,
            timeout_secs: self.timeout_secs,
        }
    }
}

/// Why no client may be built.
#[derive(Clone, Debug, PartialEq, Eq)]
pub enum ProxyError {
    ProxyRequiredButUnset,
    ProxyUnusable(String),
    Build(String),
}

/// What a [`ProxyError`] says.
#[verifier::ext_equal]
pub enum ProxyErrorView {
    ProxyRequiredButUnset,
    ProxyUnusable(Seq<char>),
    Build(Seq<char>),
}

impl View for ProxyError {
    type V = ProxyErrorView;

    open spec fn view(&self) -> ProxyErrorView {
        match *self {
            ProxyError::ProxyRequiredButUnset => ProxyErrorView::ProxyRequiredButUnset,
            ProxyError::ProxyUnusable(s) => ProxyErrorView::ProxyUnusable(s@),
            ProxyError::Build(s) => ProxyErrorView::Build(s@),
        }
    }
}

/// What is said of a chain that must use a proxy and has none.
pub const PROXY_UNSET: &'static str = "proxy required but none configured (fail-closed: refusing to send in the clear)";

impl ProxyErrorView {
    /// The sentence that a user reads.
    pub open spec fn message(self) -> Seq<char> {
        match self {
            ProxyErrorView::ProxyRequiredButUnset => PROXY_UNSET@,
            ProxyErrorView::ProxyUnusable(s) => "proxy URL is invalid or unsupported: "@ + s,
            ProxyErrorView::Build(s) => "failed to build HTTP client: "@ + s,
        }
    }
}

impl ProxyError {
    /// The sentence that a user reads.
    pub fn message(&self) -> (r: String)
        ensures
            r@ == self@.message(),
    {
        match self {
            ProxyError::ProxyRequiredButUnset => PROXY_UNSET.to_string(),
            ProxyError::ProxyUnusable(s) => String::from_str(
                "proxy URL is invalid or unsupported: ",
            ).concat(s.as_str()),
            ProxyError::Build(s) => String::from_str("failed to build HTTP client: ").concat(
                s.as_str(),
            ),
        }
    }
}

/// The client that a request is sent with.
#[derive(Debug, PartialEq, Eq)]
pub struct ClientPlan {
    /// The proxy that all traffic goes through. Where there is none the client goes direct, whatever
    /// proxy its surroundings suggest.
    pub proxy: Option<String>,
    /// The timeout of each phase; the client's own where there is none.
    pub timeout: Option<Duration>,
}

/// What a [`ClientPlan`] says.
#[verifier::ext_equal]
pub struct ClientPlanView {
    pub proxy: Option<Seq<char>>,
    pub timeout: Option<nat>,
}

/// The length of a span that may be absent.
pub open spec fn opt_span(d: Option<Duration>) -> Option<nat> {
    match d {
        Some(d) => Some(d@),
        None => None,
    }
}

impl View for ClientPlan {
    type V = ClientPlanView;

    open spec fn view(&self) -> ClientPlanView {
        ClientPlanView { proxy: opt_string(self.proxy), timeout: opt_span(self.timeout) }
    }
}

/// Whether a proxy url is of a kind that can be used. `socks5h` resolves names through the proxy.
pub open spec fn supported_scheme(url: Seq<char>) -> bool {
    has_prefix(url, "socks5h://"@) || has_prefix(url, "socks5://"@) || has_prefix(url, "http://"@)
        || has_prefix(url, "https://"@)
}

/// What `reqwest::Proxy::all` says against a proxy url; nothing where it takes the url.
pub uninterp spec fn proxy_objection(url: Seq<char>) -> Option<Seq<char>>;

/// Calls `reqwest::Proxy::all`. Whether it takes the url, and the text of its error where it does
/// not, depend on the url alone.
#[verifier::external_body]
fn check_proxy_url(url: &str) -> (r: Result<(), String>)
    ensures
        match r {
            Ok(()) => proxy_objection(url@) is None,
            Err(e) => proxy_objection(url@) == Some(e@),
        },
{
    reqwest::Proxy::all(url).map(|_| ()).map_err(|e| e.to_string())
}

impl ProxyConfigView {
    /// The proxy's url, where one is set: white space alone sets none.
    pub open spec fn url(self) -> Option<Seq<char>> {
        match self.proxy {
            Some(p) => if trimmed(p).len() > 0 {
                Some(trimmed(p))
            } else {
                None
            },
            None => None,
        }
    }

    /// The proxy's url, or why none may be used.
    pub open spec fn usable_url(self) -> Result<Option<Seq<char>>, ProxyErrorView> {
        match self.url() {
            Some(url) => if supported_scheme(url) {
                Ok(Some(url))
            } else {
                Err(ProxyErrorView::ProxyUnusable(url))
            },
            None => if self.proxy_required {
                Err(ProxyErrorView::ProxyRequiredButUnset)
            } else {
                Ok(None)
            },
        }
    }

    /// The client for a proxy url that is held to be fine, or for none.
    pub open spec fn plan(self, url: Option<Seq<char>>) -> ClientPlanView {
        ClientPlanView {
            proxy: url,
            timeout: if self.timeout_secs > 0 {
                Some(seconds(self.timeout_secs as int))
            } else {
                None
            },
        }
    }

    /// The client, or why there may be none, given what was said against a proxy url.
    pub open spec fn plan_given(self, objection: Option<Seq<char>>) -> Result<
        ClientPlanView,
        ProxyErrorView,
    > {
        match self.usable_url() {
            Err(e) => Err(e),
            Ok(None) => Ok(self.plan(None)),
            Ok(Some(url)) => match objection {
                Some(e) => Err(ProxyErrorView::ProxyUnusable(e)),
                None => Ok(self.plan(Some(url))),
            },
        }
    }

    /// The client, or why there may be none.
    pub open spec fn client(self) -> Result<ClientPlanView, ProxyErrorView> {
        self.plan_given(
            match self.url() {
                Some(url) => proxy_objection(url),
                None => None,
            },
        )
    }
}

/// The view of what planning a client gave.
pub open spec fn plan_view(r: Result<ClientPlan, ProxyError>) -> Result<
    ClientPlanView,
    ProxyErrorView,
> {
    match r {
        Ok(p) => Ok(p@),
        Err(e) => Err(e@),
    }
}

impl ProxyConfig {
    pub fn new(proxy: Option<String>, proxy_required: bool, timeout_secs: u64) -> (r: Self)
        ensures
            r@ == (ProxyConfigView { proxy: opt_string(proxy), proxy_required, timeout_secs }),
    {
        ProxyConfig { proxy, proxy_required, timeout_secs }
    }

    /// The proxy's url, or why none may be used: a proxy that is required and not set, or a url of
    /// an unsupported kind.
    pub fn usable_url(&self) -> (r: Result<Option<String>, ProxyError>)
        ensures
            match r {
                Ok(url) => self@.usable_url() == Ok::<_, ProxyErrorView>(opt_string(url)),
                Err(e) => self@.usable_url() == Err::<Option<Seq<char>>, _>(e@),
            },
    {
        let url = match &self.proxy {
            Some(p) => p.as_str().trim(),
            None => "",
        };
        proof {
            reveal_strlit("");
        }
        if url.unicode_len() == 0 {
            return if self.proxy_required {
                Err(ProxyError::ProxyRequiredButUnset)
            } else {
                Ok(None)
            };
        }
        if begins_with(url, "socks5h://") || begins_with(url, "socks5://") || begins_with(
            url,
            "http://",
        ) || begins_with(url, "https://") {
            Ok(Some(url.to_string()))
        } else {
            Err(ProxyError::ProxyUnusable(url.to_string()))
        }
    }

    /// The client, given what was said against the proxy's url.
    pub fn plan_given(&self, objection: Option<String>) -> (r: Result<ClientPlan, ProxyError>)
        ensures
            plan_view(r) == self@.plan_given(opt_string(objection)),
    {
        let timeout = if self.timeout_secs > 0 {
            Some(Duration::from_secs(self.timeout_secs))
        } else {
            None
        };
        match self.usable_url() {
            Err(e) => Err(e),
            Ok(None) => Ok(ClientPlan { proxy: None, timeout }),
            Ok(Some(url)) => match objection {
                Some(e) => Err(ProxyError::ProxyUnusable(e)),
                None => Ok(ClientPlan { proxy: Some(url), timeout }),
            },
        }
    }
}

/// The client that requests under `config` are sent with. A proxy that is required and not usable
/// gives no client, and so no request.
pub fn build_client(config: &ProxyConfig) -> (r: Result<ClientPlan, ProxyError>)
    ensures
        plan_view(r) == config@.client(),
{
    let objection = match config.usable_url() {
        Ok(Some(url)) => match check_proxy_url(url.as_str()) {
            Ok(()) => None,
            Err(e) => Some(e),
        },
        _ => None,
    };
    config.plan_given(objection)
}

/// A client that must use a proxy uses one, or is not built: nothing is sent in the clear.
pub proof fn law_fail_closed(config: ProxyConfigView)
    requires
        config.proxy_required,
    ensures
        config.url() is None ==> config.client() == Err::<ClientPlanView, _>(
            ProxyErrorView::ProxyRequiredButUnset,
        ),
        config.client() matches Ok(plan) ==> plan.proxy is Some && plan.proxy == config.url(),
{
}

/// A proxy that is set is never passed by, required or not, and only one of a supported kind is
/// used.
pub proof fn law_set_proxy_is_used(config: ProxyConfigView)
    requires
        config.url() is Some,
    ensures
        config.client() matches Ok(plan) ==> plan.proxy == config.url() && supported_scheme(
            config.url()->0,
        ),
        !supported_scheme(config.url()->0) ==> config.client() == Err::<ClientPlanView, _>(
            ProxyErrorView::ProxyUnusable(config.url()->0),
        ),
{
}

/// A client says which proxy it goes through and how long a phase may take, a setting what is set, and an
/// error why there is no client.
pub proof fn law_a_client_says_what_stands_in_it(
    plan: ClientPlan,
    config: ProxyConfig,
    s: String,
    span: Duration,
)
    ensures
        plan@.proxy is Some <==> plan.proxy is Some,
        plan.proxy is Some ==> plan@.proxy == Some(plan.proxy->0@),
        plan@.timeout is Some <==> plan.timeout is Some,
        plan.timeout is Some ==> plan@.timeout == Some(plan.timeout->0@),
        config@.proxy is Some <==> config.proxy is Some,
        config.proxy is Some ==> config@.proxy == Some(config.proxy->0@),
        config@.proxy_required == config.proxy_required,
        config@.timeout_secs == config.timeout_secs,
        ProxyError::ProxyRequiredButUnset@ == ProxyErrorView::ProxyRequiredButUnset,
        ProxyError::ProxyUnusable(s)@ == ProxyErrorView::ProxyUnusable(s@),
        ProxyError::Build(s)@ == ProxyErrorView::Build(s@),
        plan_view(Ok(plan)) == Ok::<_, ProxyErrorView>(plan@),
        opt_span(Some(span)) == Some(span@),
        opt_span(None) is None,
{
}

} // verus!
