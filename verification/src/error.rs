//! Why a call was refused or failed.
use vstd::prelude::*;
use vstd::string::*;

use crate::text::{decimal, decimal_i128, decimal_u128, decimal_u64};

verus! {

#[derive(Clone, Debug, PartialEq, Eq)]
pub enum RpcError {
    UnknownChain(u64),
    Proxy(String),
    Http(String),
    /// The budget ran out. Apart from [`RpcError::Http`], because a caller retries a slow endpoint
    /// and replaces a refused one.
    Timeout { budget_ms: u128, detail: String },
    Rpc { code: i64, message: String },
    Parse(String),
    /// The verified path could not answer. Never downgraded to a direct call: a caller who asked
    /// for verification gets an error, not an unverified number.
    VerifiedProxy(String),
    /// A read that the verified route proves was asked for through an explicit url, which can
    /// prove nothing. Refused rather than answered in the clear.
    VerifiedBypass(String),
}

/// What an [`RpcError`] says.
#[verifier::ext_equal]
pub enum RpcErrorView {
    UnknownChain(u64),
    Proxy(Seq<char>),
    Http(Seq<char>),
    Timeout { budget_ms: nat, detail: Seq<char> },
    Rpc { code: i64, message: Seq<char> },
    Parse(Seq<char>),
    VerifiedProxy(Seq<char>),
    VerifiedBypass(Seq<char>),
}

impl View for RpcError {
    type V = RpcErrorView;

    open spec fn view(&self) -> RpcErrorView {
        match *self {
            RpcError::UnknownChain(id) => RpcErrorView::UnknownChain(id),
            RpcError::Proxy(e) => RpcErrorView::Proxy(e@),
            RpcError::Http(e) => RpcErrorView::Http(e@),
            RpcError::Timeout { budget_ms, detail } => RpcErrorView::Timeout {
                budget_ms: budget_ms as nat,
                detail: detail@,
            },
            RpcError::Rpc { code, message } => RpcErrorView::Rpc { code, message: message@ },
            RpcError::Parse(e) => RpcErrorView::Parse(e@),
            RpcError::VerifiedProxy(e) => RpcErrorView::VerifiedProxy(e@),
            RpcError::VerifiedBypass(m) => RpcErrorView::VerifiedBypass(m@),
        }
    }
}

/// What stands behind the method's name where a proof-backed read is refused.
pub const BYPASS_REFUSAL: &'static str = " is proof-backed on this chain's verified route: refused through an explicit url, which cannot prove it (use raw_rpc)";

impl RpcErrorView {
    /// The token that tells the kind of error.
    pub open spec fn code(self) -> Seq<char> {
        match self {
            RpcErrorView::UnknownChain(_) => "unknown_chain"@,
            RpcErrorView::Proxy(_) => "proxy"@,
            RpcErrorView::Http(_) => "http"@,
            RpcErrorView::Timeout { .. } => "timeout"@,
            RpcErrorView::Rpc { .. } => "rpc"@,
            RpcErrorView::Parse(_) => "parse"@,
            RpcErrorView::VerifiedProxy(_) => "verified_proxy"@,
            RpcErrorView::VerifiedBypass(_) => "verified_bypass"@,
        }
    }

    /// The sentence that a user reads.
    pub open spec fn message(self) -> Seq<char> {
        match self {
            RpcErrorView::UnknownChain(id) => "no configuration for chain "@ + decimal(id as int),
            RpcErrorView::Proxy(e) => "proxy: "@ + e,
            RpcErrorView::Http(e) => "http: "@ + e,
            RpcErrorView::Timeout { budget_ms, detail } => "no answer within "@ + decimal(
                budget_ms as int,
            ) + "ms: "@ + detail,
            RpcErrorView::Rpc { code, message } => "rpc error "@ + decimal(code as int) + ": "@
                + message,
            RpcErrorView::Parse(e) => "parse: "@ + e,
            RpcErrorView::VerifiedProxy(e) => "verified proxy: "@ + e,
            RpcErrorView::VerifiedBypass(m) => m + BYPASS_REFUSAL@,
        }
    }
}

impl RpcError {
    /// The token that tells the kind of error, so that no caller has to match on the sentence.
    pub fn code(&self) -> (r: &'static str)
        ensures
            r@ == self@.code(),
    {
        match self {
            RpcError::UnknownChain(_) => "unknown_chain",
            RpcError::Proxy(_) => "proxy",
            RpcError::Http(_) => "http",
            RpcError::Timeout { .. } => "timeout",
            RpcError::Rpc { .. } => "rpc",
            RpcError::Parse(_) => "parse",
            RpcError::VerifiedProxy(_) => "verified_proxy",
            RpcError::VerifiedBypass(_) => "verified_bypass",
        }
    }

    /// The sentence that a user reads.
    pub fn message(&self) -> (r: String)
        ensures
            r@ == self@.message(),
    {
        match self {
            RpcError::UnknownChain(id) => String::from_str("no configuration for chain ").concat(
                decimal_u64(*id).as_str(),
            ),
            RpcError::Proxy(e) => String::from_str("proxy: ").concat(e.as_str()),
            RpcError::Http(e) => String::from_str("http: ").concat(e.as_str()),
            RpcError::Timeout { budget_ms, detail } => String::from_str("no answer within ").concat(
                decimal_u128(*budget_ms).as_str(),
            ).concat("ms: ").concat(detail.as_str()),
            RpcError::Rpc { code, message } => String::from_str("rpc error ").concat(
                decimal_i128(*code as i128).as_str(),
            ).concat(": ").concat(message.as_str()),
            RpcError::Parse(e) => String::from_str("parse: ").concat(e.as_str()),
            RpcError::VerifiedProxy(e) => String::from_str("verified proxy: ").concat(e.as_str()),
            RpcError::VerifiedBypass(m) => m.clone().concat(BYPASS_REFUSAL),
        }
    }
}

/// An error says what stands in it.
pub proof fn law_an_error_says_what_stands_in_it(id: u64, code: i64, budget_ms: u128, s: String)
    ensures
        RpcError::UnknownChain(id)@ == RpcErrorView::UnknownChain(id),
        RpcError::Proxy(s)@ == RpcErrorView::Proxy(s@),
        RpcError::Http(s)@ == RpcErrorView::Http(s@),
        (RpcError::Timeout { budget_ms, detail: s })@ == (RpcErrorView::Timeout {
            budget_ms: budget_ms as nat,
            detail: s@,
        }),
        (RpcError::Rpc { code, message: s })@ == (RpcErrorView::Rpc { code, message: s@ }),
        RpcError::Parse(s)@ == RpcErrorView::Parse(s@),
        RpcError::VerifiedProxy(s)@ == RpcErrorView::VerifiedProxy(s@),
        RpcError::VerifiedBypass(s)@ == RpcErrorView::VerifiedBypass(s@),
{
}

} // verus!
