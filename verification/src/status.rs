//! What the store says of itself: which chains have a record, and who wrote it.
use vstd::prelude::*;

use crate::config::{
    ConfigSource, DEFAULT_ENDPOINTS, VerifiedProxyMode, mode_label, mode_text, source_label,
    source_text,
};
use crate::dialect::{VerifiedClass, class_of, verified_class};
use crate::json::{Json, JsonView, empty_object, views};
use crate::order::{ascending, in_order, insert_in_order, lemma_ascending, lists};
use crate::store::{EthRpc, EthRpcView, default_id};

verus! {

/// Whether the chain has a built-in endpoint.
pub open spec fn has_default(chain_id: u64) -> bool {
    exists|i: int| 0 <= i < DEFAULT_ENDPOINTS@.len() && #[trigger] default_id(i) == chain_id
}

impl EthRpcView {
    /// The chains that are reported: those with a record and those with a built-in endpoint.
    pub open spec fn reported(self) -> Set<u64> {
        Set::new(|id: u64| self.chains.contains_key(id) || has_default(id))
    }

    /// The line of one chain.
    pub open spec fn status_row(self, chain_id: u64) -> JsonView {
        match self.record(chain_id) {
            Some(c) => empty_object().with("chainId"@, JsonView::Int(chain_id as int)).with(
                "state"@,
                JsonView::Text("configured"@),
            ).with("source"@, JsonView::Text(source_text(c.source))).with(
                "endpoint"@,
                JsonView::Text(c.endpoint),
            ).with("verifiedProxyMode"@, JsonView::Text(mode_text(c.verified_proxy_mode))),
            None => empty_object().with("chainId"@, JsonView::Int(chain_id as int)).with(
                "state"@,
                JsonView::Text("unconfigured"@),
            ).with("source"@, JsonView::Text("none"@)),
        }
    }

    /// Whether any chain has a record.
    pub open spec fn configured(self) -> bool {
        exists|id: u64| self.chains.contains_key(id)
    }

    /// Whether any record is a caller's.
    pub open spec fn any_external(self) -> bool {
        exists|id: u64| #[trigger]
            self.chains.contains_key(id) && self.chains[id].source == ConfigSource::External
    }

    /// The roll-up of the state.
    pub open spec fn state_text(self) -> Seq<char> {
        if self.configured() {
            "configured"@
        } else {
            "unconfigured"@
        }
    }

    /// The roll-up of the writers.
    pub open spec fn source_text(self) -> Seq<char> {
        if !self.configured() {
            "none"@
        } else if self.any_external() {
            source_text(ConfigSource::External)
        } else {
            source_text(ConfigSource::Builtin)
        }
    }

    /// Whether a config has been set, per chain and rolled up.
    pub open spec fn config_status(self) -> JsonView {
        empty_object().with("ok"@, JsonView::Bool(true)).with(
            "state"@,
            JsonView::Text(self.state_text()),
        ).with("source"@, JsonView::Text(self.source_text())).with(
            "chains"@,
            JsonView::Array(ascending(self.reported()).map_values(|id: u64| self.status_row(id))),
        )
    }

    /// How a call is routed: through the proxy where the chain's mode is `required`.
    pub open spec fn route_of(self, chain_id: u64, method: Seq<char>) -> Option<VerifiedClass> {
        match self.record(chain_id) {
            Some(c) => if c.verified_proxy_mode == VerifiedProxyMode::Required {
                Some(class_of(method))
            } else {
                None
            },
            None => None,
        }
    }
}

impl EthRpc {
    /// The chains that are reported, ascending.
    fn reported(&self) -> (r: Vec<u64>)
        ensures
            lists(r@, self@.reported()),
            r@ == ascending(self@.reported()),
    {
        let mut ids = self.list_chains();
        let mut i: usize = 0;
        while i < DEFAULT_ENDPOINTS.len()
            invariant
                i <= DEFAULT_ENDPOINTS@.len(),
                in_order(ids@),
                forall|x: u64| #[trigger]
                    ids@.contains(x) <==> self@.chains.contains_key(x) || exists|j: int|
                        0 <= j < i && #[trigger] default_id(j) == x,
            decreases DEFAULT_ENDPOINTS@.len() - i,
        {
            let (id, _) = DEFAULT_ENDPOINTS[i];
            assert(default_id(i as int) == id);
            insert_in_order(&mut ids, id);
            i = i + 1;
        }
        proof {
            lemma_ascending(ids@, self@.reported());
        }
        ids
    }

    fn status_row(&self, chain_id: u64) -> (r: Json)
        ensures
            r@ == self@.status_row(chain_id),
    {
        match self.get_chain_config(chain_id) {
            Some(c) => Json::object().with("chainId", Json::Unsigned(chain_id)).with(
                "state",
                Json::text("configured"),
            ).with("source", Json::text(source_label(c.source))).with(
                "endpoint",
                Json::text(c.endpoint.as_str()),
            ).with("verifiedProxyMode", Json::text(mode_label(c.verified_proxy_mode))),
            None => Json::object().with("chainId", Json::Unsigned(chain_id)).with(
                "state",
                Json::text("unconfigured"),
            ).with("source", Json::text("none")),
        }
    }

    /// Whether a config has been set, per chain and rolled up. The roll-up is for display: a store
    /// that still lacks a built-in chain rolls up to `configured` all the same.
    pub fn config_status(&self) -> (r: Json)
        ensures
            r@ == self@.config_status(),
    {
        let ids = self.reported();
        let mut rows: Vec<Json> = Vec::new();
        let mut configured = false;
        let mut any_external = false;
        let mut i: usize = 0;
        while i < ids.len()
            invariant
                i <= ids.len(),
                rows@.len() == i,
                forall|j: int| 0 <= j < i ==> (#[trigger] rows@[j])@ == self@.status_row(ids@[j]),
                configured <==> exists|j: int|
                    0 <= j < i && self@.chains.contains_key(#[trigger] ids@[j]),
                any_external <==> exists|j: int|
                    0 <= j < i && self@.chains.contains_key(#[trigger] ids@[j])
                        && self@.chains[ids@[j]].source == ConfigSource::External,
            decreases ids.len() - i,
        {
            let id: u64 = ids[i];
            rows.push(self.status_row(id));
            if let Some(c) = self.get_chain_config(id) {
                configured = true;
                if c.source == ConfigSource::External {
                    any_external = true;
                }
            }
            i = i + 1;
        }
        proof {
            assert forall|id: u64| self@.chains.contains_key(id) implies exists|j: int|
                0 <= j < ids@.len() && #[trigger] ids@[j] == id by {
                assert(self@.reported().contains(id));
                assert(ids@.contains(id));
            }
            assert(configured == self@.configured());
            assert(any_external == self@.any_external());
            assert(views(rows@) =~= ids@.map_values(|id: u64| self@.status_row(id)));
        }
        let state = if configured {
            "configured"
        } else {
            "unconfigured"
        };
        let source = if !configured {
            "none"
        } else if any_external {
            source_label(ConfigSource::External)
        } else {
            source_label(ConfigSource::Builtin)
        };
        Json::object().with("ok", Json::Bool(true)).with("state", Json::text(state)).with(
            "source",
            Json::text(source),
        ).with("chains", Json::array(rows))
    }

    /// How a call to `method` is routed, without making it: the same decision that the call itself
    /// makes, so that an answer can be labelled with what it is.
    pub fn route_of(&self, chain_id: u64, method: &str) -> (r: Option<VerifiedClass>)
        ensures
            r == self@.route_of(chain_id, method@),
    {
        match self.get_chain_config(chain_id) {
            Some(c) => if c.verified_proxy_mode == VerifiedProxyMode::Required {
                Some(verified_class(method))
            } else {
                None
            },
            None => None,
        }
    }
}

} // verus!
