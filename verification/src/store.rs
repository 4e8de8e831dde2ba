//! The record of every chain, and every way in which one is written.
use std::collections::HashMap;

use vstd::prelude::*;
use vstd::string::*;

use crate::config::{
    CONTRADICTION, ChainConfig, ChainConfigView, ChainConfigWire, ChainConfigWireView,
    ConfigSource, DEFAULT_ENDPOINTS, VerifiedProxyMode, builtin_config, opt_config,
    resolved_config,
};
use crate::order::{ascending, in_order, insert_in_order, lemma_ascending, lists};
use crate::text::{decimal, decimal_u64, parse_u64, parsed_u64, trimmed};

verus! {

/// The records, by chain id.
pub struct EthRpc {
    chains: HashMap<u64, ChainConfig>,
    save_due: bool,
}

/// What an [`EthRpc`] holds: the records, and whether they wait to be saved.
#[verifier::ext_equal]
pub struct EthRpcView {
    pub chains: Map<u64, ChainConfigView>,
    pub save_due: bool,
}

impl View for EthRpc {
    type V = EthRpcView;

    closed spec fn view(&self) -> EthRpcView {
        EthRpcView {
            chains: self.chains@.map_values(|c: ChainConfig| c@),
            save_due: self.save_due,
        }
    }
}

/// The texts of a sequence of strings.
pub open spec fn texts(v: Seq<String>) -> Seq<Seq<char>> {
    v.map_values(|s: String| s@)
}

/// The entries of a saved store.
pub open spec fn entry_views(v: Seq<(String, ChainConfig)>) -> Seq<(Seq<char>, ChainConfigView)> {
    v.map_values(|e: (String, ChainConfig)| (e.0@, e.1@))
}

/// What seeding wrote, chain by chain.
pub open spec fn report_views(v: Seq<(u64, Vec<String>)>) -> Seq<(u64, Seq<Seq<char>>)> {
    v.map_values(|e: (u64, Vec<String>)| (e.0, texts(e.1@)))
}

/// The records that saved entries stand for. An entry whose key is no chain id is dropped; where two
/// entries name one chain, the later one counts.
pub open spec fn loaded(entries: Seq<(Seq<char>, ChainConfigView)>) -> Map<u64, ChainConfigView>
    decreases entries.len(),
{
    if entries.len() == 0 {
        Map::empty()
    } else {
        match parsed_u64(entries.last().0, 10) {
            Some(id) => loaded(entries.drop_last()).insert(id, entries.last().1),
            None => loaded(entries.drop_last()),
        }
    }
}

/// The entries under which the records of `ids` are saved.
pub open spec fn entries_of(chains: Map<u64, ChainConfigView>, ids: Seq<u64>) -> Seq<
    (Seq<char>, ChainConfigView),
> {
    ids.map_values(|id: u64| (decimal(id as int), chains[id]))
}

/// The entries under which records are saved, in the order of the chain ids.
pub open spec fn saved(chains: Map<u64, ChainConfigView>) -> Seq<(Seq<char>, ChainConfigView)> {
    entries_of(chains, ascending(chains.dom()))
}

/// Whether a text holds nothing but white space.
pub open spec fn blank(s: Seq<char>) -> bool {
    trimmed(s).len() == 0
}

impl EthRpcView {
    pub open spec fn empty() -> EthRpcView {
        EthRpcView { chains: Map::empty(), save_due: false }
    }

    /// The chain's record.
    pub open spec fn record(self, chain_id: u64) -> Option<ChainConfigView> {
        if self.chains.contains_key(chain_id) {
            Some(self.chains[chain_id])
        } else {
            None
        }
    }

    /// The store once `c` is written for the chain.
    pub open spec fn stored(self, chain_id: u64, c: ChainConfigView) -> EthRpcView {
        EthRpcView { chains: self.chains.insert(chain_id, c), save_due: true }
    }

    /// The store once a whole record was set.
    pub open spec fn set(self, chain_id: u64, c: ChainConfigView) -> EthRpcView {
        if c.contradictory() {
            self
        } else {
            self.stored(chain_id, c)
        }
    }

    /// The record that a caller's write stands for here.
    pub open spec fn resolved(self, chain_id: u64, wire: ChainConfigWireView) -> ChainConfigView {
        resolved_config(wire, self.record(chain_id))
    }

    /// The store once a caller's write was applied.
    pub open spec fn apply(self, chain_id: u64, wire: ChainConfigWireView) -> EthRpcView {
        self.set(chain_id, self.resolved(chain_id, wire))
    }

    /// Which part of `c` seeding would write: the whole record, the endpoint alone, or nothing.
    pub open spec fn gap(self, chain_id: u64, c: ChainConfigView) -> Gap {
        match self.record(chain_id) {
            None => Gap::Record,
            Some(existing) => if blank(existing.endpoint) && !blank(c.endpoint) {
                Gap::Endpoint
            } else {
                Gap::Nothing
            },
        }
    }

    /// The store once the chain was seeded with `c`, only where it lacks something.
    pub open spec fn ensure(self, chain_id: u64, c: ChainConfigView) -> EthRpcView {
        match self.gap(chain_id, c) {
            Gap::Record => self.stored(chain_id, c),
            Gap::Endpoint => self.stored(
                chain_id,
                ChainConfigView {
                    endpoint: c.endpoint,
                    source: if c.source == ConfigSource::External {
                        ConfigSource::External
                    } else {
                        self.chains[chain_id].source
                    },
                    ..self.chains[chain_id]
                },
            ),
            Gap::Nothing => self,
        }
    }

    /// The store once the first `n` built-in endpoints were seeded.
    pub open spec fn seeded(self, n: nat) -> EthRpcView
        decreases n,
    {
        if n == 0 {
            self
        } else {
            self.seeded((n - 1) as nat).ensure(default_id(n - 1), default_record(n - 1))
        }
    }

    /// The store once every built-in endpoint was seeded.
    pub open spec fn init_defaults(self) -> EthRpcView {
        self.seeded(DEFAULT_ENDPOINTS@.len())
    }

    /// What seeding the built-in endpoints wrote, chain by chain.
    pub open spec fn seed_report(self) -> Seq<(u64, Seq<Seq<char>>)> {
        Seq::new(
            DEFAULT_ENDPOINTS@.len(),
            |i: int|
                (
                    default_id(i),
                    self.seeded(i as nat).gap(default_id(i), default_record(i)).fields(),
                ),
        )
    }

    /// The store once the chain's endpoint was set. White space alone is no endpoint.
    pub open spec fn patch_endpoint(self, chain_id: u64, endpoint: Seq<char>) -> EthRpcView {
        if blank(endpoint) {
            self
        } else {
            self.stored(
                chain_id,
                ChainConfigView {
                    endpoint: trimmed(endpoint),
                    source: ConfigSource::External,
                    ..match self.record(chain_id) {
                        Some(c) => c,
                        None => builtin_config(trimmed(endpoint)),
                    }
                },
            )
        }
    }

    /// The store once the chain's timeouts were set, each where one is given.
    pub open spec fn patch_transport(
        self,
        chain_id: u64,
        timeout_secs: Option<u64>,
        verified_timeout_secs: Option<u64>,
    ) -> EthRpcView {
        match self.record(chain_id) {
            None => self,
            Some(c) => self.stored(
                chain_id,
                ChainConfigView {
                    timeout_secs: match timeout_secs {
                        Some(t) => t,
                        None => c.timeout_secs,
                    },
                    verified_timeout_secs: match verified_timeout_secs {
                        Some(t) => t,
                        None => c.verified_timeout_secs,
                    },
                    source: if timeout_secs is Some || verified_timeout_secs is Some {
                        ConfigSource::External
                    } else {
                        c.source
                    },
                    ..c
                },
            ),
        }
    }

    /// Whether the chain's mode cannot be set, and what is said of it.
    pub open spec fn mode_refusal(self, chain_id: u64, mode: VerifiedProxyMode) -> Option<
        Seq<char>,
    > {
        match self.record(chain_id) {
            None => Some("no configuration for chain "@ + decimal(chain_id as int)),
            Some(c) => if (ChainConfigView { verified_proxy_mode: mode, ..c }).contradictory() {
                Some(CONTRADICTION@)
            } else {
                None
            },
        }
    }

    /// The store once the chain's mode was set, where it can be.
    pub open spec fn set_mode(self, chain_id: u64, mode: VerifiedProxyMode) -> EthRpcView {
        if self.mode_refusal(chain_id, mode) is Some {
            self
        } else {
            self.stored(
                chain_id,
                ChainConfigView {
                    verified_proxy_mode: mode,
                    source: ConfigSource::External,
                    ..self.chains[chain_id]
                },
            )
        }
    }

    /// The store once the chain's record was removed.
    pub open spec fn remove(self, chain_id: u64) -> EthRpcView {
        EthRpcView { chains: self.chains.remove(chain_id), save_due: true }
    }
}

/// What seeding finds missing of a chain.
pub ghost enum Gap {
    Record,
    Endpoint,
    Nothing,
}

impl Gap {
    /// The names of the fields that seeding writes; `*` is the whole record.
    pub open spec fn fields(self) -> Seq<Seq<char>> {
        match self {
            Gap::Record => seq!["*"@],
            Gap::Endpoint => seq!["endpoint"@],
            Gap::Nothing => seq![],
        }
    }
}

/// The chain of a built-in endpoint.
pub open spec fn default_id(i: int) -> u64 {
    DEFAULT_ENDPOINTS@[i].0
}

/// The record of a built-in endpoint.
pub open spec fn default_record(i: int) -> ChainConfigView {
    builtin_config(DEFAULT_ENDPOINTS@[i].1@)
}

impl EthRpc {
    /// A store without records.
    pub fn new() -> (r: Self)
        ensures
            r@ == EthRpcView::empty(),
    {
        let r = EthRpc { chains: HashMap::new(), save_due: false };
        assert(r@.chains =~= Map::empty());
        r
    }

    /// A store with the records of saved entries.
    pub fn with_store(entries: Vec<(String, ChainConfig)>) -> (r: Self)
        ensures
            r@ == (EthRpcView { chains: loaded(entry_views(entries@)), save_due: false }),
    {
        let mut r = EthRpc::new();
        let ghost all = entry_views(entries@);
        let mut i: usize = 0;
        while i < entries.len()
            invariant
                i <= entries.len(),
                all == entry_views(entries@),
                r@ == (EthRpcView { chains: loaded(all.take(i as int)), save_due: false }),
            decreases entries.len() - i,
        {
            assert(all.take(i + 1).drop_last() =~= all.take(i as int));
            assert(all.take(i + 1).last() == (entries@[i as int].0@, entries@[i as int].1@));
            if let Some(id) = parse_u64(entries[i].0.as_str(), 10) {
                r.chains.insert(id, entries[i].1.clone());
                assert(r@.chains =~= loaded(all.take(i + 1)));
            }
            i = i + 1;
        }
        assert(all.take(i as int) =~= all);
        r
    }

    fn store(&mut self, chain_id: u64, c: ChainConfig)
        ensures
            final(self)@ == old(self)@.stored(chain_id, c@),
    {
        self.chains.insert(chain_id, c);
        self.save_due = true;
        assert(self@.chains =~= old(self)@.chains.insert(chain_id, c@));
    }

    /// The chain's record.
    pub fn get_chain_config(&self, chain_id: u64) -> (r: Option<&ChainConfig>)
        ensures
            opt_config(r) == self@.record(chain_id),
    {
        self.chains.get(&chain_id)
    }
}

/// A store holds finitely many records.
pub proof fn lemma_records_are_finite(rpc: EthRpc)
    ensures
        rpc@.chains.dom().finite(),
{
    assert(rpc@.chains.dom() =~= rpc.chains@.dom());
}

/// The texts of a list of strings, one by one.
proof fn lemma_one_text(v: Seq<String>, s: Seq<char>)
    requires
        v.len() == 1,
        v[0]@ == s,
    ensures
        texts(v) == seq![s],
{
    assert(texts(v) =~= seq![s]);
}

impl EthRpc {
    /// Sets a whole record. One that asks for a network proxy and for verified routing at once is
    /// refused.
    pub fn set_chain_config(&mut self, chain_id: u64, cfg: ChainConfig) -> (r: Result<(), String>)
        ensures
            final(self)@ == old(self)@.set(chain_id, cfg@),
            match r {
                Ok(()) => !cfg@.contradictory(),
                Err(e) => cfg@.contradictory() && e@ == CONTRADICTION@,
            },
    {
        cfg.validate()?;
        self.store(chain_id, cfg);
        Ok(())
    }

    /// Applies a config as a caller sent it: a verified field that is left out keeps what is
    /// stored. A `proxyRequired` that contradicts the stored mode is refused, not resolved.
    pub fn apply_chain_config(&mut self, chain_id: u64, wire: ChainConfigWire) -> (r: Result<
        (),
        String,
    >)
        ensures
            final(self)@ == old(self)@.apply(chain_id, wire@),
            match r {
                Ok(()) => !old(self)@.resolved(chain_id, wire@).contradictory(),
                Err(e) => old(self)@.resolved(chain_id, wire@).contradictory() && e@
                    == CONTRADICTION@,
            },
    {
        let cfg = wire.resolve(self.get_chain_config(chain_id));
        self.set_chain_config(chain_id, cfg)
    }

    /// Seeds a chain only where it lacks something: the whole record, or an endpoint. The store is
    /// shared with other wallets, so nothing that is there is overwritten. Returns the fields that
    /// were written.
    pub fn ensure_chain_config(&mut self, chain_id: u64, cfg: &ChainConfig) -> (r: Vec<String>)
        ensures
            final(self)@ == old(self)@.ensure(chain_id, cfg@),
            texts(r@) == old(self)@.gap(chain_id, cfg@).fields(),
    {
        let mut seeded: Vec<String> = Vec::new();
        let next = match self.get_chain_config(chain_id) {
            None => {
                seeded.push("*".to_string());
                Some(cfg.clone())
            },
            Some(existing) => {
                if existing.endpoint.as_str().trim().unicode_len() == 0
                    && cfg.endpoint.as_str().trim().unicode_len() != 0 {
                    seeded.push("endpoint".to_string());
                    let mut c = existing.clone();
                    c.endpoint = cfg.endpoint.clone();
                    if cfg.source == ConfigSource::External {
                        c.source = ConfigSource::External;
                    }
                    Some(c)
                } else {
                    None
                }
            },
        };
        if let Some(c) = next {
            proof {
                lemma_one_text(seeded@, seeded@[0]@);
            }
            self.store(chain_id, c);
        } else {
            assert(texts(seeded@) =~= seq![]);
        }
        seeded
    }

    /// Seeds every built-in endpoint, only where something is lacking. Returns what each chain
    /// gained.
    pub fn init_defaults(&mut self) -> (r: Vec<(u64, Vec<String>)>)
        ensures
            final(self)@ == old(self)@.init_defaults(),
            report_views(r@) == old(self)@.seed_report(),
    {
        let mut report: Vec<(u64, Vec<String>)> = Vec::new();
        let mut i: usize = 0;
        while i < DEFAULT_ENDPOINTS.len()
            invariant
                i <= DEFAULT_ENDPOINTS@.len(),
                self@ == old(self)@.seeded(i as nat),
                report@.len() == i,
                forall|j: int|
                    0 <= j < i ==> #[trigger] report_views(report@)[j] == old(self)@.seed_report()[j],
            decreases DEFAULT_ENDPOINTS@.len() - i,
        {
            let (id, url) = DEFAULT_ENDPOINTS[i];
            let fields = self.ensure_chain_config(id, &ChainConfig::builtin(url));
            let ghost before = report@;
            report.push((id, fields));
            i = i + 1;
            assert forall|j: int| 0 <= j < i implies #[trigger] report_views(report@)[j]
                == old(self)@.seed_report()[j] by {
                if j < i - 1 {
                    assert(report_views(report@)[j] == report_views(before)[j]);
                }
            }
        }
        assert(report_views(report@) =~= old(self)@.seed_report());
        report
    }

    /// Sets the endpoint and nothing else; a chain without a record gets the built-in one around it.
    /// Whoever sets an endpoint owns the record from then on. White space alone is refused.
    pub fn patch_chain_endpoint(&mut self, chain_id: u64, endpoint: &str) -> (r: bool)
        ensures
            r == !blank(endpoint@),
            final(self)@ == old(self)@.patch_endpoint(chain_id, endpoint@),
    {
        let e = endpoint.trim();
        if e.unicode_len() == 0 {
            return false;
        }
        let mut c = match self.get_chain_config(chain_id) {
            Some(c) => c.clone(),
            None => ChainConfig::builtin(e),
        };
        c.endpoint = e.to_string();
        c.source = ConfigSource::External;
        self.store(chain_id, c);
        true
    }

    /// Sets the timeouts that are given and nothing else. A chain without a record is left alone.
    pub fn patch_chain_transport(
        &mut self,
        chain_id: u64,
        timeout_secs: Option<u64>,
        verified_timeout_secs: Option<u64>,
    ) -> (r: bool)
        ensures
            r == (old(self)@.record(chain_id) is Some),
            final(self)@ == old(self)@.patch_transport(
                chain_id,
                timeout_secs,
                verified_timeout_secs,
            ),
    {
        let mut c = match self.get_chain_config(chain_id) {
            Some(c) => c.clone(),
            None => return false,
        };
        if let Some(t) = timeout_secs {
            c.timeout_secs = t;
        }
        if let Some(t) = verified_timeout_secs {
            c.verified_timeout_secs = t;
        }
        if timeout_secs.is_some() || verified_timeout_secs.is_some() {
            c.source = ConfigSource::External;
        }
        self.store(chain_id, c);
        true
    }

    /// Sets the mode and nothing else. A chain without a record, and one that must use a network
    /// proxy, are refused and left as they are.
    pub fn set_verified_proxy_mode(&mut self, chain_id: u64, mode: VerifiedProxyMode) -> (r: Result<
        (),
        String,
    >)
        ensures
            final(self)@ == old(self)@.set_mode(chain_id, mode),
            match r {
                Ok(()) => old(self)@.mode_refusal(chain_id, mode) is None,
                Err(e) => old(self)@.mode_refusal(chain_id, mode) == Some(e@),
            },
    {
        let mut c = match self.get_chain_config(chain_id) {
            Some(c) => c.clone(),
            None => return Err(
                String::from_str("no configuration for chain ").concat(
                    decimal_u64(chain_id).as_str(),
                ),
            ),
        };
        c.verified_proxy_mode = mode;
        c.validate()?;
        c.source = ConfigSource::External;
        self.store(chain_id, c);
        Ok(())
    }

    /// Removes the chain's record; says whether there was one.
    pub fn remove_chain_config(&mut self, chain_id: u64) -> (r: bool)
        ensures
            r == (old(self)@.record(chain_id) is Some),
            final(self)@ == old(self)@.remove(chain_id),
    {
        let removed = self.chains.remove(&chain_id).is_some();
        self.save_due = true;
        assert(self@.chains =~= old(self)@.chains.remove(chain_id));
        removed
    }

    /// The chains that have a record, ascending.
    pub fn list_chains(&self) -> (r: Vec<u64>)
        ensures
            lists(r@, self@.chains.dom()),
            r@ == ascending(self@.chains.dom()),
    {
        let mut ids: Vec<u64> = Vec::new();
        let ghost mut seen: Seq<u64> = Seq::empty();
        for id in it: self.chains.keys()
            invariant
                in_order(ids@),
                it.seq().unref().to_set() == self.chains@.dom(),
                seen == it.seq().unref().take(it.index() as int),
                it.index() == it.seq().len() ==> seen == it.seq().unref(),
                forall|x: u64| #[trigger] ids@.contains(x) <==> seen.contains(x),
        {
            let ghost before = ids@;
            insert_in_order(&mut ids, *id);
            proof {
                let more = seen.push(*id);
                assert(more =~= it.seq().unref().take(it.index() + 1));
                assert forall|x: u64| #[trigger] ids@.contains(x) <==> more.contains(x) by {
                    assert(ids@.contains(x) <==> before.contains(x) || x == *id);
                    assert(before.contains(x) <==> seen.contains(x));
                    if seen.contains(x) {
                        let i = choose|i: int| 0 <= i < seen.len() && seen[i] == x;
                        assert(more[i] == x);
                    }
                    if x == *id {
                        assert(more[seen.len() as int] == x);
                    }
                }
                seen = more;
            }
        }
        proof {
            assert(self@.chains.dom() =~= self.chains@.dom());
            assert forall|x: u64| #[trigger] ids@.contains(x) <==> self@.chains.dom().contains(
                x,
            ) by {
                assert(seen.to_set().contains(x) <==> self.chains@.dom().contains(x));
            }
            lemma_ascending(ids@, self@.chains.dom());
        }
        ids
    }

    /// The records as they are saved: under the decimal chain id, in the order of the ids.
    pub fn store_entries(&self) -> (r: Vec<(String, ChainConfig)>)
        ensures
            entry_views(r@) == saved(self@.chains),
    {
        let ids = self.list_chains();
        let mut entries: Vec<(String, ChainConfig)> = Vec::new();
        let ghost all = saved(self@.chains);
        let mut i: usize = 0;
        while i < ids.len()
            invariant
                i <= ids.len(),
                lists(ids@, self@.chains.dom()),
                all == entries_of(self@.chains, ids@),
                entry_views(entries@) == all.take(i as int),
            decreases ids.len() - i,
        {
            let id: u64 = ids[i];
            assert(ids@.contains(id));
            let ghost before = entries@;
            if let Some(c) = self.get_chain_config(id) {
                entries.push((decimal_u64(id), c.clone()));
            }
            assert(entry_views(entries@) =~= entry_views(before).push(all[i as int]));
            assert(all.take(i + 1) =~= all.take(i as int).push(all[i as int]));
            i = i + 1;
        }
        assert(all.take(i as int) =~= all);
        entries
    }

    /// What has to be saved now: everything, where anything was written since the last time.
    pub fn take_save(&mut self) -> (r: Option<Vec<(String, ChainConfig)>>)
        ensures
            final(self)@ == (EthRpcView { save_due: false, ..old(self)@ }),
            match r {
                Some(entries) => old(self)@.save_due && entry_views(entries@) == saved(
                    old(self)@.chains,
                ),
                None => !old(self)@.save_due,
            },
    {
        if self.save_due {
            self.save_due = false;
            Some(self.store_entries())
        } else {
            None
        }
    }
}

impl Default for EthRpc {
    fn default() -> (r: Self)
        ensures
            r@ == EthRpcView::empty(),
    {
        EthRpc::new()
    }
}

/// A new store is empty and has nothing to save, and what is listed says what stands in it, one by one.
pub proof fn law_a_list_says_what_stands_in_it(
    strings: Seq<String>,
    entries: Seq<(String, ChainConfig)>,
    report: Seq<(u64, Vec<String>)>,
    id: u64,
    i: int,
)
    ensures
        !EthRpcView::empty().chains.contains_key(id),
        !EthRpcView::empty().save_due,
        texts(strings).len() == strings.len(),
        0 <= i < strings.len() ==> texts(strings)[i] == strings[i]@,
        entry_views(entries).len() == entries.len(),
        0 <= i < entries.len() ==> entry_views(entries)[i] == (entries[i].0@, entries[i].1@),
        report_views(report).len() == report.len(),
        0 <= i < report.len() ==> report_views(report)[i] == (report[i].0, texts(report[i].1@)),
{
}

} // verus!
