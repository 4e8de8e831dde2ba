//! The module's contract: every answer crosses the boundary as JSON text, every write says what it
//! moved, and nothing answers before the module's context is there.
use vstd::prelude::*;
use vstd::string::*;

use crate::config::{
    CONTRADICTION, ChainChange, ChainConfig, ChainConfigView, ChainConfigWire, ConfigSource,
    VerifiedProxyMode, chain_change, config_json, diff_chain, mode_label, mode_text,
};
use crate::error::{RpcError, RpcErrorView};
use crate::json::{Json, JsonView, empty_object, json_text, json_written, views};
use crate::num::{signed, to_signed, to_unsigned, unsigned};
use crate::order::ascending;
use crate::store::{
    EthRpc, EthRpcView, blank, entry_views, lemma_records_are_finite, loaded, report_views, saved,
    texts,
};
use crate::text::{ascii_lower, decimal, decimal_i128, decimal_u64, same_text, trimmed};
use crate::verdict::{Verdict, VerdictView};

verus! {

/// What is said before the module's context is there.
pub const NOT_READY: &'static str = "eth_rpc not initialized (context not ready)";

/// A refusal.
pub open spec fn err_json(message: Seq<char>) -> JsonView {
    empty_object().with("ok"@, JsonView::Bool(false)).with("error"@, JsonView::Text(message))
}

/// A refusal with the token that tells its kind.
pub open spec fn coded_err_json(e: RpcErrorView) -> JsonView {
    empty_object().with("ok"@, JsonView::Bool(false)).with("code"@, JsonView::Text(e.code())).with(
        "error"@,
        JsonView::Text(e.message()),
    )
}

/// The refusal before the module's context is there, with the state that tells it from a store
/// without records.
pub open spec fn unready_json() -> JsonView {
    empty_object().with("ok"@, JsonView::Bool(false)).with(
        "state"@,
        JsonView::Text("unready"@),
    ).with("error"@, JsonView::Text(NOT_READY@))
}

/// A refusal.
pub fn err(message: &str) -> (r: Json)
    ensures
        r@ == err_json(message@),
{
    Json::object().with("ok", Json::Bool(false)).with("error", Json::text(message))
}

/// A refusal with the token that tells its kind, so that a caller can tell "your deadline ran out"
/// from "the endpoint is down" without matching on the sentence.
pub fn err_of(e: &RpcError) -> (r: Json)
    ensures
        r@ == coded_err_json(e@),
{
    Json::object().with("ok", Json::Bool(false)).with("code", Json::text(e.code())).with(
        "error",
        Json::Text(e.message()),
    )
}

/// The refusal before the module's context is there.
pub fn unready() -> (r: Json)
    ensures
        r@ == unready_json(),
{
    Json::object().with("ok", Json::Bool(false)).with("state", Json::text("unready")).with(
        "error",
        Json::text(NOT_READY),
    )
}

/// What a subscriber is told.
#[derive(Clone, Copy, Debug, PartialEq, Eq)]
pub enum Event {
    /// One chain's record was added, removed or altered.
    ChainConfigChanged(i64),
    /// The verified-proxy gate of one chain moved; the mode now in force.
    VerifiedProxyModeChanged(i64, &'static str),
}

/// What an [`Event`] says.
#[verifier::ext_equal]
pub enum EventView {
    ChainConfigChanged(i64),
    VerifiedProxyModeChanged(i64, Seq<char>),
}

impl View for Event {
    type V = EventView;

    open spec fn view(&self) -> EventView {
        match *self {
            Event::ChainConfigChanged(id) => EventView::ChainConfigChanged(id),
            Event::VerifiedProxyModeChanged(id, mode) => EventView::VerifiedProxyModeChanged(
                id,
                mode@,
            ),
        }
    }
}

/// What follows a write once its new value can be read: the chains whose verdict is no longer to be
/// used, and what subscribers are told.
#[derive(Debug, PartialEq, Eq)]
pub struct Effects {
    pub invalidate: Vec<u64>,
    pub events: Vec<Event>,
}

/// What [`Effects`] say.
#[verifier::ext_equal]
pub struct EffectsView {
    pub invalidate: Seq<u64>,
    pub events: Seq<EventView>,
}

impl View for Effects {
    type V = EffectsView;

    open spec fn view(&self) -> EffectsView {
        EffectsView {
            invalidate: self.invalidate@,
            events: self.events@.map_values(|e: Event| e@),
        }
    }
}

impl EffectsView {
    pub open spec fn none() -> EffectsView {
        EffectsView { invalidate: seq![], events: seq![] }
    }

    /// What follows a write to a chain: its verdict is dropped, and what moved is announced, and
    /// only what moved.
    pub open spec fn of(chain_id: i64, change: ChainChange) -> EffectsView {
        EffectsView {
            invalidate: seq![unsigned(chain_id)],
            events: (if change.config {
                seq![EventView::ChainConfigChanged(chain_id)]
            } else {
                seq![]
            }) + (match change.mode {
                Some(mode) => seq![
                    EventView::VerifiedProxyModeChanged(chain_id, mode_text(mode)),
                ],
                None => seq![],
            }),
        }
    }
}

impl Effects {
    pub fn none() -> (r: Self)
        ensures
            r@ == EffectsView::none(),
    {
        let r = Effects { invalidate: Vec::new(), events: Vec::new() };
        assert(r@.events =~= seq![]);
        r
    }

    /// What follows a write to a chain.
    pub fn of(chain_id: i64, change: ChainChange) -> (r: Self)
        ensures
            r@ == EffectsView::of(chain_id, change),
    {
        let mut invalidate: Vec<u64> = Vec::new();
        invalidate.push(to_unsigned(chain_id));
        let mut events: Vec<Event> = Vec::new();
        if change.config {
            events.push(Event::ChainConfigChanged(chain_id));
        }
        if let Some(mode) = change.mode {
            events.push(Event::VerifiedProxyModeChanged(chain_id, mode_label(mode)));
        }
        let r = Effects { invalidate, events };
        assert(r@.invalidate =~= seq![unsigned(chain_id)]);
        assert(r@.events =~= EffectsView::of(chain_id, change).events);
        r
    }
}

/// What follows a write that took the store from `before` to `after`.
pub open spec fn effects_of(chain_id: i64, before: EthRpcView, after: EthRpcView) -> EffectsView {
    EffectsView::of(
        chain_id,
        chain_change(before.record(unsigned(chain_id)), after.record(unsigned(chain_id))),
    )
}

/// The store, once the module's context is there.
pub struct ModuleState {
    rpc: Option<EthRpc>,
}

impl View for ModuleState {
    type V = Option<EthRpcView>;

    closed spec fn view(&self) -> Option<EthRpcView> {
        match self.rpc {
            Some(rpc) => Some(rpc@),
            None => None,
        }
    }
}

/// A module holds finitely many records.
pub proof fn lemma_module_records_are_finite(m: ModuleState)
    ensures
        m@ matches Some(store) ==> store.chains.dom().finite(),
{
    if let Some(rpc) = m.rpc {
        lemma_records_are_finite(rpc);
    }
}

/// The record, cloned.
fn snapshot(rpc: &EthRpc, chain_id: u64) -> (r: Option<ChainConfig>)
    ensures
        match r {
            Some(c) => rpc@.record(chain_id) == Some(c@),
            None => rpc@.record(chain_id) is None,
        },
{
    match rpc.get_chain_config(chain_id) {
        Some(c) => Some(c.clone()),
        None => None,
    }
}

/// What follows a write, given the record before it.
fn settle(chain_id: i64, before: Option<ChainConfig>, rpc: &EthRpc) -> (r: Effects)
    ensures
        r@ == EffectsView::of(
            chain_id,
            chain_change(
                match before {
                    Some(c) => Some(c@),
                    None => None,
                },
                rpc@.record(unsigned(chain_id)),
            ),
        ),
{
    let change = diff_chain(before.as_ref(), rpc.get_chain_config(to_unsigned(chain_id)));
    Effects::of(chain_id, change)
}

/// The record that a caller's JSON stands for: it is a caller's, whatever it says.
pub open spec fn callers_record(parsed: ChainConfigView) -> ChainConfigView {
    ChainConfigView { source: ConfigSource::External, ..parsed }
}

/// Why a caller's seed is refused.
pub open spec fn ensure_refusal(
    state: Option<EthRpcView>,
    parsed: Result<ChainConfig, String>,
) -> Option<Seq<char>> {
    match (parsed, state) {
        (Err(e), _) => Some(e@),
        (Ok(c), _) if c@.contradictory() => Some(CONTRADICTION@),
        (Ok(_), None) => Some(NOT_READY@),
        (Ok(_), Some(_)) => None,
    }
}

/// A list of texts, as JSON.
pub open spec fn texts_json(fields: Seq<Seq<char>>) -> JsonView {
    JsonView::Array(fields.map_values(|s: Seq<char>| JsonView::Text(s)))
}

/// What seeding one chain wrote.
pub open spec fn seeded_json(fields: Seq<Seq<char>>) -> JsonView {
    empty_object().with("ok"@, JsonView::Bool(true)).with("seeded"@, texts_json(fields))
}

fn texts_array(fields: &Vec<String>) -> (r: Json)
    ensures
        r@ == texts_json(texts(fields@)),
{
    let mut items: Vec<Json> = Vec::new();
    let mut i: usize = 0;
    while i < fields.len()
        invariant
            i <= fields.len(),
            items@.len() == i,
            forall|j: int| 0 <= j < i ==> (#[trigger] items@[j])@ == JsonView::Text(fields@[j]@),
        decreases fields.len() - i,
    {
        items.push(Json::text(fields[i].as_str()));
        i = i + 1;
    }
    assert(views(items@) =~= texts(fields@).map_values(|s: Seq<char>| JsonView::Text(s)));
    Json::array(items)
}

/// A number above zero; anything else leaves a field as it is.
pub open spec fn positive(n: i64) -> Option<u64> {
    if n > 0 {
        Some(n as u64)
    } else {
        None
    }
}

fn above_zero(n: i64) -> (r: Option<u64>)
    ensures
        r == positive(n),
{
    if n > 0 {
        Some(n as u64)
    } else {
        None
    }
}

/// A mode's name in lower case, without the white space around it.
pub open spec fn mode_name(text: Seq<char>) -> Seq<char> {
    trimmed(text).map_values(|c: char| ascii_lower(c))
}

/// The mode that a text names.
pub open spec fn mode_named(text: Seq<char>) -> Option<VerifiedProxyMode> {
    if mode_name(text) == mode_text(VerifiedProxyMode::Off) {
        Some(VerifiedProxyMode::Off)
    } else if mode_name(text) == mode_text(VerifiedProxyMode::Required) {
        Some(VerifiedProxyMode::Required)
    } else {
        None
    }
}

/// What is said of a text that names no mode.
pub open spec fn unknown_mode(text: Seq<char>) -> Seq<char> {
    "unknown verified proxy mode '"@ + mode_name(text) + "' (expected off or required)"@
}

/// The answer once a mode was set.
pub open spec fn mode_set_json(chain_id: i64, mode: VerifiedProxyMode) -> JsonView {
    empty_object().with("ok"@, JsonView::Bool(true)).with(
        "chainId"@,
        JsonView::Int(chain_id as int),
    ).with("verifiedProxyMode"@, JsonView::Text(mode_text(mode)))
}

/// The answer about a chain's gate. A chain without a record is off, which is no error, and the
/// detail says why.
pub open spec fn gate_json(
    chain_id: i64,
    mode: Option<VerifiedProxyMode>,
    verdict: VerdictView,
) -> JsonView {
    let told = if mode is None {
        verdict.detailed("no configuration for chain "@ + decimal(chain_id as int))
    } else {
        verdict
    };
    told.to_json(chain_id, mode == Some(VerifiedProxyMode::Required))
}

/// Whether a chain's gate has to be asked at all: only where its mode is `required`.
pub fn gate_required(mode: Option<VerifiedProxyMode>) -> (r: bool)
    ensures
        r == (mode == Some(VerifiedProxyMode::Required)),
{
    match mode {
        Some(m) => m == VerifiedProxyMode::Required,
        None => false,
    }
}

/// The answer about a chain's gate, given its verdict.
pub fn gate_answer(chain_id: i64, mode: Option<VerifiedProxyMode>, verdict: Verdict) -> (r: Json)
    ensures
        r@ == gate_json(chain_id, mode, verdict@),
{
    let mut v = verdict;
    if mode.is_none() {
        v.detail = String::from_str("no configuration for chain ").concat(
            decimal_i128(chain_id as i128).as_str(),
        );
    }
    v.to_json(chain_id, gate_required(mode))
}

/// Chain ids, as JSON.
pub open spec fn ids_json(ids: Seq<u64>) -> JsonView {
    JsonView::Array(ids.map_values(|id: u64| JsonView::Int(id as int)))
}

fn ids_array(ids: &Vec<u64>) -> (r: Json)
    ensures
        r@ == ids_json(ids@),
{
    let mut items: Vec<Json> = Vec::new();
    let mut i: usize = 0;
    while i < ids.len()
        invariant
            i <= ids.len(),
            items@.len() == i,
            forall|j: int| 0 <= j < i ==> (#[trigger] items@[j])@ == JsonView::Int(ids@[j] as int),
        decreases ids.len() - i,
    {
        items.push(Json::Unsigned(ids[i]));
        i = i + 1;
    }
    assert(views(items@) =~= ids@.map_values(|id: u64| JsonView::Int(id as int)));
    Json::array(items)
}

/// Whether seeding wrote anything.
pub open spec fn applied(report: Seq<(u64, Seq<Seq<char>>)>) -> bool {
    exists|i: int| 0 <= i < report.len() && (#[trigger] report[i]).1.len() > 0
}

/// What seeding wrote, by the decimal chain id.
pub open spec fn report_json(report: Seq<(u64, Seq<Seq<char>>)>) -> JsonView {
    JsonView::Object(
        report.map_values(|e: (u64, Seq<Seq<char>>)| (decimal(e.0 as int), texts_json(e.1))),
    )
}

/// The answer once the built-in endpoints were seeded.
pub open spec fn init_json(report: Seq<(u64, Seq<Seq<char>>)>) -> JsonView {
    empty_object().with("ok"@, JsonView::Bool(true)).with(
        "applied"@,
        JsonView::Bool(applied(report)),
    ).with("seeded"@, report_json(report))
}

/// What follows seeding: each chain that gained something has its verdict dropped and its record
/// announced. A seeded record is off, as a chain without one is, so no mode moves.
pub open spec fn init_effects(report: Seq<(u64, Seq<Seq<char>>)>) -> EffectsView
    decreases report.len(),
{
    if report.len() == 0 {
        EffectsView::none()
    } else {
        let rest = init_effects(report.drop_last());
        let (id, fields) = report.last();
        if fields.len() == 0 {
            rest
        } else {
            EffectsView {
                invalidate: rest.invalidate.push(id),
                events: rest.events.push(EventView::ChainConfigChanged(signed(id))),
            }
        }
    }
}

fn init_answer(report: &Vec<(u64, Vec<String>)>) -> (r: Json)
    ensures
        r@ == init_json(report_views(report@)),
{
    let ghost all = report_views(report@);
    let mut any = false;
    let mut seeded = Json::object();
    let mut i: usize = 0;
    assert(report_json(all.take(0))->Object_0 =~= seq![]);
    while i < report.len()
        invariant
            i <= report.len(),
            all == report_views(report@),
            any == applied(all.take(i as int)),
            seeded@ == report_json(all.take(i as int)),
        decreases report.len() - i,
    {
        let ghost before = all.take(i as int);
        let ghost more = all.take(i + 1);
        assert(more =~= before.push(all[i as int]));
        assert(all[i as int].1 == texts(report@[i as int].1@));
        if report[i].1.len() > 0 {
            any = true;
        }
        seeded = seeded.with(decimal_u64(report[i].0).as_str(), texts_array(&report[i].1));
        proof {
            assert(seeded@->Object_0 =~= report_json(more)->Object_0);
            assert(any == applied(more)) by {
                if applied(before) {
                    let j = choose|j: int|
                        0 <= j < before.len() && (#[trigger] before[j]).1.len() > 0;
                    assert(more[j].1.len() > 0);
                }
                if applied(more) {
                    let j = choose|j: int| 0 <= j < more.len() && (#[trigger] more[j]).1.len() > 0;
                    if j < i {
                        assert(before[j].1.len() > 0);
                    }
                }
                assert(more[i as int] == all[i as int]);
            }
        }
        i = i + 1;
    }
    assert(all.take(i as int) =~= all);
    Json::object().with("ok", Json::Bool(true)).with("applied", Json::Bool(any)).with(
        "seeded",
        seeded,
    )
}

fn init_settle(report: &Vec<(u64, Vec<String>)>) -> (r: Effects)
    ensures
        r@ == init_effects(report_views(report@)),
{
    let ghost all = report_views(report@);
    let mut effects = Effects::none();
    let mut i: usize = 0;
    while i < report.len()
        invariant
            i <= report.len(),
            all == report_views(report@),
            effects@ == init_effects(all.take(i as int)),
        decreases report.len() - i,
    {
        assert(all.take(i + 1).drop_last() =~= all.take(i as int));
        assert(all.take(i + 1).last() == (report@[i as int].0, texts(report@[i as int].1@)));
        let ghost before = effects@;
        if report[i].1.len() > 0 {
            let id: u64 = report[i].0;
            effects.invalidate.push(id);
            effects.events.push(Event::ChainConfigChanged(to_signed(id)));
            assert(effects@.events =~= before.events.push(
                EventView::ChainConfigChanged(signed(id)),
            ));
        }
        i = i + 1;
    }
    assert(all.take(i as int) =~= all);
    effects
}

impl Default for ModuleState {
    fn default() -> (r: Self)
        ensures
            r@ is None,
    {
        ModuleState { rpc: None }
    }
}

impl ModuleState {
    /// Opens the store with the records that were saved.
    pub fn on_context_ready(&mut self, entries: Vec<(String, ChainConfig)>)
        ensures
            final(self)@ == Some(
                EthRpcView { chains: loaded(entry_views(entries@)), save_due: false },
            ),
    {
        self.rpc = Some(EthRpc::with_store(entries));
    }

    /// What has to be saved now.
    pub fn take_save(&mut self) -> (r: Option<Vec<(String, ChainConfig)>>)
        ensures
            match old(self)@ {
                None => final(self)@ is None && r is None,
                Some(store) => {
                    &&& final(self)@ == Some(EthRpcView { save_due: false, ..store })
                    &&& match r {
                        Some(entries) => store.save_due && entry_views(entries@) == saved(
                            store.chains,
                        ),
                        None => !store.save_due,
                    }
                },
            },
    {
        match &mut self.rpc {
            Some(rpc) => rpc.take_save(),
            None => None,
        }
    }

    /// Applies a config as a caller sent it; `wire` is nothing where it could not be parsed.
    pub fn set_chain_config(&mut self, chain_id: i64, wire: Option<ChainConfigWire>) -> (r: (
        bool,
        Effects,
    ))
        ensures
            match (old(self)@, wire) {
                (Some(store), Some(wire)) => {
                    let after = store.apply(unsigned(chain_id), wire@);
                    &&& final(self)@ == Some(after)
                    &&& r.0 == !store.resolved(unsigned(chain_id), wire@).contradictory()
                    &&& r.1@ == effects_of(chain_id, store, after)
                },
                _ => final(self)@ == old(self)@ && !r.0 && r.1@ == EffectsView::none(),
            },
    {
        match (&mut self.rpc, wire) {
            (Some(rpc), Some(wire)) => {
                let before = snapshot(rpc, to_unsigned(chain_id));
                let ok = rpc.apply_chain_config(to_unsigned(chain_id), wire).is_ok();
                let effects = settle(chain_id, before, rpc);
                (ok, effects)
            },
            _ => (false, Effects::none()),
        }
    }

    /// Removes a chain's record; says whether there was one.
    pub fn remove_chain_config(&mut self, chain_id: i64) -> (r: (bool, Effects))
        ensures
            match old(self)@ {
                Some(store) => {
                    let after = store.remove(unsigned(chain_id));
                    &&& final(self)@ == Some(after)
                    &&& r.0 == (store.record(unsigned(chain_id)) is Some)
                    &&& r.1@ == effects_of(chain_id, store, after)
                },
                None => final(self)@ is None && !r.0 && r.1@ == EffectsView::none(),
            },
    {
        match &mut self.rpc {
            Some(rpc) => {
                let before = snapshot(rpc, to_unsigned(chain_id));
                let removed = rpc.remove_chain_config(to_unsigned(chain_id));
                let effects = settle(chain_id, before, rpc);
                (removed, effects)
            },
            None => (false, Effects::none()),
        }
    }

    /// Seeds a chain only where it lacks something; `parsed` is what the caller's JSON was parsed
    /// into, or why it could not be. Whatever the JSON says of its writer, the record is a caller's.
    pub fn ensure_chain_config(&mut self, chain_id: i64, parsed: Result<ChainConfig, String>) -> (r: (
        String,
        Effects,
    ))
        ensures
            match ensure_refusal(old(self)@, parsed) {
                Some(message) => {
                    &&& r.0@ == json_written(err_json(message))
                    &&& r.1@ == EffectsView::none()
                    &&& final(self)@ == old(self)@
                },
                None => {
                    let store = old(self)@->0;
                    let record = callers_record(parsed->Ok_0@);
                    let after = store.ensure(unsigned(chain_id), record);
                    &&& r.0@ == json_written(
                        seeded_json(store.gap(unsigned(chain_id), record).fields()),
                    )
                    &&& r.1@ == effects_of(chain_id, store, after)
                    &&& final(self)@ == Some(after)
                },
            },
    {
        let cfg = match parsed {
            Ok(c) => ChainConfig::from_caller_json(c),
            Err(e) => return (json_text(&err(e.as_str())), Effects::none()),
        };
        if let Err(e) = cfg.validate() {
            return (json_text(&err(e.as_str())), Effects::none());
        }
        match &mut self.rpc {
            Some(rpc) => {
                let before = snapshot(rpc, to_unsigned(chain_id));
                let fields = rpc.ensure_chain_config(to_unsigned(chain_id), &cfg);
                let effects = settle(chain_id, before, rpc);
                let answer = Json::object().with("ok", Json::Bool(true)).with(
                    "seeded",
                    texts_array(&fields),
                );
                (json_text(&answer), effects)
            },
            None => (json_text(&err(NOT_READY)), Effects::none()),
        }
    }

    /// Sets the timeouts that are above zero and nothing else.
    pub fn patch_chain_transport(
        &mut self,
        chain_id: i64,
        timeout_secs: i64,
        verified_timeout_secs: i64,
    ) -> (r: (String, Effects))
        ensures
            match old(self)@ {
                None => {
                    &&& r.0@ == json_written(err_json(NOT_READY@))
                    &&& r.1@ == EffectsView::none()
                    &&& final(self)@ is None
                },
                Some(store) => {
                    let after = store.patch_transport(
                        unsigned(chain_id),
                        positive(timeout_secs),
                        positive(verified_timeout_secs),
                    );
                    &&& r.0@ == json_written(
                        empty_object().with(
                            "ok"@,
                            JsonView::Bool(store.record(unsigned(chain_id)) is Some),
                        ),
                    )
                    &&& r.1@ == effects_of(chain_id, store, after)
                    &&& final(self)@ == Some(after)
                },
            },
    {
        match &mut self.rpc {
            Some(rpc) => {
                let t = above_zero(timeout_secs);
                let vt = above_zero(verified_timeout_secs);
                let before = snapshot(rpc, to_unsigned(chain_id));
                let ok = rpc.patch_chain_transport(to_unsigned(chain_id), t, vt);
                let effects = settle(chain_id, before, rpc);
                (json_text(&Json::object().with("ok", Json::Bool(ok))), effects)
            },
            None => (json_text(&err(NOT_READY)), Effects::none()),
        }
    }

    /// Sets the endpoint and nothing else. White space alone is refused.
    pub fn patch_chain_endpoint(&mut self, chain_id: i64, endpoint: &str) -> (r: (String, Effects))
        ensures
            if blank(endpoint@) {
                &&& r.0@ == json_written(err_json("endpoint must not be empty"@))
                &&& r.1@ == EffectsView::none()
                &&& final(self)@ == old(self)@
            } else {
                match old(self)@ {
                    None => {
                        &&& r.0@ == json_written(err_json(NOT_READY@))
                        &&& r.1@ == EffectsView::none()
                        &&& final(self)@ is None
                    },
                    Some(store) => {
                        let after = store.patch_endpoint(unsigned(chain_id), endpoint@);
                        &&& r.0@ == json_written(
                            empty_object().with("ok"@, JsonView::Bool(true)).with(
                                "chainId"@,
                                JsonView::Int(chain_id as int),
                            ).with("endpoint"@, JsonView::Text(trimmed(endpoint@))),
                        )
                        &&& r.1@ == effects_of(chain_id, store, after)
                        &&& final(self)@ == Some(after)
                    },
                }
            },
    {
        if endpoint.trim().unicode_len() == 0 {
            return (json_text(&err("endpoint must not be empty")), Effects::none());
        }
        match &mut self.rpc {
            Some(rpc) => {
                let before = snapshot(rpc, to_unsigned(chain_id));
                let written = rpc.patch_chain_endpoint(to_unsigned(chain_id), endpoint);
                let effects = settle(chain_id, before, rpc);
                let answer = Json::object().with("ok", Json::Bool(written)).with(
                    "chainId",
                    Json::number(chain_id),
                ).with("endpoint", Json::text(endpoint.trim()));
                (json_text(&answer), effects)
            },
            None => (json_text(&err(NOT_READY)), Effects::none()),
        }
    }

    /// Sets the mode, spelled `off` or `required` in any case and with white space around it.
    pub fn set_verified_proxy_mode(&mut self, chain_id: i64, mode: &str) -> (r: (String, Effects))
        ensures
            match (mode_named(mode@), old(self)@) {
                (None, _) => {
                    &&& r.0@ == json_written(err_json(unknown_mode(mode@)))
                    &&& r.1@ == EffectsView::none()
                    &&& final(self)@ == old(self)@
                },
                (Some(_), None) => {
                    &&& r.0@ == json_written(err_json(NOT_READY@))
                    &&& r.1@ == EffectsView::none()
                    &&& final(self)@ is None
                },
                (Some(m), Some(store)) => {
                    let after = store.set_mode(unsigned(chain_id), m);
                    &&& r.0@ == json_written(
                        match store.mode_refusal(unsigned(chain_id), m) {
                            Some(e) => err_json(e),
                            None => mode_set_json(chain_id, m),
                        },
                    )
                    &&& r.1@ == effects_of(chain_id, store, after)
                    &&& final(self)@ == Some(after)
                },
            },
    {
        let name = mode.trim().to_ascii_lowercase();
        let m = if same_text(name.as_str(), "off") {
            VerifiedProxyMode::Off
        } else if same_text(name.as_str(), "required") {
            VerifiedProxyMode::Required
        } else {
            let message = String::from_str("unknown verified proxy mode '").concat(
                name.as_str(),
            ).concat("' (expected off or required)");
            return (json_text(&err(message.as_str())), Effects::none());
        };
        match &mut self.rpc {
            Some(rpc) => {
                let before = snapshot(rpc, to_unsigned(chain_id));
                let answer = match rpc.set_verified_proxy_mode(to_unsigned(chain_id), m) {
                    Ok(()) => Json::object().with("ok", Json::Bool(true)).with(
                        "chainId",
                        Json::number(chain_id),
                    ).with("verifiedProxyMode", Json::text(mode_label(m))),
                    Err(e) => err(e.as_str()),
                };
                let effects = settle(chain_id, before, rpc);
                (json_text(&answer), effects)
            },
            None => (json_text(&err(NOT_READY)), Effects::none()),
        }
    }

    /// Seeds every built-in endpoint, only where something is lacking. A second call writes nothing,
    /// which is no error. Each chain that gained something is announced.
    pub fn init_defaults(&mut self) -> (r: (String, Effects))
        ensures
            match old(self)@ {
                None => {
                    &&& r.0@ == json_written(unready_json())
                    &&& r.1@ == EffectsView::none()
                    &&& final(self)@ is None
                },
                Some(store) => {
                    &&& r.0@ == json_written(init_json(store.seed_report()))
                    &&& r.1@ == init_effects(store.seed_report())
                    &&& final(self)@ == Some(store.init_defaults())
                },
            },
    {
        match &mut self.rpc {
            Some(rpc) => {
                let report = rpc.init_defaults();
                let answer = init_answer(&report);
                (json_text(&answer), init_settle(&report))
            },
            None => (json_text(&unready()), Effects::none()),
        }
    }

    /// The store, once it is there.
    pub(crate) fn store(&self) -> (r: Option<&EthRpc>)
        ensures
            match r {
                Some(rpc) => self@ == Some(rpc@),
                None => self@ is None,
            },
    {
        self.rpc.as_ref()
    }

    /// A chain's record.
    pub fn get_chain_config(&self, chain_id: i64) -> (r: String)
        ensures
            r@ == json_written(
                match self@ {
                    None => err_json(NOT_READY@),
                    Some(store) => match store.record(unsigned(chain_id)) {
                        Some(c) => empty_object().with("ok"@, JsonView::Bool(true)).with(
                            "config"@,
                            config_json(c),
                        ),
                        None => err_json("no config for chain "@ + decimal(chain_id as int)),
                    },
                },
            ),
    {
        let answer = match self.store() {
            None => err(NOT_READY),
            Some(rpc) => match rpc.get_chain_config(to_unsigned(chain_id)) {
                Some(c) => Json::object().with("ok", Json::Bool(true)).with("config", c.to_json()),
                None => err(
                    String::from_str("no config for chain ").concat(
                        decimal_i128(chain_id as i128).as_str(),
                    ).as_str(),
                ),
            },
        };
        json_text(&answer)
    }

    /// The chains that have a record, ascending.
    pub fn list_chains(&self) -> (r: String)
        ensures
            r@ == json_written(
                match self@ {
                    None => err_json(NOT_READY@),
                    Some(store) => empty_object().with("ok"@, JsonView::Bool(true)).with(
                        "chains"@,
                        ids_json(ascending(store.chains.dom())),
                    ),
                },
            ),
    {
        let answer = match self.store() {
            None => err(NOT_READY),
            Some(rpc) => Json::object().with("ok", Json::Bool(true)).with(
                "chains",
                ids_array(&rpc.list_chains()),
            ),
        };
        json_text(&answer)
    }

    /// Whether a config has been set, per chain and rolled up. Before the context is there the
    /// `state` says so, so that nobody has to match on the sentence.
    pub fn config_status(&self) -> (r: String)
        ensures
            r@ == json_written(
                match self@ {
                    None => unready_json(),
                    Some(store) => store.config_status(),
                },
            ),
    {
        let answer = match self.store() {
            None => unready(),
            Some(rpc) => rpc.config_status(),
        };
        json_text(&answer)
    }

    /// The mode of a chain, where it has a record, or the refusal before the context is there.
    pub fn proxy_mode(&self, chain_id: i64) -> (r: Result<Option<VerifiedProxyMode>, String>)
        ensures
            match (self@, r) {
                (None, Err(e)) => e@ == json_written(err_json(NOT_READY@)),
                (Some(store), Ok(mode)) => match store.record(unsigned(chain_id)) {
                    Some(c) => mode == Some(c.verified_proxy_mode),
                    None => mode is None,
                },
                _ => false,
            },
    {
        match self.store() {
            None => Err(json_text(&err(NOT_READY))),
            Some(rpc) => match rpc.get_chain_config(to_unsigned(chain_id)) {
                Some(c) => Ok(Some(c.verified_proxy_mode)),
                None => Ok(None),
            },
        }
    }
}

/// What follows a write, and what a subscriber is told, say what stands in them.
pub proof fn law_effects_say_what_stands_in_them(
    effects: Effects,
    id: i64,
    mode: &'static str,
    i: int,
)
    ensures
        effects@.invalidate == effects.invalidate@,
        effects@.events.len() == effects.events@.len(),
        0 <= i < effects.events@.len() ==> effects@.events[i] == effects.events@[i]@,
        Event::ChainConfigChanged(id)@ == EventView::ChainConfigChanged(id),
        Event::VerifiedProxyModeChanged(id, mode)@ == EventView::VerifiedProxyModeChanged(id, mode@),
        EffectsView::none().invalidate.len() == 0,
        EffectsView::none().events.len() == 0,
{
}

} // verus!
