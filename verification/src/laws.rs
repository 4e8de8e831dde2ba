//! What holds of the library as a whole.
use vstd::prelude::*;

use crate::config::{
    ChainChange, ChainConfig, ChainConfigView, ChainConfigWire, ChainConfigWireView, ConfigSource,
    DEFAULT_ENDPOINTS, VerifiedProxyMode, builtin_config, chain_change, config_json, diff_chain,
    mode_label, mode_of, mode_text, opt_config, source_label, source_text,
};
use crate::dialect::{VerifiedClass, class_of};
use crate::json::{Json, JsonView, empty_object, json_written, law_a_key_finds_the_last_member};
use crate::module::{
    Effects, EffectsView, EventView, ModuleState, applied, callers_record, effects_of,
    ensure_refusal, err_json, ids_json, init_effects, init_json, lemma_module_records_are_finite,
    mode_name, mode_named, mode_set_json, positive, report_json, seeded_json, texts_json,
    unknown_mode, unready_json,
};
use crate::order::{ascending, lemma_ascending_lists, lists};
use crate::status::has_default;
use crate::store::{
    EthRpc, EthRpcView, blank, default_id, default_record, entries_of, entry_views,
    lemma_records_are_finite, loaded, report_views, saved, texts,
};
use crate::text::{
    all_white, ascii_lower, decimal, law_decimal_reads_back, law_white_space_is_all_that_vanishes,
    parsed_u64, trimmed, trimmed_end, trimmed_start,
};

verus! {

/// Every way to write to the store.
pub ghost enum Write {
    Whole(u64, ChainConfigView),
    Apply(u64, ChainConfigWireView),
    Ensure(u64, ChainConfigView),
    InitDefaults,
    PatchEndpoint(u64, Seq<char>),
    PatchTransport(u64, Option<u64>, Option<u64>),
    SetMode(u64, VerifiedProxyMode),
    Remove(u64),
}

impl EthRpcView {
    /// The store once `w` was written.
    pub open spec fn after(self, w: Write) -> EthRpcView {
        match w {
            Write::Whole(id, c) => self.set(id, c),
            Write::Apply(id, wire) => self.apply(id, wire),
            Write::Ensure(id, c) => self.ensure(id, c),
            Write::InitDefaults => self.init_defaults(),
            Write::PatchEndpoint(id, endpoint) => self.patch_endpoint(id, endpoint),
            Write::PatchTransport(id, t, vt) => self.patch_transport(id, t, vt),
            Write::SetMode(id, mode) => self.set_mode(id, mode),
            Write::Remove(id) => self.remove(id),
        }
    }

    /// Whether no record asks for a network proxy and for verified routing at once.
    pub open spec fn consistent(self) -> bool {
        forall|id: u64| #[trigger]
            self.chains.contains_key(id) ==> !self.chains[id].contradictory()
    }
}

/// The chain that a write is about; seeding the built-in endpoints is about several.
pub open spec fn target(w: Write) -> Option<u64> {
    match w {
        Write::Whole(id, _) => Some(id),
        Write::Apply(id, _) => Some(id),
        Write::Ensure(id, _) => Some(id),
        Write::InitDefaults => None,
        Write::PatchEndpoint(id, _) => Some(id),
        Write::PatchTransport(id, _, _) => Some(id),
        Write::SetMode(id, _) => Some(id),
        Write::Remove(id) => Some(id),
    }
}

/// What was written reads back: a record that is set, a caller's write as it was resolved, an endpoint
/// without the white space around it, a timeout, a mode; and a record that is removed is gone.
pub proof fn law_what_is_written_reads_back(
    store: EthRpcView,
    id: u64,
    c: ChainConfigView,
    wire: ChainConfigWireView,
    endpoint: Seq<char>,
    secs: u64,
    mode: VerifiedProxyMode,
)
    ensures
        !c.contradictory() ==> store.set(id, c).record(id) == Some(c),
        !store.resolved(id, wire).contradictory() ==> store.apply(id, wire).record(id) == Some(
            store.resolved(id, wire),
        ),
        store.record(id) is None ==> store.ensure(id, c).record(id) == Some(c),
        !blank(endpoint) ==> {
            &&& store.patch_endpoint(id, endpoint).record(id) is Some
            &&& store.patch_endpoint(id, endpoint).record(id)->0.endpoint == trimmed(endpoint)
        },
        store.record(id) is Some ==> {
            let timed = store.patch_transport(id, Some(secs), None).record(id);
            let verified = store.patch_transport(id, None, Some(secs)).record(id);
            &&& timed is Some && timed->0.timeout_secs == secs
            &&& verified is Some && verified->0.verified_timeout_secs == secs
        },
        store.mode_refusal(id, mode) is None ==> mode_of(store.set_mode(id, mode).record(id))
            == mode,
        store.remove(id).record(id) is None,
{
}

/// A write changes no chain but its own.
pub proof fn law_other_chains_are_untouched(store: EthRpcView, w: Write, other: u64)
    requires
        target(w) is Some,
        target(w) != Some(other),
    ensures
        store.after(w).record(other) == store.record(other),
{
}

proof fn lemma_seeded_changes_are_saved(store: EthRpcView, n: nat)
    requires
        n <= DEFAULT_ENDPOINTS@.len(),
    ensures
        store.seeded(n).chains != store.chains ==> store.seeded(n).save_due,
        store.save_due ==> store.seeded(n).save_due,
    decreases n,
{
    if n > 0 {
        lemma_seeded_changes_are_saved(store, (n - 1) as nat);
    }
}

/// Whatever a write changes waits to be saved, and no write makes the store forget that it has to
/// be.
pub proof fn law_changes_are_saved(store: EthRpcView, w: Write)
    ensures
        store.after(w).chains != store.chains ==> store.after(w).save_due,
        store.save_due ==> store.after(w).save_due,
{
    if w is InitDefaults {
        lemma_seeded_changes_are_saved(store, DEFAULT_ENDPOINTS@.len());
    }
}

proof fn lemma_seeding_keeps_consistent(store: EthRpcView, n: nat)
    requires
        store.consistent(),
        n <= DEFAULT_ENDPOINTS@.len(),
    ensures
        store.seeded(n).consistent(),
    decreases n,
{
    if n > 0 {
        lemma_seeding_keeps_consistent(store, (n - 1) as nat);
        lemma_ensure_keeps_consistent(
            store.seeded((n - 1) as nat),
            default_id(n - 1),
            default_record(n - 1),
        );
    }
}

proof fn lemma_ensure_keeps_consistent(store: EthRpcView, id: u64, c: ChainConfigView)
    requires
        store.consistent(),
        !c.contradictory(),
    ensures
        store.ensure(id, c).consistent(),
{
    let after = store.ensure(id, c);
    assert forall|x: u64| #[trigger] after.chains.contains_key(x) implies !after.chains[x].contradictory() by {
        if x != id {
            assert(store.chains.contains_key(x));
        } else if store.chains.contains_key(id) {
            assert(!store.chains[id].contradictory());
        }
    }
}

/// No write brings in a record that asks for a network proxy and for verified routing at once. A
/// seed is held to that before it reaches the store.
pub proof fn law_no_contradiction_is_stored(store: EthRpcView, w: Write)
    requires
        store.consistent(),
        w matches Write::Ensure(_, c) ==> !c.contradictory(),
    ensures
        store.after(w).consistent(),
{
    match w {
        Write::InitDefaults => lemma_seeding_keeps_consistent(store, DEFAULT_ENDPOINTS@.len()),
        Write::Ensure(id, c) => lemma_ensure_keeps_consistent(store, id, c),
        _ => {
            let after = store.after(w);
            let id = target(w)->0;
            assert forall|x: u64| #[trigger]
                after.chains.contains_key(x) implies !after.chains[x].contradictory() by {
                if store.chains.contains_key(x) {
                    assert(!store.chains[x].contradictory());
                }
            }
        },
    }
}

/// A write that is refused changes nothing at all.
pub proof fn law_refusals_change_nothing(
    store: EthRpcView,
    id: u64,
    c: ChainConfigView,
    wire: ChainConfigWireView,
    mode: VerifiedProxyMode,
    endpoint: Seq<char>,
)
    ensures
        c.contradictory() ==> store.set(id, c) == store,
        store.resolved(id, wire).contradictory() ==> store.apply(id, wire) == store,
        store.mode_refusal(id, mode) is Some ==> store.set_mode(id, mode) == store,
        blank(endpoint) ==> store.patch_endpoint(id, endpoint) == store,
{
}

/// A caller that says nothing of verified routing keeps what is stored: it cannot revoke the mode,
/// nor reset the timeout, by silence.
pub proof fn law_silence_keeps_verified_settings(
    store: EthRpcView,
    id: u64,
    wire: ChainConfigWireView,
)
    ensures
        wire.verified_proxy_mode is None ==> mode_of(store.apply(id, wire).record(id)) == mode_of(
            store.record(id),
        ),
        wire.verified_timeout_secs is None && store.record(id) is Some ==> store.apply(
            id,
            wire,
        ).record(id)->0.verified_timeout_secs == store.record(id)->0.verified_timeout_secs,
{
}

proof fn lemma_seeding_keeps_mode(store: EthRpcView, n: nat, id: u64)
    requires
        n <= DEFAULT_ENDPOINTS@.len(),
    ensures
        mode_of(store.seeded(n).record(id)) == mode_of(store.record(id)),
    decreases n,
{
    if n > 0 {
        lemma_seeding_keeps_mode(store, (n - 1) as nat, id);
    }
}

/// Seeding the built-in endpoints moves no gate.
pub proof fn law_init_defaults_keeps_every_mode(store: EthRpcView, id: u64)
    ensures
        mode_of(store.init_defaults().record(id)) == mode_of(store.record(id)),
        chain_change(store.record(id), store.init_defaults().record(id)).mode is None,
{
    lemma_seeding_keeps_mode(store, DEFAULT_ENDPOINTS@.len(), id);
}

/// A chain whose mode is `required` leaves it only where a write says so: an explicit `off`, a whole
/// record that is off, or the record's removal.
pub proof fn law_only_an_explicit_write_lowers_the_mode(store: EthRpcView, w: Write, id: u64)
    requires
        mode_of(store.record(id)) == VerifiedProxyMode::Required,
        mode_of(store.after(w).record(id)) == VerifiedProxyMode::Off,
    ensures
        target(w) == Some(id),
        match w {
            Write::Whole(_, c) => c.verified_proxy_mode == VerifiedProxyMode::Off,
            Write::Apply(_, wire) => wire.verified_proxy_mode == Some(VerifiedProxyMode::Off),
            Write::SetMode(_, mode) => mode == VerifiedProxyMode::Off,
            Write::Remove(_) => true,
            _ => false,
        },
{
    if w is InitDefaults {
        law_init_defaults_keeps_every_mode(store, id);
    } else if target(w) != Some(id) {
        law_other_chains_are_untouched(store, w, id);
    }
}

/// Seeding only ever fills what is lacking: a record that is there keeps everything but an endpoint
/// that is blank, and one with an endpoint is not touched at all.
pub proof fn law_seeding_fills_only_gaps(store: EthRpcView, id: u64, c: ChainConfigView)
    requires
        store.record(id) is Some,
    ensures
        ({
            let before = store.record(id)->0;
            let after = store.ensure(id, c).record(id)->0;
            &&& store.ensure(id, c).record(id) is Some
            &&& !blank(before.endpoint) ==> store.ensure(id, c) == store
            &&& after == (ChainConfigView {
                endpoint: after.endpoint,
                source: after.source,
                ..before
            })
        }),
{
}

proof fn lemma_default_is_not_blank(i: int)
    requires
        0 <= i < DEFAULT_ENDPOINTS@.len(),
    ensures
        !blank(default_record(i).endpoint),
{
    reveal_strlit("https://ethereum-rpc.publicnode.com");
    reveal_strlit("https://ethereum-sepolia-rpc.publicnode.com");
    reveal_strlit("https://ethereum-hoodi-rpc.publicnode.com");
    let s = default_record(i).endpoint;
    assert(s.len() > 0 && s[0] == 'h' && s.last() == 'm');
    assert(trimmed_start(s) == s);
    assert(trimmed_end(s) == s);
}

proof fn lemma_ensure_keeps_endpoint(store: EthRpcView, id: u64, c: ChainConfigView, other: u64)
    requires
        store.record(other) is Some,
        !blank(store.record(other)->0.endpoint),
    ensures
        store.ensure(id, c).record(other) == store.record(other),
{
}

proof fn lemma_seeded_has_endpoints(store: EthRpcView, n: nat, j: int)
    requires
        0 <= j < n <= DEFAULT_ENDPOINTS@.len(),
    ensures
        store.seeded(n).record(default_id(j)) is Some,
        !blank(store.seeded(n).record(default_id(j))->0.endpoint),
    decreases n,
{
    let before = store.seeded((n - 1) as nat);
    lemma_default_is_not_blank(n - 1);
    if j < n - 1 {
        lemma_seeded_has_endpoints(store, (n - 1) as nat, j);
        lemma_ensure_keeps_endpoint(before, default_id(n - 1), default_record(n - 1), default_id(j));
    }
}

proof fn lemma_nothing_to_seed(store: EthRpcView, n: nat)
    requires
        n <= DEFAULT_ENDPOINTS@.len(),
        forall|j: int|
            0 <= j < DEFAULT_ENDPOINTS@.len() ==> (#[trigger] store.gap(
                default_id(j),
                default_record(j),
            )) is Nothing,
    ensures
        store.seeded(n) == store,
    decreases n,
{
    if n > 0 {
        lemma_nothing_to_seed(store, (n - 1) as nat);
        assert(store.gap(default_id(n - 1), default_record(n - 1)) is Nothing);
    }
}

/// Once the built-in endpoints are seeded, seeding them again writes nothing, and says so of every
/// chain.
pub proof fn law_init_defaults_is_idempotent(store: EthRpcView)
    ensures
        store.init_defaults().init_defaults() == store.init_defaults(),
        forall|i: int|
            0 <= i < DEFAULT_ENDPOINTS@.len() ==> (
            #[trigger] store.init_defaults().seed_report()[i]).1.len() == 0,
{
    let once = store.init_defaults();
    let all = DEFAULT_ENDPOINTS@.len();
    assert forall|j: int| 0 <= j < all implies (#[trigger] once.gap(
        default_id(j),
        default_record(j),
    )) is Nothing by {
        lemma_seeded_has_endpoints(store, all, j);
    }
    lemma_nothing_to_seed(once, all);
    assert forall|i: int| 0 <= i < all implies (#[trigger] once.seed_report()[i]).1.len() == 0 by {
        lemma_nothing_to_seed(once, i as nat);
        assert(once.gap(default_id(i), default_record(i)) is Nothing);
    }
}

proof fn lemma_loaded_entries(chains: Map<u64, ChainConfigView>, ids: Seq<u64>)
    ensures
        forall|id: u64| #[trigger]
            loaded(entries_of(chains, ids)).contains_key(id) <==> ids.contains(id),
        forall|id: u64|
            ids.contains(id) ==> #[trigger] loaded(entries_of(chains, ids))[id] == chains[id],
    decreases ids.len(),
{
    let entries = entries_of(chains, ids);
    if ids.len() > 0 {
        let rest = ids.drop_last();
        let last = ids.last();
        lemma_loaded_entries(chains, rest);
        law_decimal_reads_back(last);
        assert(entries.drop_last() =~= entries_of(chains, rest));
        assert(entries.last() == (decimal(last as int), chains[last]));
        assert forall|id: u64| #[trigger] ids.contains(id) <==> rest.contains(id) || id == last by {
            if ids.contains(id) {
                let i = choose|i: int| 0 <= i < ids.len() && ids[i] == id;
                if i < rest.len() {
                    assert(rest[i] == id);
                }
            }
            if rest.contains(id) {
                let i = choose|i: int| 0 <= i < rest.len() && rest[i] == id;
                assert(ids[i] == id);
            }
            assert(ids[ids.len() - 1] == last);
        }
        assert forall|id: u64| #[trigger] loaded(entries).contains_key(id) <==> ids.contains(
            id,
        ) by {
            assert(ids.contains(id) <==> rest.contains(id) || id == last);
            assert(loaded(entries_of(chains, rest)).contains_key(id) <==> rest.contains(id));
        }
        assert forall|id: u64| ids.contains(id) implies #[trigger] loaded(entries)[id]
            == chains[id] by {
            assert(ids.contains(id) <==> rest.contains(id) || id == last);
            if id != last {
                assert(loaded(entries_of(chains, rest))[id] == chains[id]);
            }
        }
    }
}

proof fn lemma_saved_reads_back(chains: Map<u64, ChainConfigView>)
    requires
        chains.dom().finite(),
    ensures
        loaded(saved(chains)) == chains,
{
    lemma_ascending_lists(chains.dom());
    let ids = ascending(chains.dom());
    lemma_loaded_entries(chains, ids);
    assert forall|id: u64| #[trigger] loaded(saved(chains)).contains_key(id)
        <==> chains.contains_key(id) by {
        assert(ids.contains(id) <==> chains.dom().contains(id));
    }
    assert forall|id: u64| chains.contains_key(id) implies #[trigger] loaded(saved(chains))[id]
        == chains[id] by {
        assert(ids.contains(id));
    }
    assert(loaded(saved(chains)) =~= chains);
}

/// What is saved reads back as what was stored: a restart loses no record and alters none.
pub proof fn law_restart_keeps_every_record(rpc: EthRpc)
    ensures
        loaded(saved(rpc@.chains)) == rpc@.chains,
{
    lemma_records_are_finite(rpc);
    lemma_saved_reads_back(rpc@.chains);
}

proof fn lemma_seeding_keeps_finite(store: EthRpcView, n: nat)
    requires
        store.chains.dom().finite(),
    ensures
        store.seeded(n).chains.dom().finite(),
    decreases n,
{
    if n > 0 {
        lemma_seeding_keeps_finite(store, (n - 1) as nat);
    }
}

/// Seeding the built-in endpoints once more after a restart writes nothing either.
pub proof fn law_init_defaults_is_idempotent_across_restarts(rpc: EthRpc)
    ensures
        ({
            let once = rpc@.init_defaults();
            let reopened = EthRpcView { chains: loaded(saved(once.chains)), save_due: false };
            &&& reopened.chains == once.chains
            &&& reopened.init_defaults() == reopened
        }),
{
    let store = rpc@;
    lemma_records_are_finite(rpc);
    lemma_seeding_keeps_finite(store, DEFAULT_ENDPOINTS@.len());
    lemma_saved_reads_back(store.init_defaults().chains);
    let all = DEFAULT_ENDPOINTS@.len();
    let reopened = EthRpcView {
        chains: loaded(saved(store.init_defaults().chains)),
        save_due: false,
    };
    assert forall|j: int| 0 <= j < all implies (#[trigger] reopened.gap(
        default_id(j),
        default_record(j),
    )) is Nothing by {
        lemma_seeded_has_endpoints(store, all, j);
    }
    lemma_nothing_to_seed(reopened, all);
}

/// Once the built-in endpoints are seeded each of their chains has an endpoint, and a chain that had
/// no record has the built-in one.
pub proof fn law_init_defaults_covers_every_default(store: EthRpcView, i: int)
    requires
        0 <= i < DEFAULT_ENDPOINTS@.len(),
    ensures
        store.init_defaults().record(default_id(i)) is Some,
        !blank(store.init_defaults().record(default_id(i))->0.endpoint),
        store.record(default_id(i)) is None ==> store.init_defaults().record(default_id(i)) == Some(
            default_record(i),
        ),
{
    let all = DEFAULT_ENDPOINTS@.len();
    lemma_seeded_has_endpoints(store, all, i);
    if store.record(default_id(i)) is None {
        lemma_seeded_before(store, i as nat, default_id(i), i);
        lemma_default_is_not_blank(i);
        lemma_seeded_after(store, all, i);
    }
}

proof fn lemma_seeded_before(store: EthRpcView, n: nat, id: u64, i: int)
    requires
        n <= i < DEFAULT_ENDPOINTS@.len(),
        id == default_id(i),
    ensures
        store.seeded(n).record(id) == store.record(id),
    decreases n,
{
    if n > 0 {
        lemma_seeded_before(store, (n - 1) as nat, id, i);
        assert(default_id(n - 1) != default_id(i));
    }
}

proof fn lemma_seeded_after(store: EthRpcView, n: nat, i: int)
    requires
        0 <= i < n <= DEFAULT_ENDPOINTS@.len(),
        store.seeded(i as nat).record(default_id(i)) is None,
    ensures
        store.seeded(n).record(default_id(i)) == Some(default_record(i)),
    decreases n,
{
    if n > i + 1 {
        lemma_seeded_after(store, (n - 1) as nat, i);
        lemma_default_is_not_blank(i);
        lemma_ensure_keeps_endpoint(
            store.seeded((n - 1) as nat),
            default_id(n - 1),
            default_record(n - 1),
            default_id(i),
        );
    }
}

/// A record outside the built-in endpoints is never seeded.
pub proof fn law_init_defaults_seeds_only_defaults(store: EthRpcView, id: u64)
    requires
        forall|i: int| 0 <= i < DEFAULT_ENDPOINTS@.len() ==> #[trigger] default_id(i) != id,
    ensures
        store.init_defaults().record(id) == store.record(id),
{
    lemma_seeding_skips(store, DEFAULT_ENDPOINTS@.len(), id);
}

proof fn lemma_seeding_skips(store: EthRpcView, n: nat, id: u64)
    requires
        n <= DEFAULT_ENDPOINTS@.len(),
        forall|i: int| 0 <= i < DEFAULT_ENDPOINTS@.len() ==> #[trigger] default_id(i) != id,
    ensures
        store.seeded(n).record(id) == store.record(id),
    decreases n,
{
    if n > 0 {
        lemma_seeding_skips(store, (n - 1) as nat, id);
        assert(default_id(n - 1) != id);
    }
}

/// Seeding the built-in endpoints never touches a record that has an endpoint.
pub proof fn law_init_defaults_overwrites_nothing(store: EthRpcView, id: u64)
    requires
        store.record(id) is Some,
        !blank(store.record(id)->0.endpoint),
    ensures
        store.init_defaults().record(id) == store.record(id),
{
    lemma_seeding_keeps_record(store, DEFAULT_ENDPOINTS@.len(), id);
}

proof fn lemma_seeding_keeps_record(store: EthRpcView, n: nat, id: u64)
    requires
        n <= DEFAULT_ENDPOINTS@.len(),
        store.record(id) is Some,
        !blank(store.record(id)->0.endpoint),
    ensures
        store.seeded(n).record(id) == store.record(id),
    decreases n,
{
    if n > 0 {
        lemma_seeding_keeps_record(store, (n - 1) as nat, id);
        lemma_ensure_keeps_endpoint(
            store.seeded((n - 1) as nat),
            default_id(n - 1),
            default_record(n - 1),
            id,
        );
    }
}

/// A caller that writes to a record owns it from then on: `default` can only mean untouched.
pub proof fn law_callers_own_what_they_write(store: EthRpcView, w: Write, id: u64)
    requires
        target(w) == Some(id),
        store.after(w).record(id) is Some,
        match w {
            Write::Apply(_, wire) => !store.resolved(id, wire).contradictory(),
            Write::PatchEndpoint(_, endpoint) => !blank(endpoint),
            Write::PatchTransport(_, t, vt) => t is Some || vt is Some,
            Write::SetMode(_, mode) => store.mode_refusal(id, mode) is None,
            _ => false,
        },
    ensures
        store.after(w).record(id)->0.source == ConfigSource::External,
{
}

proof fn lemma_seeding_keeps_external(store: EthRpcView, n: nat, id: u64)
    requires
        n <= DEFAULT_ENDPOINTS@.len(),
        store.record(id) is Some,
        store.record(id)->0.source == ConfigSource::External,
    ensures
        store.seeded(n).record(id) is Some,
        store.seeded(n).record(id)->0.source == ConfigSource::External,
    decreases n,
{
    if n > 0 {
        lemma_seeding_keeps_external(store, (n - 1) as nat, id);
    }
}

/// A caller's record stays a caller's: nothing but a whole record that claims otherwise, which only
/// the store's owner can set, labels it built-in again.
pub proof fn law_source_only_climbs(store: EthRpcView, w: Write, id: u64)
    requires
        store.record(id) is Some,
        store.record(id)->0.source == ConfigSource::External,
        store.after(w).record(id) is Some,
        w !is Whole,
    ensures
        store.after(w).record(id)->0.source == ConfigSource::External,
{
    if w is InitDefaults {
        lemma_seeding_keeps_external(store, DEFAULT_ENDPOINTS@.len(), id);
    } else if target(w) != Some(id) {
        law_other_chains_are_untouched(store, w, id);
    }
}

/// Setting an endpoint, or timeouts, or the mode, leaves everything else of the record alone.
pub proof fn law_patches_keep_the_rest(
    store: EthRpcView,
    id: u64,
    endpoint: Seq<char>,
    t: Option<u64>,
    vt: Option<u64>,
    mode: VerifiedProxyMode,
)
    requires
        store.record(id) is Some,
    ensures
        ({
            let before = store.record(id)->0;
            let moved = store.patch_endpoint(id, endpoint).record(id)->0;
            let timed = store.patch_transport(id, t, vt).record(id)->0;
            let switched = store.set_mode(id, mode).record(id)->0;
            &&& moved == (ChainConfigView {
                endpoint: moved.endpoint,
                source: moved.source,
                ..before
            })
            &&& timed == (ChainConfigView {
                timeout_secs: timed.timeout_secs,
                verified_timeout_secs: timed.verified_timeout_secs,
                source: timed.source,
                ..before
            })
            &&& switched == (ChainConfigView {
                verified_proxy_mode: switched.verified_proxy_mode,
                source: switched.source,
                ..before
            })
        }),
{
}

/// Writing the same again moves nothing, so nobody is woken: a wallet may push its config on every
/// start.
pub proof fn law_the_same_write_again_moves_nothing(store: EthRpcView, w: Write, id: u64)
    requires
        w !is InitDefaults,
        target(w) == Some(id),
    ensures
        ({
            let once = store.after(w);
            let change = chain_change(once.record(id), once.after(w).record(id));
            &&& once.after(w).record(id) == once.record(id)
            &&& !change.config
            &&& change.mode is None
        }),
{
}

/// The mode in force moves only where the record does: a mode event never comes without a config
/// event.
pub proof fn law_a_moved_gate_is_a_moved_record(
    before: Option<ChainConfigView>,
    after: Option<ChainConfigView>,
)
    ensures
        chain_change(before, after).mode is Some ==> chain_change(before, after).config,
        before == after ==> !chain_change(before, after).config && chain_change(
            before,
            after,
        ).mode is None,
{
}

/// Removing a chain whose mode is `required` closes its gate, and says so; removing one without a
/// record says nothing.
pub proof fn law_removal_closes_the_gate(store: EthRpcView, id: u64)
    ensures
        mode_of(store.record(id)) == VerifiedProxyMode::Required ==> chain_change(
            store.record(id),
            store.remove(id).record(id),
        ) == (ChainChange { config: true, mode: Some(VerifiedProxyMode::Off) }),
        store.record(id) is None ==> chain_change(store.record(id), store.remove(id).record(id))
            == (ChainChange { config: false, mode: None }),
{
}

/// A write announces what moved and nothing else: nothing where the record is the same, else the
/// record, and after it the mode where that moved.
pub proof fn law_events_tell_what_moved(
    chain_id: i64,
    before: Option<ChainConfigView>,
    after: Option<ChainConfigView>,
)
    ensures
        ({
            let events = EffectsView::of(chain_id, chain_change(before, after)).events;
            let record = EventView::ChainConfigChanged(chain_id);
            &&& before == after <==> events == Seq::<EventView>::empty()
            &&& before != after && mode_of(before) == mode_of(after) ==> events == seq![record]
            &&& mode_of(before) != mode_of(after) ==> events == seq![
                record,
                EventView::VerifiedProxyModeChanged(chain_id, mode_text(mode_of(after))),
            ]
        }),
{
    let events = EffectsView::of(chain_id, chain_change(before, after)).events;
    if before == after {
        assert(events =~= seq![]);
    } else {
        assert(events[0] == EventView::ChainConfigChanged(chain_id));
        assert(events.len() > 0);
        if mode_of(before) == mode_of(after) {
            assert(events =~= seq![EventView::ChainConfigChanged(chain_id)]);
        } else {
            assert(events =~= seq![
                EventView::ChainConfigChanged(chain_id),
                EventView::VerifiedProxyModeChanged(chain_id, mode_text(mode_of(after))),
            ]);
        }
    }
}

proof fn lemma_empty_report_is_silent(report: Seq<(u64, Seq<Seq<char>>)>)
    requires
        forall|i: int| 0 <= i < report.len() ==> (#[trigger] report[i]).1.len() == 0,
    ensures
        init_effects(report) == EffectsView::none(),
        !applied(report),
    decreases report.len(),
{
    if report.len() > 0 {
        let rest = report.drop_last();
        assert forall|i: int| 0 <= i < rest.len() implies (#[trigger] rest[i]).1.len() == 0 by {
            assert(rest[i] == report[i]);
        }
        lemma_empty_report_is_silent(rest);
    }
}

/// Seeding the built-in endpoints a second time announces nothing, and says that it applied nothing.
pub proof fn law_init_defaults_is_silent_the_second_time(store: EthRpcView)
    ensures
        init_effects(store.init_defaults().seed_report()) == EffectsView::none(),
        !applied(store.init_defaults().seed_report()),
{
    law_init_defaults_is_idempotent(store);
    lemma_empty_report_is_silent(store.init_defaults().seed_report());
}

/// Seeding the built-in endpoints reports a chain exactly where its record changed, so that exactly
/// the chains that changed are announced.
pub proof fn law_the_seed_report_tells_what_changed(store: EthRpcView, i: int)
    requires
        0 <= i < DEFAULT_ENDPOINTS@.len(),
    ensures
        store.seed_report()[i].0 == default_id(i),
        store.seed_report()[i].1.len() > 0 <==> store.init_defaults().record(default_id(i))
            != store.record(default_id(i)),
{
    let all = DEFAULT_ENDPOINTS@.len();
    let id = default_id(i);
    lemma_seeded_before(store, i as nat, id, i);
    lemma_seeded_has_endpoints(store, all, i);
    lemma_default_is_not_blank(i);
    if store.gap(id, default_record(i)) is Nothing {
        law_init_defaults_overwrites_nothing(store, id);
    }
}

proof fn lemma_silent_steps(store: EthRpcView, n: nat)
    requires
        n <= DEFAULT_ENDPOINTS@.len(),
        !applied(store.seed_report()),
    ensures
        store.seeded(n) == store,
    decreases n,
{
    if n > 0 {
        lemma_silent_steps(store, (n - 1) as nat);
        assert(store.seed_report()[n - 1].1.len() == 0);
    }
}

/// Seeding the built-in endpoints says that it applied something exactly where it changed a record.
pub proof fn law_applied_means_changed(store: EthRpcView)
    ensures
        applied(store.seed_report()) <==> store.init_defaults().chains != store.chains,
{
    if applied(store.seed_report()) {
        let i = choose|i: int|
            0 <= i < store.seed_report().len() && (#[trigger] store.seed_report()[i]).1.len() > 0;
        law_the_seed_report_tells_what_changed(store, i);
    } else {
        lemma_silent_steps(store, DEFAULT_ENDPOINTS@.len());
    }
}

proof fn lemma_reported_is_finite(store: EthRpcView)
    requires
        store.chains.dom().finite(),
    ensures
        store.reported().finite(),
{
    let defaults = set![default_id(0), default_id(1), default_id(2)];
    assert forall|id: u64| #[trigger] store.reported().contains(id) <==> store.chains.dom().union(
        defaults,
    ).contains(id) by {
        if defaults.contains(id) {
            assert(has_default(id));
        }
    }
    assert(store.reported() =~= store.chains.dom().union(defaults));
}

proof fn lemma_listed_in_order(store: EthRpcView)
    requires
        store.chains.dom().finite(),
    ensures
        lists(ascending(store.chains.dom()), store.chains.dom()),
        lists(ascending(store.reported()), store.reported()),
{
    lemma_ascending_lists(store.chains.dom());
    lemma_reported_is_finite(store);
    lemma_ascending_lists(store.reported());
}

/// A store lists its chains, and those that it reports on, in ascending order, each once and none
/// left out.
pub proof fn law_chains_are_listed_in_order(rpc: EthRpc)
    ensures
        lists(ascending(rpc@.chains.dom()), rpc@.chains.dom()),
        lists(ascending(rpc@.reported()), rpc@.reported()),
{
    lemma_records_are_finite(rpc);
    lemma_listed_in_order(rpc@);
}

/// A module that has its context lists its chains, and those that it reports on, in ascending order,
/// each once and none left out.
pub proof fn law_a_module_lists_chains_in_order(m: ModuleState)
    ensures
        m@ matches Some(store) ==> {
            &&& lists(ascending(store.chains.dom()), store.chains.dom())
            &&& lists(ascending(store.reported()), store.reported())
        },
{
    if let Some(store) = m@ {
        lemma_module_records_are_finite(m);
        lemma_listed_in_order(store);
    }
}

/// What a caller sends is what is stored, field by field: the endpoint, the network proxy and whether it
/// is required, the timeout, and each verified setting that the caller names. One that the caller does
/// not name is kept, and is off, or fifteen seconds, on a chain that is new. The record is the caller's.
/// Only a write that would ask for a network proxy and for verified routing at once is refused, and it
/// changes nothing.
pub proof fn law_what_a_caller_sends_is_what_is_stored(
    store: EthRpcView,
    id: u64,
    wire: ChainConfigWireView,
)
    ensures
        ({
            let mode = match wire.verified_proxy_mode {
                Some(named) => named,
                None => if store.chains.contains_key(id) {
                    store.chains[id].verified_proxy_mode
                } else {
                    VerifiedProxyMode::Off
                },
            };
            let after = store.apply(id, wire).record(id);
            let refused = wire.proxy_required && mode == VerifiedProxyMode::Required;
            &&& store.resolved(id, wire).contradictory() <==> refused
            &&& refused ==> store.apply(id, wire) == store
            &&& !refused ==> {
                &&& after is Some
                &&& after->0.endpoint == wire.endpoint
                &&& after->0.proxy == wire.proxy
                &&& after->0.proxy_required == wire.proxy_required
                &&& after->0.timeout_secs == wire.timeout_secs
                &&& after->0.verified_proxy_mode == mode
                &&& after->0.verified_timeout_secs == match wire.verified_timeout_secs {
                    Some(secs) => secs,
                    None => if store.chains.contains_key(id) {
                        store.chains[id].verified_timeout_secs
                    } else {
                        15
                    },
                }
                &&& after->0.source == ConfigSource::External
            }
        }),
{
}

/// A record is contradictory where it requires a network proxy and verified routing, and nowhere else; a
/// chain's mode is its record's, and off without one; and what is stored for a chain is its record.
pub proof fn law_a_record_is_what_is_stored(store: EthRpcView, id: u64, c: ChainConfigView)
    ensures
        c.contradictory() <==> c.proxy_required && c.verified_proxy_mode
            == VerifiedProxyMode::Required,
        mode_of(Some(c)) == c.verified_proxy_mode,
        mode_of(None) == VerifiedProxyMode::Off,
        store.record(id) is Some <==> store.chains.contains_key(id),
        store.chains.contains_key(id) ==> store.record(id) == Some(store.chains[id]),
{
}

/// A chain's record moved where it is not the same as before, and its gate where the mode is not; the
/// mode that is told is the one now in force.
pub proof fn law_a_change_is_a_difference(
    before: Option<ChainConfigView>,
    after: Option<ChainConfigView>,
)
    ensures
        ({
            let was = before is Some && before->0.verified_proxy_mode
                == VerifiedProxyMode::Required;
            let now = after is Some && after->0.verified_proxy_mode == VerifiedProxyMode::Required;
            let change = chain_change(before, after);
            &&& change.config <==> before != after
            &&& was == now ==> change.mode is None
            &&& was && !now ==> change.mode == Some(VerifiedProxyMode::Off)
            &&& !was && now ==> change.mode == Some(VerifiedProxyMode::Required)
        }),
{
}

/// The built-in record for an endpoint: no network proxy, 8 seconds, verified routing off, 15 seconds for
/// it where it is turned on, and no caller's.
pub proof fn law_a_builtin_record_is_plain(endpoint: Seq<char>)
    ensures
        ({
            let c = builtin_config(endpoint);
            &&& c.endpoint == endpoint
            &&& c.proxy is None
            &&& !c.proxy_required
            &&& c.timeout_secs == 8
            &&& c.verified_proxy_mode == VerifiedProxyMode::Off
            &&& c.verified_timeout_secs == 15
            &&& c.source == ConfigSource::Builtin
        }),
{
}

/// Three chains have a built-in endpoint, one each.
pub proof fn law_three_chains_have_a_builtin_endpoint(id: u64)
    ensures
        DEFAULT_ENDPOINTS@.len() == 3,
        default_id(0) == 1,
        default_id(1) == 11155111,
        default_id(2) == 560048,
        default_record(0) == builtin_config("https://ethereum-rpc.publicnode.com"@),
        default_record(1) == builtin_config("https://ethereum-sepolia-rpc.publicnode.com"@),
        default_record(2) == builtin_config("https://ethereum-hoodi-rpc.publicnode.com"@),
        has_default(id) <==> id == 1 || id == 11155111 || id == 560048,
{
    assert(default_id(0) == 1 && default_id(1) == 11155111 && default_id(2) == 560048);
}

/// An endpoint is blank where there is nothing in it but white space.
pub proof fn law_a_blank_endpoint_is_white_space(endpoint: Seq<char>)
    ensures
        blank(endpoint) <==> all_white(endpoint),
{
    law_white_space_is_all_that_vanishes(endpoint);
}

/// What seeding a chain does, and what it says that it wrote: the whole record where there is none, the
/// endpoint alone where the one that is there is blank and the new one is not, and nothing otherwise. A
/// record that a caller fills is the caller's from then on.
pub proof fn law_seeding_says_what_it_fills(store: EthRpcView, id: u64, c: ChainConfigView)
    ensures
        ({
            let told = store.gap(id, c).fields();
            let after = store.ensure(id, c);
            let before = store.chains[id];
            &&& !store.chains.contains_key(id) ==> {
                &&& told == seq!["*"@]
                &&& after.record(id) == Some(c)
            }
            &&& store.chains.contains_key(id) && all_white(before.endpoint) && !all_white(
                c.endpoint,
            ) ==> {
                &&& told == seq!["endpoint"@]
                &&& after.record(id) == Some(
                    ChainConfigView {
                        endpoint: c.endpoint,
                        proxy: before.proxy,
                        proxy_required: before.proxy_required,
                        timeout_secs: before.timeout_secs,
                        verified_proxy_mode: before.verified_proxy_mode,
                        verified_timeout_secs: before.verified_timeout_secs,
                        source: if c.source == ConfigSource::External {
                            ConfigSource::External
                        } else {
                            before.source
                        },
                    },
                )
            }
            &&& store.chains.contains_key(id) && (!all_white(before.endpoint) || all_white(
                c.endpoint,
            )) ==> {
                &&& told == Seq::<Seq<char>>::empty()
                &&& after == store
            }
        }),
{
    law_a_blank_endpoint_is_white_space(store.chains[id].endpoint);
    law_a_blank_endpoint_is_white_space(c.endpoint);
}

/// Setting an endpoint stores it without the white space around it, as the caller's; the rest of the
/// record stays, or is the built-in one's where there was none. White space alone is refused.
pub proof fn law_an_endpoint_is_set_on_its_own(store: EthRpcView, id: u64, endpoint: Seq<char>)
    ensures
        all_white(endpoint) ==> store.patch_endpoint(id, endpoint) == store,
        !all_white(endpoint) && store.chains.contains_key(id) ==> {
            let before = store.chains[id];
            store.patch_endpoint(id, endpoint).record(id) == Some(
                ChainConfigView {
                    endpoint: trimmed(endpoint),
                    proxy: before.proxy,
                    proxy_required: before.proxy_required,
                    timeout_secs: before.timeout_secs,
                    verified_proxy_mode: before.verified_proxy_mode,
                    verified_timeout_secs: before.verified_timeout_secs,
                    source: ConfigSource::External,
                },
            )
        },
        !all_white(endpoint) && !store.chains.contains_key(id) ==> store.patch_endpoint(
            id,
            endpoint,
        ).record(id) == Some(
            ChainConfigView {
                endpoint: trimmed(endpoint),
                proxy: None,
                proxy_required: false,
                timeout_secs: 8,
                verified_proxy_mode: VerifiedProxyMode::Off,
                verified_timeout_secs: 15,
                source: ConfigSource::External,
            },
        ),
{
    law_a_blank_endpoint_is_white_space(endpoint);
}

/// Setting timeouts stores each one that is given, as the caller's, and keeps the other and the rest.
/// None at all keeps everything, and so does a chain without a record.
pub proof fn law_timeouts_are_set_on_their_own(
    store: EthRpcView,
    id: u64,
    t: Option<u64>,
    vt: Option<u64>,
    n: i64,
)
    ensures
        !store.chains.contains_key(id) ==> store.patch_transport(id, t, vt) == store,
        store.chains.contains_key(id) ==> {
            let before = store.chains[id];
            let after = store.patch_transport(id, t, vt).record(id);
            &&& after is Some
            &&& after->0.endpoint == before.endpoint
            &&& after->0.proxy == before.proxy
            &&& after->0.proxy_required == before.proxy_required
            &&& after->0.verified_proxy_mode == before.verified_proxy_mode
            &&& t is Some ==> after->0.timeout_secs == t->0
            &&& t is None ==> after->0.timeout_secs == before.timeout_secs
            &&& vt is Some ==> after->0.verified_timeout_secs == vt->0
            &&& vt is None ==> after->0.verified_timeout_secs == before.verified_timeout_secs
            &&& t is Some || vt is Some ==> after->0.source == ConfigSource::External
            &&& t is None && vt is None ==> after->0 == before
        },
        n > 0 ==> positive(n) == Some(n as u64),
        n <= 0 ==> positive(n) is None,
{
}

/// Setting a mode stores it, as the caller's, and keeps the rest. It is refused where the chain has no
/// record, and where the mode is `required` and so is a network proxy; it is refused nowhere else, and
/// then nothing changes.
pub proof fn law_a_mode_is_set_on_its_own(store: EthRpcView, id: u64, mode: VerifiedProxyMode)
    ensures
        !store.chains.contains_key(id) ==> {
            &&& store.mode_refusal(id, mode) == Some(
                "no configuration for chain "@ + decimal(id as int),
            )
            &&& store.set_mode(id, mode) == store
        },
        store.chains.contains_key(id) ==> {
            let before = store.chains[id];
            if before.proxy_required && mode == VerifiedProxyMode::Required {
                &&& store.mode_refusal(id, mode) == Some(
                    "proxyRequired and verifiedProxyMode=required cannot both be set: the verified proxy makes its own connections and cannot honour a SOCKS proxy configured here"@,
                )
                &&& store.set_mode(id, mode) == store
            } else {
                &&& store.mode_refusal(id, mode) is None
                &&& store.set_mode(id, mode).record(id) == Some(
                    ChainConfigView {
                        endpoint: before.endpoint,
                        proxy: before.proxy,
                        proxy_required: before.proxy_required,
                        timeout_secs: before.timeout_secs,
                        verified_proxy_mode: mode,
                        verified_timeout_secs: before.verified_timeout_secs,
                        source: ConfigSource::External,
                    },
                )
            }
        },
{
}

/// A text names a mode where it spells the mode's name in letters of either case, white space around it
/// aside. What names none is told so, with the text in small letters.
pub proof fn law_a_mode_is_named_in_either_case(text: Seq<char>)
    ensures
        mode_named(text) == Some(VerifiedProxyMode::Off) <==> spells(trimmed(text), "off"@),
        mode_named(text) == Some(VerifiedProxyMode::Required) <==> spells(
            trimmed(text),
            "required"@,
        ),
        unknown_mode(text) == "unknown verified proxy mode '"@ + trimmed(text).map_values(
            |c: char| ascii_lower(c),
        ) + "' (expected off or required)"@,
        mode_text(VerifiedProxyMode::Off) == "off"@,
        mode_text(VerifiedProxyMode::Required) == "required"@,
{
    reveal_strlit("off");
    reveal_strlit("required");
    let t = trimmed(text);
    lemma_lower_case_spells(t, "off"@);
    lemma_lower_case_spells(t, "required"@);
    assert("off"@.len() == 3 && "required"@.len() == 8);
    assert(mode_name(text) == t.map_values(|c: char| ascii_lower(c)));
}

/// Whether `text` is `word`, which is in small letters, with each letter in either case.
pub open spec fn spells(text: Seq<char>, word: Seq<char>) -> bool {
    &&& text.len() == word.len()
    &&& forall|i: int|
        0 <= i < word.len() ==> #[trigger] text[i] == word[i] || text[i] as int == word[i] as int
            - 32
}

proof fn lemma_lower_case_spells(text: Seq<char>, word: Seq<char>)
    requires
        forall|i: int| 0 <= i < word.len() ==> 'a' <= #[trigger] word[i] <= 'z',
    ensures
        text.map_values(|c: char| ascii_lower(c)) == word <==> spells(text, word),
{
    let lower = text.map_values(|c: char| ascii_lower(c));
    if lower == word {
        assert forall|i: int| 0 <= i < word.len() implies #[trigger] text[i] == word[i]
            || text[i] as int == word[i] as int - 32 by {
            assert(lower[i] == ascii_lower(text[i]));
        }
    }
    if spells(text, word) {
        assert forall|i: int| 0 <= i < word.len() implies #[trigger] lower[i] == word[i] by {
            assert(text[i] == word[i] || text[i] as int == word[i] as int - 32);
            assert('a' <= word[i] <= 'z');
        }
        assert(lower =~= word);
    }
}

/// Every write that is not refused waits to be saved.
pub proof fn law_a_write_waits_to_be_saved(
    store: EthRpcView,
    id: u64,
    c: ChainConfigView,
    endpoint: Seq<char>,
    t: Option<u64>,
    vt: Option<u64>,
    mode: VerifiedProxyMode,
)
    ensures
        !c.contradictory() ==> store.set(id, c).save_due,
        !all_white(endpoint) ==> store.patch_endpoint(id, endpoint).save_due,
        store.chains.contains_key(id) ==> store.patch_transport(id, t, vt).save_due,
        store.mode_refusal(id, mode) is None ==> store.set_mode(id, mode).save_due,
        !store.chains.contains_key(id) ==> store.ensure(id, c).save_due,
        store.remove(id).save_due,
{
    law_a_blank_endpoint_is_white_space(endpoint);
}

/// Entries are read one by one: one whose key is a chain id in decimal is that chain's record, in place of
/// an earlier one, and one whose key is not is passed over.
pub proof fn law_entries_are_read_one_by_one(
    entries: Seq<(Seq<char>, ChainConfigView)>,
    key: Seq<char>,
    c: ChainConfigView,
    id: u64,
)
    ensures
        loaded(Seq::empty()) == Map::<u64, ChainConfigView>::empty(),
        parsed_u64(key, 10) is None ==> loaded(entries.push((key, c))) == loaded(entries),
        parsed_u64(key, 10) matches Some(n) ==> loaded(entries.push((key, c))) == loaded(
            entries,
        ).insert(n, c),
        loaded(entries.push((decimal(id as int), c))) == loaded(entries).insert(id, c),
{
    assert(entries.push((key, c)).drop_last() =~= entries);
    assert(entries.push((decimal(id as int), c)).drop_last() =~= entries);
    law_decimal_reads_back(id);
}

/// What is saved is every record once, under its chain's id in decimal and in the order of the ids.
pub proof fn law_every_record_is_saved(rpc: EthRpc, i: int)
    ensures
        ({
            let ids = ascending(rpc@.chains.dom());
            &&& lists(ids, rpc@.chains.dom())
            &&& saved(rpc@.chains).len() == ids.len()
            &&& 0 <= i < ids.len() ==> saved(rpc@.chains)[i] == (
                decimal(ids[i] as int),
                rpc@.chains[ids[i]],
            )
        }),
{
    law_chains_are_listed_in_order(rpc);
}

/// What follows a write: the chain's verdict is dropped, whatever moved; the record is announced where it
/// is another one, and the mode after it where it is another one.
pub proof fn law_a_write_is_followed_by_what_moved(
    chain_id: i64,
    before: EthRpcView,
    after: EthRpcView,
)
    ensures
        ({
            let id = if chain_id >= 0 {
                chain_id as u64
            } else {
                (chain_id + 0x1_0000_0000_0000_0000) as u64
            };
            let was = before.record(id) is Some && before.record(id)->0.verified_proxy_mode
                == VerifiedProxyMode::Required;
            let now = after.record(id) is Some && after.record(id)->0.verified_proxy_mode
                == VerifiedProxyMode::Required;
            let effects = effects_of(chain_id, before, after);
            let record = EventView::ChainConfigChanged(chain_id);
            &&& effects.invalidate == seq![id]
            &&& before.record(id) == after.record(id) ==> effects.events
                == Seq::<EventView>::empty()
            &&& before.record(id) != after.record(id) && was == now ==> effects.events
                == seq![record]
            &&& was && !now ==> effects.events == seq![
                record,
                EventView::VerifiedProxyModeChanged(chain_id, "off"@),
            ]
            &&& !was && now ==> effects.events == seq![
                record,
                EventView::VerifiedProxyModeChanged(chain_id, "required"@),
            ]
        }),
{
    let id = if chain_id >= 0 {
        chain_id as u64
    } else {
        (chain_id + 0x1_0000_0000_0000_0000) as u64
    };
    law_events_tell_what_moved(chain_id, before.record(id), after.record(id));
}

/// A seeded chain is announced where it gained something, in the order of the report, with its verdict
/// dropped; a chain that gained nothing is passed over.
pub proof fn law_seeded_chains_are_announced_one_by_one(
    report: Seq<(u64, Seq<Seq<char>>)>,
    id: u64,
    fields: Seq<Seq<char>>,
)
    ensures
        ({
            let signed = if id <= i64::MAX {
                id as i64
            } else {
                (id - 0x1_0000_0000_0000_0000) as i64
            };
            let before = init_effects(report);
            let after = init_effects(report.push((id, fields)));
            &&& init_effects(Seq::empty()).invalidate == Seq::<u64>::empty()
            &&& init_effects(Seq::empty()).events == Seq::<EventView>::empty()
            &&& fields.len() == 0 ==> after == before
            &&& fields.len() > 0 ==> {
                &&& after.invalidate == before.invalidate.push(id)
                &&& after.events == before.events.push(EventView::ChainConfigChanged(signed))
            }
        }),
{
    assert(report.push((id, fields)).drop_last() =~= report);
}

/// What seeding the built-in endpoints says of a chain: the whole record where it had none, the endpoint
/// where it was blank, and nothing otherwise. A blank endpoint becomes the built-in one, and the rest of
/// the record stays.
pub proof fn law_the_seed_report_tells_what_was_lacking(store: EthRpcView, i: int)
    requires
        0 <= i < DEFAULT_ENDPOINTS@.len(),
    ensures
        ({
            let id = default_id(i);
            let told = store.seed_report()[i];
            let before = store.chains[id];
            let after = store.init_defaults().record(id);
            &&& store.seed_report().len() == DEFAULT_ENDPOINTS@.len()
            &&& told.0 == id
            &&& !store.chains.contains_key(id) ==> told.1 == seq!["*"@]
            &&& store.chains.contains_key(id) && all_white(before.endpoint) ==> {
                &&& told.1 == seq!["endpoint"@]
                &&& after == Some(
                    ChainConfigView { endpoint: default_record(i).endpoint, ..before },
                )
            }
            &&& store.chains.contains_key(id) && !all_white(before.endpoint) ==> {
                &&& told.1 == Seq::<Seq<char>>::empty()
                &&& after == Some(before)
            }
        }),
{
    let all = DEFAULT_ENDPOINTS@.len();
    let id = default_id(i);
    let before = store.chains[id];
    lemma_seeded_before(store, i as nat, id, i);
    lemma_default_is_not_blank(i);
    law_a_blank_endpoint_is_white_space(before.endpoint);
    if store.chains.contains_key(id) {
        let next = store.seeded((i + 1) as nat);
        assert(next == store.seeded(i as nat).ensure(id, default_record(i)));
        assert(next.record(id) is Some && !blank(next.record(id)->0.endpoint));
        lemma_seeding_on_keeps_record(store, (i + 1) as nat, all, id);
        if blank(before.endpoint) {
            assert(next.record(id) == Some(
                ChainConfigView { endpoint: default_record(i).endpoint, ..before },
            ));
        }
    }
}

proof fn lemma_seeding_on_keeps_record(store: EthRpcView, from: nat, n: nat, id: u64)
    requires
        from <= n <= DEFAULT_ENDPOINTS@.len(),
        store.seeded(from).record(id) is Some,
        !blank(store.seeded(from).record(id)->0.endpoint),
    ensures
        store.seeded(n).record(id) == store.seeded(from).record(id),
    decreases n,
{
    if n > from {
        lemma_seeding_on_keeps_record(store, from, (n - 1) as nat, id);
        lemma_ensure_keeps_endpoint(
            store.seeded((n - 1) as nat),
            default_id(n - 1),
            default_record(n - 1),
            id,
        );
    }
}

/// A caller's seed is refused where it could not be read, where it is contradictory, and before the
/// module's context is there; and nowhere else. Whatever it says of its writer, it is the caller's.
pub proof fn law_a_callers_seed_is_the_callers(
    state: Option<EthRpcView>,
    c: ChainConfig,
    e: String,
)
    ensures
        ensure_refusal(state, Err(e)) == Some(e@),
        c@.proxy_required && c@.verified_proxy_mode == VerifiedProxyMode::Required
            ==> ensure_refusal(state, Ok(c)) == Some(
            "proxyRequired and verifiedProxyMode=required cannot both be set: the verified proxy makes its own connections and cannot honour a SOCKS proxy configured here"@,
        ),
        !(c@.proxy_required && c@.verified_proxy_mode == VerifiedProxyMode::Required) ==> {
            &&& state is None ==> ensure_refusal(state, Ok(c)) == Some(
                "eth_rpc not initialized (context not ready)"@,
            )
            &&& state is Some ==> ensure_refusal(state, Ok(c)) is None
        },
        callers_record(c@) == (ChainConfigView {
            endpoint: c@.endpoint,
            proxy: c@.proxy,
            proxy_required: c@.proxy_required,
            timeout_secs: c@.timeout_secs,
            verified_proxy_mode: c@.verified_proxy_mode,
            verified_timeout_secs: c@.verified_timeout_secs,
            source: ConfigSource::External,
        }),
{
}

/// The JSON of a record has every field of it, under its name.
pub proof fn law_a_record_is_shown_in_full(c: ChainConfigView)
    ensures
        ({
            let shown = config_json(c);
            &&& shown is Object
            &&& shown->Object_0.len() == 7
            &&& shown.get("endpoint"@) == Some(JsonView::Text(c.endpoint))
            &&& shown.get("proxy"@) == Some(
                match c.proxy {
                    Some(p) => JsonView::Text(p),
                    None => JsonView::Null,
                },
            )
            &&& shown.get("proxyRequired"@) == Some(JsonView::Bool(c.proxy_required))
            &&& shown.get("timeoutSecs"@) == Some(JsonView::Int(c.timeout_secs as int))
            &&& shown.get("verifiedProxyMode"@) == Some(
                JsonView::Text(
                    match c.verified_proxy_mode {
                        VerifiedProxyMode::Off => "off"@,
                        VerifiedProxyMode::Required => "required"@,
                    },
                ),
            )
            &&& shown.get("verifiedTimeoutSecs"@) == Some(
                JsonView::Int(c.verified_timeout_secs as int),
            )
            &&& shown.get("source"@) == Some(
                JsonView::Text(
                    match c.source {
                        ConfigSource::External => "external"@,
                        ConfigSource::Builtin => "default"@,
                    },
                ),
            )
        }),
{
    reveal_strlit("endpoint");
    reveal_strlit("proxy");
    reveal_strlit("proxyRequired");
    reveal_strlit("timeoutSecs");
    reveal_strlit("verifiedProxyMode");
    reveal_strlit("verifiedTimeoutSecs");
    reveal_strlit("source");
    let shown = config_json(c);
    let members = shown->Object_0;
    assert(members.len() == 7);
    assert(members[0].0.len() == 8 && members[1].0.len() == 5 && members[2].0.len() == 13);
    assert(members[3].0.len() == 11 && members[4].0.len() == 17 && members[5].0.len() == 19);
    assert(members[6].0.len() == 6);
    law_a_key_finds_the_last_member(shown, "endpoint"@, 0);
    law_a_key_finds_the_last_member(shown, "proxy"@, 1);
    law_a_key_finds_the_last_member(shown, "proxyRequired"@, 2);
    law_a_key_finds_the_last_member(shown, "timeoutSecs"@, 3);
    law_a_key_finds_the_last_member(shown, "verifiedProxyMode"@, 4);
    law_a_key_finds_the_last_member(shown, "verifiedTimeoutSecs"@, 5);
    law_a_key_finds_the_last_member(shown, "source"@, 6);
    assert(mode_text(c.verified_proxy_mode) == match c.verified_proxy_mode {
        VerifiedProxyMode::Off => "off"@,
        VerifiedProxyMode::Required => "required"@,
    });
    assert(source_text(c.source) == match c.source {
        ConfigSource::External => "external"@,
        ConfigSource::Builtin => "default"@,
    });
}

/// What is reported of one chain: its record's writer, endpoint and mode, or that it has none.
pub proof fn law_a_chain_is_reported_as_it_is(store: EthRpcView, id: u64)
    ensures
        ({
            let row = store.status_row(id);
            let c = store.chains[id];
            &&& row.get("chainId"@) == Some(JsonView::Int(id as int))
            &&& store.chains.contains_key(id) ==> {
                &&& row->Object_0.len() == 5
                &&& row.get("state"@) == Some(JsonView::Text("configured"@))
                &&& row.get("source"@) == Some(
                    JsonView::Text(
                        match c.source {
                            ConfigSource::External => "external"@,
                            ConfigSource::Builtin => "default"@,
                        },
                    ),
                )
                &&& row.get("endpoint"@) == Some(JsonView::Text(c.endpoint))
                &&& row.get("verifiedProxyMode"@) == Some(
                    JsonView::Text(
                        match c.verified_proxy_mode {
                            VerifiedProxyMode::Off => "off"@,
                            VerifiedProxyMode::Required => "required"@,
                        },
                    ),
                )
            }
            &&& !store.chains.contains_key(id) ==> {
                &&& row->Object_0.len() == 3
                &&& row.get("state"@) == Some(JsonView::Text("unconfigured"@))
                &&& row.get("source"@) == Some(JsonView::Text("none"@))
                &&& row.get("endpoint"@) is None
                &&& row.get("verifiedProxyMode"@) is None
            }
        }),
{
    reveal_strlit("chainId");
    reveal_strlit("state");
    reveal_strlit("source");
    reveal_strlit("endpoint");
    reveal_strlit("verifiedProxyMode");
    let row = store.status_row(id);
    let members = row->Object_0;
    assert(members[0].0.len() == 7 && members[1].0.len() == 5 && members[2].0.len() == 6);
    assert("endpoint"@.len() == 8 && "verifiedProxyMode"@.len() == 17);
    if store.chains.contains_key(id) {
        assert(members.len() == 5);
        assert(members[3].0.len() == 8 && members[4].0.len() == 17);
    } else {
        assert(members.len() == 3);
    }
    law_a_key_finds_the_last_member(row, "chainId"@, 0);
    law_a_key_finds_the_last_member(row, "state"@, 1);
    law_a_key_finds_the_last_member(row, "source"@, 2);
    law_a_key_finds_the_last_member(row, "endpoint"@, 3);
    law_a_key_finds_the_last_member(row, "verifiedProxyMode"@, 4);
}

/// What is reported of the store: a row for every chain that has a record or a built-in endpoint, in the
/// order of the ids; `configured` where any has a record, and `external` where any record is a caller's.
pub proof fn law_a_store_is_reported_as_it_is(store: EthRpcView, id: u64, i: int)
    ensures
        ({
            let shown = store.config_status();
            let ids = ascending(store.reported());
            &&& shown->Object_0.len() == 4
            &&& shown.get("ok"@) == Some(JsonView::Bool(true))
            &&& shown.get("chains"@) is Some
            &&& shown.get("chains"@)->0 is Array
            &&& shown.get("chains"@)->0->Array_0.len() == ids.len()
            &&& 0 <= i < ids.len() ==> shown.get("chains"@)->0->Array_0[i] == store.status_row(
                ids[i],
            )
            &&& store.reported().contains(id) <==> store.chains.contains_key(id) || id == 1 || id
                == 11155111 || id == 560048
            &&& store.chains.contains_key(id) ==> shown.get("state"@) == Some(
                JsonView::Text("configured"@),
            )
            &&& (forall|other: u64| !store.chains.contains_key(other)) ==> {
                &&& shown.get("state"@) == Some(JsonView::Text("unconfigured"@))
                &&& shown.get("source"@) == Some(JsonView::Text("none"@))
            }
            &&& store.chains.contains_key(id) && store.chains[id].source == ConfigSource::External
                ==> shown.get("source"@) == Some(JsonView::Text("external"@))
            &&& store.chains.contains_key(id) && (forall|other: u64| #[trigger]
                store.chains.contains_key(other) ==> store.chains[other].source
                    == ConfigSource::Builtin) ==> shown.get("source"@) == Some(
                JsonView::Text("default"@),
            )
        }),
{
    reveal_strlit("ok");
    reveal_strlit("state");
    reveal_strlit("source");
    reveal_strlit("chains");
    let shown = store.config_status();
    let members = shown->Object_0;
    assert(members.len() == 4);
    assert(members[0].0.len() == 2 && members[1].0.len() == 5);
    assert(members[2].0[0] == 's' && members[3].0[0] == 'c');
    law_a_key_finds_the_last_member(shown, "ok"@, 0);
    law_a_key_finds_the_last_member(shown, "state"@, 1);
    law_a_key_finds_the_last_member(shown, "source"@, 2);
    law_a_key_finds_the_last_member(shown, "chains"@, 3);
    law_three_chains_have_a_builtin_endpoint(id);
    assert(store.chains.contains_key(id) ==> store.configured());
}

/// What a write answers: the fields that were seeded, the mode that was set, or what each chain gained,
/// and whether any did.
pub proof fn law_a_write_answers_what_it_did(
    fields: Seq<Seq<char>>,
    chain_id: i64,
    mode: VerifiedProxyMode,
    report: Seq<(u64, Seq<Seq<char>>)>,
    ids: Seq<u64>,
    i: int,
)
    ensures
        texts_json(fields) is Array,
        texts_json(fields)->Array_0.len() == fields.len(),
        0 <= i < fields.len() ==> texts_json(fields)->Array_0[i] == JsonView::Text(fields[i]),
        ids_json(ids) is Array,
        ids_json(ids)->Array_0.len() == ids.len(),
        0 <= i < ids.len() ==> ids_json(ids)->Array_0[i] == JsonView::Int(ids[i] as int),
        seeded_json(fields).get("ok"@) == Some(JsonView::Bool(true)),
        seeded_json(fields).get("seeded"@) == Some(texts_json(fields)),
        mode_set_json(chain_id, mode).get("ok"@) == Some(JsonView::Bool(true)),
        mode_set_json(chain_id, mode).get("chainId"@) == Some(JsonView::Int(chain_id as int)),
        mode_set_json(chain_id, mode).get("verifiedProxyMode"@) == Some(
            JsonView::Text(mode_text(mode)),
        ),
        report_json(report) is Object,
        report_json(report)->Object_0.len() == report.len(),
        0 <= i < report.len() ==> report_json(report)->Object_0[i] == (
            decimal(report[i].0 as int),
            texts_json(report[i].1),
        ),
        init_json(report).get("ok"@) == Some(JsonView::Bool(true)),
        init_json(report).get("seeded"@) == Some(report_json(report)),
        init_json(report).get("applied"@) == Some(
            JsonView::Bool(
                exists|k: int| 0 <= k < report.len() && (#[trigger] report[k]).1.len() > 0,
            ),
        ),
{
    reveal_strlit("ok");
    reveal_strlit("seeded");
    reveal_strlit("chainId");
    reveal_strlit("verifiedProxyMode");
    reveal_strlit("applied");
    assert("ok"@.len() == 2 && "seeded"@.len() == 6 && "applied"@.len() == 7);
    assert("chainId"@.len() == 7 && "verifiedProxyMode"@.len() == 17);
    law_a_key_finds_the_last_member(seeded_json(fields), "ok"@, 0);
    law_a_key_finds_the_last_member(seeded_json(fields), "seeded"@, 1);
    let set = mode_set_json(chain_id, mode);
    law_a_key_finds_the_last_member(set, "ok"@, 0);
    law_a_key_finds_the_last_member(set, "chainId"@, 1);
    law_a_key_finds_the_last_member(set, "verifiedProxyMode"@, 2);
    let init = init_json(report);
    law_a_key_finds_the_last_member(init, "ok"@, 0);
    law_a_key_finds_the_last_member(init, "applied"@, 1);
    law_a_key_finds_the_last_member(init, "seeded"@, 2);
}

/// The chain that a signed id stands for: the number with the same 64 bits.
pub open spec fn chain_of(chain_id: i64) -> u64 {
    if chain_id >= 0 {
        chain_id as u64
    } else {
        (chain_id + 0x1_0000_0000_0000_0000) as u64
    }
}

/// Whether a module refused before its context was there, and nothing came of it.
pub open spec fn not_there_yet(
    before: ModuleState,
    after: ModuleState,
    text: Seq<char>,
    effects: EffectsView,
) -> bool {
    &&& before@ is None
    &&& after@ is None
    &&& text == json_written(err_json("eth_rpc not initialized (context not ready)"@))
    &&& effects == EffectsView::none()
}

/// A caller's config is stored as it was sent, and the answer says whether it was; what could not be read
/// changes nothing, and neither does anything before the module's context is there.
pub proof fn law_setting_a_config_stores_it(
    m: &mut ModuleState,
    chain_id: i64,
    wire: Option<ChainConfigWire>,
    r: (bool, Effects),
)
    requires
        call_ensures(ModuleState::set_chain_config, (m, chain_id, wire), r),
    ensures
        match (old(m)@, wire) {
            (Some(store), Some(sent)) => {
                let after = store.apply(chain_of(chain_id), sent@);
                let mode = match sent.verified_proxy_mode {
                    Some(named) => named,
                    None => mode_of(store.record(chain_of(chain_id))),
                };
                &&& final(m)@ == Some(after)
                &&& r.0 <==> !(sent.proxy_required && mode == VerifiedProxyMode::Required)
                &&& r.1@ == effects_of(chain_id, store, after)
            },
            _ => final(m)@ == old(m)@ && !r.0 && r.1@ == EffectsView::none(),
        },
{
}

/// Removing a record removes it, and the answer says whether there was one.
pub proof fn law_removing_a_config_removes_it(
    m: &mut ModuleState,
    chain_id: i64,
    r: (bool, Effects),
)
    requires
        call_ensures(ModuleState::remove_chain_config, (m, chain_id), r),
    ensures
        match old(m)@ {
            Some(store) => {
                &&& final(m)@ == Some(store.remove(chain_of(chain_id)))
                &&& r.0 <==> store.chains.contains_key(chain_of(chain_id))
                &&& r.1@ == effects_of(chain_id, store, store.remove(chain_of(chain_id)))
            },
            None => final(m)@ is None && !r.0 && r.1@ == EffectsView::none(),
        },
{
}

/// A caller's seed fills what is lacking and the answer says what; one that is refused changes nothing.
pub proof fn law_a_seed_fills_what_is_lacking(
    m: &mut ModuleState,
    chain_id: i64,
    parsed: Result<ChainConfig, String>,
    r: (String, Effects),
)
    requires
        call_ensures(ModuleState::ensure_chain_config, (m, chain_id, parsed), r),
    ensures
        match ensure_refusal(old(m)@, parsed) {
            Some(why) => {
                &&& r.0@ == json_written(err_json(why))
                &&& r.1@ == EffectsView::none()
                &&& final(m)@ == old(m)@
            },
            None => {
                let store = old(m)@->0;
                let c = callers_record(parsed->Ok_0@);
                let after = store.ensure(chain_of(chain_id), c);
                &&& old(m)@ is Some
                &&& parsed is Ok
                &&& r.0@ == json_written(seeded_json(store.gap(chain_of(chain_id), c).fields()))
                &&& r.1@ == effects_of(chain_id, store, after)
                &&& final(m)@ == Some(after)
            },
        },
{
}

/// Timeouts that are above zero are set, each on its own, and the answer says whether the chain has a
/// record.
pub proof fn law_patching_timeouts_sets_them(
    m: &mut ModuleState,
    chain_id: i64,
    t: i64,
    vt: i64,
    r: (String, Effects),
)
    requires
        call_ensures(ModuleState::patch_chain_transport, (m, chain_id, t, vt), r),
    ensures
        match old(m)@ {
            None => not_there_yet(*old(m), *final(m), r.0@, r.1@),
            Some(store) => {
                let after = store.patch_transport(
                    chain_of(chain_id),
                    if t > 0 {
                        Some(t as u64)
                    } else {
                        None
                    },
                    if vt > 0 {
                        Some(vt as u64)
                    } else {
                        None
                    },
                );
                &&& final(m)@ == Some(after)
                &&& r.1@ == effects_of(chain_id, store, after)
                &&& r.0@ == json_written(
                    empty_object().with(
                        "ok"@,
                        JsonView::Bool(store.chains.contains_key(chain_of(chain_id))),
                    ),
                )
            },
        },
{
}

/// An endpoint is set, and the answer gives it back without the white space around it; white space alone is
/// refused.
pub proof fn law_patching_an_endpoint_sets_it(
    m: &mut ModuleState,
    chain_id: i64,
    endpoint: &str,
    r: (String, Effects),
)
    requires
        call_ensures(ModuleState::patch_chain_endpoint, (m, chain_id, endpoint), r),
    ensures
        all_white(endpoint@) ==> {
            &&& r.0@ == json_written(err_json("endpoint must not be empty"@))
            &&& r.1@ == EffectsView::none()
            &&& final(m)@ == old(m)@
        },
        !all_white(endpoint@) ==> match old(m)@ {
            None => not_there_yet(*old(m), *final(m), r.0@, r.1@),
            Some(store) => {
                let after = store.patch_endpoint(chain_of(chain_id), endpoint@);
                &&& final(m)@ == Some(after)
                &&& r.1@ == effects_of(chain_id, store, after)
                &&& r.0@ == json_written(
                    empty_object().with("ok"@, JsonView::Bool(true)).with(
                        "chainId"@,
                        JsonView::Int(chain_id as int),
                    ).with("endpoint"@, JsonView::Text(trimmed(endpoint@))),
                )
            },
        },
{
    law_a_blank_endpoint_is_white_space(endpoint@);
}

/// A mode that is named is set, or refused in words; a text that names none is refused and changes nothing.
pub proof fn law_setting_a_mode_sets_it(
    m: &mut ModuleState,
    chain_id: i64,
    text: &str,
    r: (String, Effects),
)
    requires
        call_ensures(ModuleState::set_verified_proxy_mode, (m, chain_id, text), r),
    ensures
        ({
            let named = if spells(trimmed(text@), "off"@) {
                Some(VerifiedProxyMode::Off)
            } else if spells(trimmed(text@), "required"@) {
                Some(VerifiedProxyMode::Required)
            } else {
                None
            };
            match (named, old(m)@) {
                (None, _) => {
                    &&& r.0@ == json_written(err_json(unknown_mode(text@)))
                    &&& r.1@ == EffectsView::none()
                    &&& final(m)@ == old(m)@
                },
                (Some(_), None) => not_there_yet(*old(m), *final(m), r.0@, r.1@),
                (Some(mode), Some(store)) => {
                    let after = store.set_mode(chain_of(chain_id), mode);
                    &&& final(m)@ == Some(after)
                    &&& r.1@ == effects_of(chain_id, store, after)
                    &&& r.0@ == json_written(
                        match store.mode_refusal(chain_of(chain_id), mode) {
                            Some(why) => err_json(why),
                            None => mode_set_json(chain_id, mode),
                        },
                    )
                },
            }
        }),
{
    law_a_mode_is_named_in_either_case(text@);
}

/// The built-in endpoints are seeded, and the answer and what follows tell what each chain gained.
pub proof fn law_seeding_the_defaults_tells_what_it_did(m: &mut ModuleState, r: (String, Effects))
    requires
        call_ensures(ModuleState::init_defaults, (m,), r),
    ensures
        match old(m)@ {
            None => {
                &&& r.0@ == json_written(unready_json())
                &&& r.1@ == EffectsView::none()
                &&& final(m)@ is None
            },
            Some(store) => {
                &&& r.0@ == json_written(init_json(store.seed_report()))
                &&& r.1@ == init_effects(store.seed_report())
                &&& final(m)@ == Some(store.init_defaults())
            },
        },
{
}

/// What is shown of a module is what it holds: a chain's record, the chains that have one, the state of each
/// and a chain's mode. It changes nothing.
pub proof fn law_what_is_shown_is_what_is_held(
    m: ModuleState,
    chain_id: i64,
    text: String,
    mode: Result<Option<VerifiedProxyMode>, String>,
)
    ensures
        ({
            let early = json_written(err_json("eth_rpc not initialized (context not ready)"@));
            let id = chain_of(chain_id);
            let yes = empty_object().with("ok"@, JsonView::Bool(true));
            &&& call_ensures(ModuleState::get_chain_config, (&m, chain_id), text) ==> text@
                == match m@ {
                None => early,
                Some(store) => if store.chains.contains_key(id) {
                    json_written(yes.with("config"@, config_json(store.chains[id])))
                } else {
                    json_written(err_json("no config for chain "@ + decimal(chain_id as int)))
                },
            }
            &&& call_ensures(ModuleState::list_chains, (&m,), text) ==> text@ == match m@ {
                None => early,
                Some(store) => json_written(
                    yes.with("chains"@, ids_json(ascending(store.chains.dom()))),
                ),
            }
            &&& call_ensures(ModuleState::config_status, (&m,), text) ==> text@ == match m@ {
                None => json_written(unready_json()),
                Some(store) => json_written(store.config_status()),
            }
            &&& call_ensures(ModuleState::proxy_mode, (&m, chain_id), mode) ==> match (m@, mode) {
                (None, Err(e)) => e@ == early,
                (Some(store), Ok(told)) => if store.chains.contains_key(id) {
                    told == Some(store.chains[id].verified_proxy_mode)
                } else {
                    told is None
                },
                _ => false,
            }
        }),
{
}

/// A module opens with what was saved, and gives out what has to be saved once, whole, where anything was
/// written since.
pub proof fn law_a_module_opens_with_what_it_saved(
    m: &mut ModuleState,
    entries: Vec<(String, ChainConfig)>,
    due: Option<Vec<(String, ChainConfig)>>,
)
    ensures
        call_ensures(ModuleState::on_context_ready, (m, entries), ()) ==> {
            &&& final(m)@ is Some
            &&& final(m)@->0.chains == loaded(entry_views(entries@))
            &&& !final(m)@->0.save_due
        },
        call_ensures(ModuleState::take_save, (m,), due) ==> match old(m)@ {
            None => final(m)@ is None && due is None,
            Some(store) => {
                &&& final(m)@ is Some
                &&& final(m)@->0.chains == store.chains
                &&& !final(m)@->0.save_due
                &&& due is Some <==> store.save_due
                &&& due is Some ==> entry_views(due->0@) == saved(store.chains)
            },
        },
{
}

/// A store's own reads and writes, each as it is stated.
pub proof fn law_a_store_does_what_is_stated(
    rpc: &mut EthRpc,
    store: EthRpc,
    id: u64,
    c: ChainConfig,
    wire: ChainConfigWire,
    endpoint: &str,
    t: Option<u64>,
    vt: Option<u64>,
    mode: VerifiedProxyMode,
    done: Result<(), String>,
    ok: bool,
    fields: Vec<String>,
    found: Option<&ChainConfig>,
    ids: Vec<u64>,
    shown: Json,
    report: Vec<(u64, Vec<String>)>,
    entries: Vec<(String, ChainConfig)>,
    due: Option<Vec<(String, ChainConfig)>>,
    method: &str,
    route: Option<VerifiedClass>,
)
    ensures
        ({
            let before = old(rpc)@;
            let after = final(rpc)@;
            &&& call_ensures(EthRpc::set_chain_config, (rpc, id, c), done) ==> after == before.set(
                id,
                c@,
            ) && (done is Ok <==> !c@.contradictory()) && (done matches Err(e) ==> e@
                == "proxyRequired and verifiedProxyMode=required cannot both be set: the verified proxy makes its own connections and cannot honour a SOCKS proxy configured here"@)
            &&& call_ensures(EthRpc::apply_chain_config, (rpc, id, wire), done) ==> after
                == before.apply(id, wire@) && (done is Ok <==> !before.resolved(
                id,
                wire@,
            ).contradictory()) && (done matches Err(e) ==> e@
                == "proxyRequired and verifiedProxyMode=required cannot both be set: the verified proxy makes its own connections and cannot honour a SOCKS proxy configured here"@)
            &&& call_ensures(EthRpc::ensure_chain_config, (rpc, id, &c), fields) ==> after
                == before.ensure(id, c@) && texts(fields@) == before.gap(id, c@).fields()
            &&& call_ensures(EthRpc::patch_chain_endpoint, (rpc, id, endpoint), ok) ==> after
                == before.patch_endpoint(id, endpoint@) && ok == !all_white(endpoint@)
            &&& call_ensures(EthRpc::patch_chain_transport, (rpc, id, t, vt), ok) ==> after
                == before.patch_transport(id, t, vt) && ok == before.chains.contains_key(id)
            &&& call_ensures(EthRpc::set_verified_proxy_mode, (rpc, id, mode), done) ==> after
                == before.set_mode(id, mode) && (done matches Err(e) ==> before.mode_refusal(
                id,
                mode,
            ) == Some(e@)) && (done is Ok ==> before.mode_refusal(id, mode) is None)
            &&& call_ensures(EthRpc::remove_chain_config, (rpc, id), ok) ==> after == before.remove(
                id,
            ) && ok == before.chains.contains_key(id)
            &&& call_ensures(EthRpc::get_chain_config, (&store, id), found) ==> match found {
                Some(record) => store@.chains.contains_key(id) && record@ == store@.chains[id],
                None => !store@.chains.contains_key(id),
            }
            &&& call_ensures(EthRpc::list_chains, (&store,), ids) ==> lists(
                ids@,
                store@.chains.dom(),
            )
            &&& call_ensures(EthRpc::config_status, (&store,), shown) ==> shown@
                == store@.config_status()
            &&& call_ensures(EthRpc::new, (), store) ==> store@ == EthRpcView::empty()
            &&& call_ensures(EthRpc::with_store, (entries,), store) ==> store@.chains == loaded(
                entry_views(entries@),
            ) && !store@.save_due
            &&& call_ensures(EthRpc::store_entries, (&store,), entries) ==> entry_views(entries@)
                == saved(store@.chains)
            &&& call_ensures(EthRpc::take_save, (rpc,), due) ==> {
                &&& after.chains == before.chains
                &&& !after.save_due
                &&& due is Some <==> before.save_due
                &&& due is Some ==> entry_views(due->0@) == saved(before.chains)
            }
            &&& call_ensures(EthRpc::init_defaults, (rpc,), report) ==> after
                == before.init_defaults() && report_views(report@) == before.seed_report()
            &&& call_ensures(EthRpc::route_of, (&store, id, method), route) ==> route
                == if mode_of(store@.record(id)) == VerifiedProxyMode::Required {
                Some(class_of(method@))
            } else {
                None
            }
        }),
{
    law_a_blank_endpoint_is_white_space(endpoint@);
}

/// What is made of records on their own: the built-in one, a caller's, one that is refused, one that is
/// resolved, what lies between two of them, and what is shown and said of one.
pub proof fn law_records_are_made_as_stated(
    endpoint: &str,
    c: ChainConfig,
    other: ChainConfig,
    wire: ChainConfigWire,
    before: Option<&ChainConfig>,
    after: Option<&ChainConfig>,
    change: ChainChange,
    done: Result<(), String>,
    shown: Json,
    mode: VerifiedProxyMode,
    source: ConfigSource,
    label: &'static str,
    yes: bool,
)
    ensures
        call_ensures(ChainConfig::builtin, (endpoint,), c) ==> c@ == builtin_config(endpoint@),
        call_ensures(ChainConfig::from_caller_json, (other,), c) ==> c@ == callers_record(other@),
        call_ensures(ChainConfig::validate, (&c,), done) ==> match done {
            Ok(()) => !c@.contradictory(),
            Err(e) => c@.contradictory() && e@
                == "proxyRequired and verifiedProxyMode=required cannot both be set: the verified proxy makes its own connections and cannot honour a SOCKS proxy configured here"@,
        },
        call_ensures(ChainConfigWire::resolve, (wire, before), c) ==> {
            &&& c@.endpoint == wire.endpoint@
            &&& c@.proxy == wire@.proxy
            &&& c@.proxy_required == wire.proxy_required
            &&& c@.timeout_secs == wire.timeout_secs
            &&& c@.verified_proxy_mode == match (wire.verified_proxy_mode, before) {
                (Some(mode), _) => mode,
                (None, Some(held)) => held.verified_proxy_mode,
                (None, None) => VerifiedProxyMode::Off,
            }
            &&& c@.verified_timeout_secs == match (wire.verified_timeout_secs, before) {
                (Some(secs), _) => secs,
                (None, Some(held)) => held.verified_timeout_secs,
                (None, None) => 15,
            }
            &&& c@.source == ConfigSource::External
        },
        call_ensures(diff_chain, (before, after), change) ==> change == chain_change(
            opt_config(before),
            opt_config(after),
        ),
        call_ensures(ChainChange::any, (&change,), yes) ==> (yes <==> change.config
            || change.mode is Some),
        call_ensures(ChainConfig::same, (&c, &other), yes) ==> (yes <==> c@ == other@),
        call_ensures(ChainConfig::to_json, (&c,), shown) ==> shown@ == config_json(c@),
        call_ensures(mode_label, (mode,), label) ==> label@ == mode_text(mode),
        call_ensures(source_label, (source,), label) ==> label@ == source_text(source),
{
}

} // verus!
