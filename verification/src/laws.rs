use vstd::prelude::*;

use crate::app::{SwapCommand, WorldSwapApp};
use crate::render_worker::RenderWorkerTarget;
use crate::kvmap::{distinct_keys, KvEntry};
use crate::subapp::{
    command_post, despawn_fold, sync_fold, sync_step, tick_rel, transfer_post, window_compat,
    SwapError, SwapKind, TickOutcome, WorldSwapSubApp,
};
use crate::window_utils::{registry_coherent, WindowEvent};
use crate::world::{WindowEntity, World};

verus! {

/// A transition fails on its slot precondition alone: `Fork` is refused
/// exactly when the background slot is occupied, and `Swap` and `Join`
/// exactly when it is empty, each with its own error; `Pass` has no
/// slot precondition. Stated for commands whose payload can receive the
/// foreground's windows, since a window-incompatible payload is the one
/// other refusal.
pub proof fn lemma_precondition_failures(
    s0: WorldSwapSubApp,
    m0: World,
    command: SwapCommand,
    s1: WorldSwapSubApp,
    m1: World,
    r: Result<(Option<WorldSwapApp>, bool, SwapKind), SwapError>,
)
    requires
        command_post(s0, m0, command, s1, m1, r),
        command matches SwapCommand::Pass(app) ==> window_compat(m0, app.world),
        command matches SwapCommand::Fork(app) ==> window_compat(m0, app.world),
        s0.background.app matches Some(bg) ==> window_compat(m0, bg.world),
    ensures
        command is Fork ==> (r is Err <==> s0.background.app is Some),
        (command is Fork && s0.background.app is Some) ==> (r matches Err(e) && e
            == SwapError::ForkWithOccupiedBackground),
        command is Swap ==> (r is Err <==> s0.background.app is None),
        (command is Swap && s0.background.app is None) ==> (r matches Err(e) && e
            == SwapError::SwapWithEmptyBackground),
        command is Join ==> (r is Err <==> s0.background.app is None),
        (command is Join && s0.background.app is None) ==> (r matches Err(e) && e
            == SwapError::JoinWithEmptyBackground),
        command is Pass ==> r is Ok,
{
}

/// What a tick does after draining the command batch `batch` from its
/// mailbox: only the batch's most recently enqueued command counts.
pub open spec fn tick_batch_rel(
    s0: WorldSwapSubApp,
    m0: World,
    target: Option<RenderWorkerTarget>,
    batch: Seq<SwapCommand>,
    s1: WorldSwapSubApp,
    m1: World,
    result: Result<TickOutcome, SwapError>,
) -> bool {
    tick_rel(
        s0,
        m0,
        target,
        if batch.len() == 0 {
            None
        } else {
            Some(batch.last())
        },
        s1,
        m1,
        result,
    )
}

/// Discard law: enqueuing any number of commands within one tick before
/// the drain produces exactly the effect of the last one — a tick over
/// the whole batch relates the very same states and outcome as a tick
/// over the batch's last command alone. The superseded commands are
/// returned untouched by [`crate::subapp::select_latest`]: their
/// payload worlds are dropped unprepared and unmigrated.
pub proof fn lemma_discard_law(
    s0: WorldSwapSubApp,
    m0: World,
    target: Option<RenderWorkerTarget>,
    batch: Seq<SwapCommand>,
    s1: WorldSwapSubApp,
    m1: World,
    result: Result<TickOutcome, SwapError>,
)
    requires
        batch.len() > 0,
    ensures
        tick_batch_rel(s0, m0, target, batch, s1, m1, result) == tick_batch_rel(
            s0,
            m0,
            target,
            seq![batch.last()],
            s1,
            m1,
            result,
        ),
{
    assert(seq![batch.last()].last() == batch.last());
}

/// The stale-entity pass removes nothing when every registered window
/// id is among the migrated handles.
proof fn lemma_despawn_fold_identity(
    entries: Seq<KvEntry<u64>>,
    w2e: Map<u64, u64>,
    entities: Map<u64, WindowEntity>,
    table: Map<u64, u64>,
)
    requires
        forall|i: int| 0 <= i < entries.len() ==> table.dom().contains(#[trigger] entries[i].value),
    ensures
        despawn_fold(entries, w2e, entities, table) == (w2e, entities),
    decreases entries.len(),
{
    if entries.len() > 0 {
        lemma_despawn_fold_identity(entries.drop_last(), w2e, entities, table);
    }
}

/// The synchronize pass over an empty incoming world: one fresh entity
/// is spawned per migrated handle, in allocation order, carrying the
/// outgoing entity's window data unchanged; each outgoing entity loses
/// its native-handle marker and nothing else changes.
proof fn lemma_sync_fold_spawns(
    entries: Seq<KvEntry<u64>>,
    st0: (Map<u64, u64>, Map<u64, WindowEntity>, Map<u64, WindowEntity>, u64, Seq<WindowEvent>),
    main_w2e: Map<u64, u64>,
)
    requires
        distinct_keys(entries),
        st0.0 == Map::<u64, u64>::empty(),
        st0.1 == Map::<u64, WindowEntity>::empty(),
        forall|i: int| 0 <= i < entries.len() ==> main_w2e.dom().contains(#[trigger] entries[i].key),
        forall|i: int| 0 <= i < entries.len() ==> st0.2.dom().contains(
            main_w2e[#[trigger] entries[i].key],
        ),
        forall|i: int, j: int| 0 <= i < j < entries.len() ==> main_w2e[#[trigger] entries[i].key]
            != main_w2e[#[trigger] entries[j].key],
        st0.3 + entries.len() <= u64::MAX,
    ensures
        ({
            let st = sync_fold(entries, st0, main_w2e);
            &&& st.3 == st0.3 + entries.len()
            &&& forall|wid: u64| #[trigger] st.0.dom().contains(wid) <==> exists|i: int|
                0 <= i < entries.len() && entries[i].key == wid
            &&& forall|i: int| 0 <= i < entries.len() ==> st.0[#[trigger] entries[i].key] == st0.3
                + i
            &&& forall|e: u64| #[trigger] st.1.dom().contains(e) <==> st0.3 <= e < st0.3
                + entries.len()
            &&& forall|i: int| 0 <= i < entries.len() ==> st.1[(st0.3 + i) as u64] == st0.2[
                main_w2e[#[trigger] entries[i].key]
            ]
            &&& st.2.dom() == st0.2.dom()
            &&& forall|i: int| 0 <= i < entries.len() ==> st.2[main_w2e[#[trigger] entries[i].key]]
                == (WindowEntity {
                has_raw_handle: false,
                ..st0.2[main_w2e[entries[i].key]]
            })
            &&& forall|me: u64| st.2.dom().contains(me) && !(exists|i: int|
                0 <= i < entries.len() && main_w2e[#[trigger] entries[i].key] == me)
                ==> #[trigger] st.2[me] == st0.2[me]
        }),
    decreases entries.len(),
{
    if entries.len() > 0 {
        let prefix = entries.drop_last();
        lemma_sync_fold_spawns(prefix, st0, main_w2e);
        let prev = sync_fold(prefix, st0, main_w2e);
        let wid = entries.last().key;
        let me = main_w2e[wid];
        assert(!prev.0.dom().contains(wid)) by {
            if prev.0.dom().contains(wid) {
                let i = choose|i: int| 0 <= i < prefix.len() && prefix[i].key == wid;
                assert(entries[i].key == entries[entries.len() - 1].key);
            }
        }
        assert(!(exists|i: int| 0 <= i < prefix.len() && main_w2e[#[trigger] prefix[i].key] == me))
            by {
            if exists|i: int| 0 <= i < prefix.len() && main_w2e[#[trigger] prefix[i].key] == me {
                let i = choose|i: int| 0 <= i < prefix.len() && main_w2e[prefix[i].key] == me;
                assert(main_w2e[entries[i].key] != main_w2e[entries[entries.len() - 1].key]);
            }
        }
        assert(prev.2.dom().contains(me));
        assert(prev.2[me] == st0.2[me]);
        let st = sync_fold(entries, st0, main_w2e);
        assert(st == sync_step(prev, wid, main_w2e));
        assert forall|w: u64| #[trigger] st.0.dom().contains(w) implies exists|i: int|
            0 <= i < entries.len() && entries[i].key == w by {
            if w == wid {
                assert(entries[entries.len() - 1].key == w);
            } else {
                let i = choose|i: int| 0 <= i < prefix.len() && prefix[i].key == w;
                assert(entries[i].key == w);
            }
        }
        assert forall|w: u64| (exists|i: int| 0 <= i < entries.len() && entries[i].key == w)
            implies #[trigger] st.0.dom().contains(w) by {
            let i = choose|i: int| 0 <= i < entries.len() && entries[i].key == w;
            if i < entries.len() - 1 {
                assert(prefix[i].key == w);
                assert(exists|j: int| 0 <= j < prefix.len() && prefix[j].key == w);
                assert(prev.0.dom().contains(w));
            } else {
                assert(w == wid);
            }
        }
        assert forall|i: int| 0 <= i < entries.len() implies st.0[#[trigger] entries[i].key]
            == st0.3 + i by {
            if i < entries.len() - 1 {
                assert(prefix[i].key == entries[i].key);
                assert(entries[i].key != wid);
            }
        }
        assert forall|i: int| 0 <= i < entries.len() implies st.1[(st0.3 + i) as u64] == st0.2[
            main_w2e[#[trigger] entries[i].key]
        ] by {
            if i < entries.len() - 1 {
                assert(prefix[i] == entries[i]);
                assert(prev.1[(st0.3 + i) as u64] == st0.2[main_w2e[entries[i].key]]);
            }
        }
        assert forall|i: int| 0 <= i < entries.len() implies st.2[main_w2e[#[trigger] entries[i].key]]
            == (WindowEntity {
            has_raw_handle: false,
            ..st0.2[main_w2e[entries[i].key]]
        }) by {
            if i < entries.len() - 1 {
                assert(prefix[i] == entries[i]);
                assert(main_w2e[entries[i].key] != me);
            }
        }
        assert forall|e: u64| #[trigger] st.1.dom().contains(e) implies st0.3 <= e < st0.3
            + entries.len() by {
            if e != prev.3 {
                assert(prev.1.dom().contains(e));
            }
        }
        assert forall|e: u64| st0.3 <= e < st0.3 + entries.len() implies #[trigger] st.1.dom().contains(
            e,
        ) by {
            if e < st0.3 + prefix.len() {
                assert(prev.1.dom().contains(e));
            } else {
                assert(e == prev.3);
            }
        }
        assert forall|m: u64|
            st.2.dom().contains(m) && !(exists|i: int|
                0 <= i < entries.len() && main_w2e[#[trigger] entries[i].key] == m) implies #[trigger] st.2[m]
            == st0.2[m] by {
            assert(main_w2e[entries[entries.len() - 1].key] == me);
            assert(m != me);
            assert(!(exists|i: int| 0 <= i < prefix.len() && main_w2e[#[trigger] prefix[i].key]
                == m)) by {
                if exists|i: int| 0 <= i < prefix.len() && main_w2e[#[trigger] prefix[i].key]
                    == m {
                    let i = choose|i: int|
                        0 <= i < prefix.len() && main_w2e[prefix[i].key] == m;
                    assert(main_w2e[entries[i].key] == m);
                }
            }
        }
    }
}

/// The synchronize pass into a world that already registers every
/// migrated handle: no entity is spawned and no id is allocated; each
/// incoming entity takes the outgoing entity's configuration, handle
/// marker and primary marker, keeping its own configuration snapshot;
/// and each outgoing entity loses its native-handle marker.
proof fn lemma_sync_fold_updates(
    entries: Seq<KvEntry<u64>>,
    st0: (Map<u64, u64>, Map<u64, WindowEntity>, Map<u64, WindowEntity>, u64, Seq<WindowEvent>),
    main_w2e: Map<u64, u64>,
)
    requires
        distinct_keys(entries),
        forall|i: int| 0 <= i < entries.len() ==> main_w2e.dom().contains(#[trigger] entries[i].key),
        forall|i: int| 0 <= i < entries.len() ==> st0.2.dom().contains(
            main_w2e[#[trigger] entries[i].key],
        ),
        forall|i: int, j: int| 0 <= i < j < entries.len() ==> main_w2e[#[trigger] entries[i].key]
            != main_w2e[#[trigger] entries[j].key],
        forall|i: int| 0 <= i < entries.len() ==> st0.0.dom().contains(#[trigger] entries[i].key),
        forall|i: int| 0 <= i < entries.len() ==> st0.1.dom().contains(
            st0.0[#[trigger] entries[i].key],
        ),
        forall|i: int, j: int| 0 <= i < j < entries.len() ==> st0.0[#[trigger] entries[i].key]
            != st0.0[#[trigger] entries[j].key],
    ensures
        ({
            let st = sync_fold(entries, st0, main_w2e);
            &&& st.0 == st0.0
            &&& st.3 == st0.3
            &&& st.4 == st0.4
            &&& st.1.dom() == st0.1.dom()
            &&& forall|i: int| 0 <= i < entries.len() ==> st.1[st0.0[#[trigger] entries[i].key]]
                == (WindowEntity {
                config: st0.2[main_w2e[entries[i].key]].config,
                cached_config: st0.1[st0.0[entries[i].key]].cached_config,
                has_raw_handle: st0.2[main_w2e[entries[i].key]].has_raw_handle,
                is_primary: st0.2[main_w2e[entries[i].key]].is_primary,
            })
            &&& forall|ne: u64| st.1.dom().contains(ne) && !(exists|i: int|
                0 <= i < entries.len() && st0.0[#[trigger] entries[i].key] == ne)
                ==> #[trigger] st.1[ne] == st0.1[ne]
            &&& st.2.dom() == st0.2.dom()
            &&& forall|i: int| 0 <= i < entries.len() ==> st.2[main_w2e[#[trigger] entries[i].key]]
                == (WindowEntity {
                has_raw_handle: false,
                ..st0.2[main_w2e[entries[i].key]]
            })
            &&& forall|me: u64| st.2.dom().contains(me) && !(exists|i: int|
                0 <= i < entries.len() && main_w2e[#[trigger] entries[i].key] == me)
                ==> #[trigger] st.2[me] == st0.2[me]
        }),
    decreases entries.len(),
{
    if entries.len() > 0 {
        let prefix = entries.drop_last();
        lemma_sync_fold_updates(prefix, st0, main_w2e);
        let prev = sync_fold(prefix, st0, main_w2e);
        let wid = entries.last().key;
        let me = main_w2e[wid];
        let ne = st0.0[wid];
        assert(!(exists|i: int| 0 <= i < prefix.len() && main_w2e[#[trigger] prefix[i].key] == me))
            by {
            if exists|i: int| 0 <= i < prefix.len() && main_w2e[#[trigger] prefix[i].key] == me {
                let i = choose|i: int| 0 <= i < prefix.len() && main_w2e[prefix[i].key] == me;
                assert(main_w2e[entries[i].key] != main_w2e[entries[entries.len() - 1].key]);
            }
        }
        assert(!(exists|i: int| 0 <= i < prefix.len() && st0.0[#[trigger] prefix[i].key] == ne))
            by {
            if exists|i: int| 0 <= i < prefix.len() && st0.0[#[trigger] prefix[i].key] == ne {
                let i = choose|i: int| 0 <= i < prefix.len() && st0.0[prefix[i].key] == ne;
                assert(st0.0[entries[i].key] != st0.0[entries[entries.len() - 1].key]);
            }
        }
        assert(prev.2[me] == st0.2[me]);
        assert(prev.1[ne] == st0.1[ne]);
        assert(prev.0.dom().contains(wid));
        let st = sync_fold(entries, st0, main_w2e);
        assert(st == sync_step(prev, wid, main_w2e));
        assert forall|i: int| 0 <= i < entries.len() implies st.1[st0.0[#[trigger] entries[i].key]]
            == (WindowEntity {
            config: st0.2[main_w2e[entries[i].key]].config,
            cached_config: st0.1[st0.0[entries[i].key]].cached_config,
            has_raw_handle: st0.2[main_w2e[entries[i].key]].has_raw_handle,
            is_primary: st0.2[main_w2e[entries[i].key]].is_primary,
        }) by {
            if i < entries.len() - 1 {
                assert(prefix[i] == entries[i]);
                assert(st0.0[entries[i].key] != ne);
            }
        }
        assert forall|i: int| 0 <= i < entries.len() implies st.2[main_w2e[#[trigger] entries[i].key]]
            == (WindowEntity {
            has_raw_handle: false,
            ..st0.2[main_w2e[entries[i].key]]
        }) by {
            if i < entries.len() - 1 {
                assert(prefix[i] == entries[i]);
                assert(main_w2e[entries[i].key] != me);
            }
        }
    }
}

/// A world whose window bookkeeping is internally consistent: its
/// registry's indices are mutual inverses, the handle table and the
/// forward index cover the same window ids, and every registered
/// entity is tracked in the entity store.
pub open spec fn windows_coherent(w: World) -> bool {
    match w.windows {
        Option::Some(reg) => {
            &&& reg.windows.inv()
            &&& reg.window_to_entity.inv()
            &&& reg.entity_to_window.inv()
            &&& w.window_entities.inv()
            &&& registry_coherent(reg)
            &&& reg.windows@.dom() == reg.window_to_entity@.dom()
            &&& forall|wid: u64| #[trigger] reg.window_to_entity@.dom().contains(wid)
                ==> w.window_entities@.dom().contains(reg.window_to_entity@[wid])
        },
        Option::None => false,
    }
}

/// A world with a window registry and nothing in it: no handles, no
/// index entries, no window entities.
pub open spec fn windowless_world(w: World) -> bool {
    match w.windows {
        Option::Some(reg) => {
            &&& reg.windows.entries() == Seq::<KvEntry<u64>>::empty()
            &&& reg.window_to_entity@ == Map::<u64, u64>::empty()
            &&& reg.entity_to_window.entries() == Seq::<KvEntry<u64>>::empty()
            &&& w.window_entities@ == Map::<u64, WindowEntity>::empty()
        },
        Option::None => false,
    }
}

/// Window round trip: migrating a coherent world X's windows into an
/// empty world Y, then migrating the resulting set back from Y into X,
/// leaves Y with no windows, returns every native handle to X, and
/// leaves X's window entities exactly as they were — configuration,
/// configuration snapshot, handle marker and primary marker included.
#[verifier::rlimit(100)]
pub proof fn lemma_window_round_trip(
    x0: World,
    y0: World,
    x1: World,
    y1: World,
    x2: World,
    y2: World,
)
    requires
        windows_coherent(x0),
        windowless_world(y0),
        x0.windows matches Some(xreg) ==> y0.next_entity + xreg.windows.entries().len()
            <= u64::MAX,
        transfer_post(x0, y0, x1, y1),
        transfer_post(y1, x1, y2, x2),
    ensures
        y2.windows matches Some(yreg2) && yreg2.windows@ == Map::<u64, u64>::empty(),
        x2.window_entities@ == x0.window_entities@,
        (x2.windows matches Some(xreg2) && x0.windows matches Some(xreg0) && xreg2.windows@
            == xreg0.windows@),
{
    reveal(transfer_post);
    let xreg = x0.windows.unwrap();
    let yreg = y0.windows.unwrap();
    let table = xreg.windows;
    let x_w2e = xreg.window_to_entity@;
    table.lemma_entries();
    xreg.window_to_entity.lemma_entries();
    xreg.entity_to_window.lemma_entries();

    // First migration: X's handles spawn fresh entities in empty Y.
    let entries = table.entries();
    let n = entries.len();
    let next0 = y0.next_entity;
    assert forall|i: int| 0 <= i < n implies x_w2e.dom().contains(#[trigger] entries[i].key) by {
        assert(table@.dom().contains(entries[i].key));
    }
    assert forall|i: int, j: int| 0 <= i < j < n implies x_w2e[#[trigger] entries[i].key] != x_w2e[
        #[trigger] entries[j].key
    ] by {
        assert(table@.dom().contains(entries[i].key));
        assert(table@.dom().contains(entries[j].key));
        assert(xreg.entity_to_window@[x_w2e[entries[i].key]] == entries[i].key);
        assert(xreg.entity_to_window@[x_w2e[entries[j].key]] == entries[j].key);
    }
    let st0_1 = (
        Map::<u64, u64>::empty(),
        Map::<u64, WindowEntity>::empty(),
        x0.window_entities@,
        next0,
        y0.events@,
    );
    lemma_sync_fold_spawns(entries, st0_1, x_w2e);
    let st1 = sync_fold(entries, st0_1, x_w2e);
    let d1 = despawn_fold(
        yreg.entity_to_window.entries(),
        yreg.window_to_entity@,
        y0.window_entities@,
        table@,
    );
    assert(d1 == (yreg.window_to_entity@, y0.window_entities@));
    assert(y1.window_entities@ == st1.1);
    assert(x1.window_entities@ == st1.2);
    let yreg1 = y1.windows.unwrap();
    let xreg1 = x1.windows.unwrap();
    assert(yreg1.windows.entries() == entries);
    assert(yreg1.window_to_entity@ == st1.0);
    assert(xreg1.window_to_entity == xreg.window_to_entity);
    assert(xreg1.entity_to_window == xreg.entity_to_window);
    assert(y1.next_entity == st1.3);

    // Second migration: every handle already has an entity in X, so
    // each X entity is updated in place with its original data.
    assert forall|i: int| 0 <= i < xreg.entity_to_window.entries().len() implies table@.dom().contains(
        #[trigger] xreg.entity_to_window.entries()[i].value,
    ) by {
        let e = xreg.entity_to_window.entries()[i].key;
        assert(xreg.entity_to_window@.dom().contains(e));
        assert(xreg.entity_to_window@[e] == xreg.entity_to_window.entries()[i].value);
        assert(x_w2e.dom().contains(xreg.entity_to_window@[e]));
    }
    lemma_despawn_fold_identity(
        xreg.entity_to_window.entries(),
        xreg.window_to_entity@,
        x1.window_entities@,
        table@,
    );
    let st0_2 = (x_w2e, st1.2, st1.1, x1.next_entity, x1.events@);
    assert forall|i: int| 0 <= i < n implies st1.0.dom().contains(#[trigger] entries[i].key) by {
        assert(exists|j: int| 0 <= j < n && entries[j].key == entries[i].key);
    }
    assert forall|i: int| 0 <= i < n implies st1.1.dom().contains(
        st1.0[#[trigger] entries[i].key],
    ) by {
        assert(st1.0[entries[i].key] == next0 + i);
    }
    assert forall|i: int, j: int| 0 <= i < j < n implies st1.0[#[trigger] entries[i].key] != st1.0[
        #[trigger] entries[j].key
    ] by {
        assert(st1.0[entries[i].key] == next0 + i);
        assert(st1.0[entries[j].key] == next0 + j);
    }
    assert forall|i: int| 0 <= i < n implies st0_2.1.dom().contains(
        st0_2.0[#[trigger] entries[i].key],
    ) by {
        assert(x0.window_entities@.dom().contains(x_w2e[entries[i].key]));
    }
    lemma_sync_fold_updates(entries, st0_2, st1.0);
    let st2 = sync_fold(entries, st0_2, st1.0);
    assert(x2.window_entities@ == st2.1);

    // X's entities come back exactly as they were.
    assert forall|e: u64| #[trigger] st2.1.dom().contains(e) implies st2.1[e]
        == x0.window_entities@[e] by {
        if exists|i: int| 0 <= i < n && st0_2.0[#[trigger] entries[i].key] == e {
            let i = choose|i: int| 0 <= i < n && st0_2.0[#[trigger] entries[i].key] == e;
            let wid = entries[i].key;
            let me = st1.0[wid];
            assert(me == next0 + i);
            assert(st1.1[me] == x0.window_entities@[x_w2e[wid]]);
            assert(st1.2[e] == (WindowEntity {
                has_raw_handle: false,
                ..x0.window_entities@[x_w2e[wid]]
            }));
            let v0 = x0.window_entities@[e];
            assert(st2.1[e] == (WindowEntity {
                config: v0.config,
                cached_config: v0.cached_config,
                has_raw_handle: v0.has_raw_handle,
                is_primary: v0.is_primary,
            }));
        } else {
            assert(st2.1[e] == st1.2[e]);
            assert(st1.2[e] == x0.window_entities@[e]);
        }
    }
    assert(st2.1 =~= x0.window_entities@);
}

} // verus!
