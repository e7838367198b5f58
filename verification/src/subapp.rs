use vstd::prelude::*;

use crate::app::{
    new_command_channel, try_recv_command, RenderSubApp, SwapCommand, SwapCommandReceiver,
    SwapCommandSender, WorldSwapApp, WorldSwapStatus,
};
use crate::kvmap::{KvEntry, KvMap};
use crate::plugins::{BackgroundTickRate, WorldSwapPlugin};
use crate::render_worker::{RenderWorkerId, RenderWorkerTarget};
use crate::window_utils::{dispatched_events, WindowEvent, WindowRegistry, WindowTheme};
use crate::world::{WindowEntity, World};

verus! {

// ---------------------------------------------------------------------
// Window migration
// ---------------------------------------------------------------------

/// The stale-entity pass of window migration, walking the incoming
/// world's reverse index: an entity whose external window id is not in
/// the migrated handle table `table` is despawned and unregistered from
/// the forward index. Returns the forward index and the entity store
/// after the pass.
pub open spec fn despawn_fold(
    entries: Seq<KvEntry<u64>>,
    w2e: Map<u64, u64>,
    entities: Map<u64, WindowEntity>,
    table: Map<u64, u64>,
) -> (Map<u64, u64>, Map<u64, WindowEntity>)
    decreases entries.len(),
{
    if entries.len() == 0 {
        (w2e, entities)
    } else {
        let rest = despawn_fold(entries.drop_last(), w2e, entities, table);
        let e = entries.last().key;
        let wid = entries.last().value;
        if table.dom().contains(wid) {
            rest
        } else {
            (rest.0.remove(wid), rest.1.remove(e))
        }
    }
}

/// One live handle processed by the synchronize pass of window
/// migration. The state is (incoming forward index, incoming entities,
/// outgoing entities, incoming fresh-entity counter, incoming inbox).
///
/// A handle whose outgoing entity cannot be found is skipped. Otherwise
/// the native handle is taken from the outgoing entity, and the incoming
/// world either updates its existing entity in place or spawns a fresh
/// one, registers it, and synthesizes a window-created notification.
pub open spec fn sync_step(
    st: (Map<u64, u64>, Map<u64, WindowEntity>, Map<u64, WindowEntity>, u64, Seq<WindowEvent>),
    wid: u64,
    main_w2e: Map<u64, u64>,
) -> (Map<u64, u64>, Map<u64, WindowEntity>, Map<u64, WindowEntity>, u64, Seq<WindowEvent>) {
    if !main_w2e.dom().contains(wid) {
        st
    } else {
        let me = main_w2e[wid];
        if !st.2.dom().contains(me) {
            st
        } else {
            let mv = st.2[me];
            let main_entities = st.2.insert(me, WindowEntity { has_raw_handle: false, ..mv });
            if st.0.dom().contains(wid) {
                let ne = st.0[wid];
                let cached = if st.1.dom().contains(ne) {
                    st.1[ne].cached_config
                } else {
                    mv.cached_config
                };
                (
                    st.0,
                    st.1.insert(
                        ne,
                        WindowEntity {
                            config: mv.config,
                            cached_config: cached,
                            has_raw_handle: mv.has_raw_handle,
                            is_primary: mv.is_primary,
                        },
                    ),
                    main_entities,
                    st.3,
                    st.4,
                )
            } else if st.3 == u64::MAX {
                (st.0, st.1, main_entities, st.3, st.4)
            } else {
                let ne = st.3;
                (
                    st.0.insert(wid, ne),
                    st.1.insert(
                        ne,
                        WindowEntity {
                            config: mv.config,
                            cached_config: mv.cached_config,
                            has_raw_handle: mv.has_raw_handle,
                            is_primary: mv.is_primary,
                        },
                    ),
                    main_entities,
                    (st.3 + 1) as u64,
                    st.4.push(WindowEvent::Created { window: ne }),
                )
            }
        }
    }
}

/// The synchronize pass over the migrated handle table.
pub open spec fn sync_fold(
    entries: Seq<KvEntry<u64>>,
    st: (Map<u64, u64>, Map<u64, WindowEntity>, Map<u64, WindowEntity>, u64, Seq<WindowEvent>),
    main_w2e: Map<u64, u64>,
) -> (Map<u64, u64>, Map<u64, WindowEntity>, Map<u64, WindowEntity>, u64, Seq<WindowEvent>)
    decreases entries.len(),
{
    if entries.len() == 0 {
        st
    } else {
        sync_step(sync_fold(entries.drop_last(), st, main_w2e), entries.last().key, main_w2e)
    }
}

/// Remaps an entity-keyed auxiliary table through the id correspondence
/// of a migration: an entry keyed by an outgoing entity is re-keyed to
/// the incoming entity bound to the same external window id, and is
/// dropped when that window no longer exists in the incoming world.
pub open spec fn remap_fold(entries: Seq<KvEntry<u64>>, a_e2w: Map<u64, u64>, b_w2e: Map<u64, u64>) -> Map<
    u64,
    u64,
>
    decreases entries.len(),
{
    if entries.len() == 0 {
        Map::empty()
    } else {
        let rest = remap_fold(entries.drop_last(), a_e2w, b_w2e);
        let e = entries.last().key;
        let token = entries.last().value;
        if a_e2w.dom().contains(e) && b_w2e.dom().contains(a_e2w[e]) {
            rest.insert(b_w2e[a_e2w[e]], token)
        } else {
            rest
        }
    }
}

/// The incoming world may receive the outgoing world's windows: it must
/// have a registry whenever the outgoing world has one, and its own
/// handle table must be empty, since a world that is not foreground may
/// not create windows.
pub open spec fn window_compat(main: World, incoming: World) -> bool {
    main.windows is Some ==> match incoming.windows {
        Option::Some(reg) => reg.windows.entries().len() == 0,
        Option::None => false,
    }
}

/// Full description of one window migration from `m0` (outgoing) and
/// `n0` (incoming) to `m1` and `n1`.
///
/// The accessibility toggle is always shared. Without an outgoing
/// registry nothing else happens. Otherwise the handle table moves
/// wholesale; the incoming world despawns its stale window entities,
/// then synchronizes an entity per live handle ([`sync_step`]); the
/// incoming reverse index is rebuilt as an inverse of its forward index;
/// and the auxiliary entity-keyed tables move over re-keyed through the
/// id correspondence ([`remap_fold`]). The outgoing world keeps its
/// entities and indices, but its handle table is emptied and its
/// migrated entities lose their native-handle marker: handles are
/// relocated, never duplicated.
#[verifier::opaque]
pub open spec fn transfer_post(m0: World, n0: World, m1: World, n1: World) -> bool {
    let n0a = World { has_accessibility: n0.has_accessibility || m0.has_accessibility, ..n0 };
    match m0.windows {
        Option::None => m1 == m0 && n1 == n0a,
        Option::Some(mreg) => match n0.windows {
            Option::None => true,
            Option::Some(nreg0) => {
                let table = mreg.windows;
                let d = despawn_fold(
                    nreg0.entity_to_window.entries(),
                    nreg0.window_to_entity@,
                    n0.window_entities@,
                    table@,
                );
                let st = sync_fold(
                    table.entries(),
                    (d.0, d.1, m0.window_entities@, n0.next_entity, n0.events@),
                    mreg.window_to_entity@,
                );
                &&& (match m1.windows {
                    Option::Some(mreg1) => {
                        &&& mreg1.windows@ == Map::<u64, u64>::empty()
                        &&& mreg1.windows.entries() == Seq::<KvEntry<u64>>::empty()
                        &&& mreg1.window_to_entity == mreg.window_to_entity
                        &&& mreg1.entity_to_window == mreg.entity_to_window
                    },
                    Option::None => false,
                })
                &&& m1.window_entities@ == st.2
                &&& m1.access_bindings@ == Map::<u64, u64>::empty()
                &&& m1.action_handlers@ == Map::<u64, u64>::empty()
                &&& (World {
                    windows: m0.windows,
                    window_entities: m0.window_entities,
                    access_bindings: m0.access_bindings,
                    action_handlers: m0.action_handlers,
                    ..m1
                }) == m0
                &&& (match n1.windows {
                    Option::Some(nreg1) => {
                        &&& nreg1.windows@ == table@
                        &&& nreg1.windows.entries() == table.entries()
                        &&& nreg1.window_to_entity@ == st.0
                        &&& forall|e: u64| #[trigger] nreg1.entity_to_window@.dom().contains(e)
                            ==> st.0.dom().contains(nreg1.entity_to_window@[e])
                                && st.0[nreg1.entity_to_window@[e]] == e
                        &&& forall|wid: u64| #[trigger] st.0.dom().contains(wid)
                            ==> nreg1.entity_to_window@.dom().contains(st.0[wid])
                    },
                    Option::None => false,
                })
                &&& n1.window_entities@ == st.1
                &&& n1.next_entity == st.3
                &&& n1.events@ == st.4
                &&& n1.access_bindings@ == remap_fold(
                    m0.access_bindings.entries(),
                    mreg.entity_to_window@,
                    st.0,
                )
                &&& n1.action_handlers@ == remap_fold(
                    m0.action_handlers.entries(),
                    mreg.entity_to_window@,
                    st.0,
                )
                &&& (World {
                    windows: n0.windows,
                    window_entities: n0.window_entities,
                    next_entity: n0.next_entity,
                    events: n0.events,
                    access_bindings: n0.access_bindings,
                    action_handlers: n0.action_handlers,
                    ..n1
                }) == n0a
            },
        },
    }
}

/// The stale-entity pass: walks the incoming reverse index and despawns
/// every incoming window entity whose handle did not migrate.
#[verifier::loop_isolation(false)]
fn despawn_pass(nreg: &mut WindowRegistry, entities: &mut KvMap<WindowEntity>, table: &KvMap<u64>)
    ensures
        (final(nreg).window_to_entity@, final(entities)@) == despawn_fold(
            old(nreg).entity_to_window.entries(),
            old(nreg).window_to_entity@,
            old(entities)@,
            table@,
        ),
        final(nreg).entity_to_window == old(nreg).entity_to_window,
        final(nreg).windows == old(nreg).windows,
{
    let ghost e2w0 = nreg.entity_to_window;
    let ghost w2e0 = nreg.window_to_entity@;
    let ghost ents0 = entities@;
    let n = nreg.entity_to_window.len();
    let mut i: usize = 0;
    while i < n
        invariant
            0 <= i <= n,
            (nreg.window_to_entity@, entities@) == despawn_fold(
                e2w0.entries().take(i as int),
                w2e0,
                ents0,
                table@,
            ),
            nreg.entity_to_window == e2w0,
            nreg.windows == old(nreg).windows,
        decreases n - i,
    {
        let (e, wid) = nreg.entity_to_window.entry_at(i);
        if !table.contains_key(wid) {
            nreg.window_to_entity.remove(wid);
            entities.remove(e);
        }
        proof {
            assert(e2w0.entries().take(i + 1).drop_last() =~= e2w0.entries().take(i as int));
            assert(e2w0.entries().take(i + 1).last() == e2w0.entries()[i as int]);
        }
        i += 1;
    }
    proof {
        assert(e2w0.entries().take(n as int) =~= e2w0.entries());
    }
}

/// The synchronize pass: for each migrated handle, takes the native
/// handle off the outgoing entity and updates or spawns the incoming
/// world's entity for it, as [`sync_step`] describes.
#[verifier::loop_isolation(false)]
#[verifier::rlimit(60)]
fn sync_pass(
    mreg: &WindowRegistry,
    nreg: &mut WindowRegistry,
    main_entities: &mut KvMap<WindowEntity>,
    new: &mut World,
    table: &KvMap<u64>,
)
    ensures
        (
            final(nreg).window_to_entity@,
            final(new).window_entities@,
            final(main_entities)@,
            final(new).next_entity,
            final(new).events@,
        ) == sync_fold(
            table.entries(),
            (
                old(nreg).window_to_entity@,
                old(new).window_entities@,
                old(main_entities)@,
                old(new).next_entity,
                old(new).events@,
            ),
            mreg.window_to_entity@,
        ),
        final(nreg).entity_to_window == old(nreg).entity_to_window,
        final(nreg).windows == old(nreg).windows,
        *final(new) == (World {
            window_entities: final(new).window_entities,
            next_entity: final(new).next_entity,
            events: final(new).events,
            ..*old(new)
        }),
{
    let ghost st0 = (
        nreg.window_to_entity@,
        new.window_entities@,
        main_entities@,
        new.next_entity,
        new.events@,
    );
    let ghost m_w2e = mreg.window_to_entity@;
    let n = table.len();
    let mut j: usize = 0;
    while j < n
        invariant
            0 <= j <= n,
            (
                nreg.window_to_entity@,
                new.window_entities@,
                main_entities@,
                new.next_entity,
                new.events@,
            ) == sync_fold(table.entries().take(j as int), st0, m_w2e),
            nreg.entity_to_window == old(nreg).entity_to_window,
            nreg.windows == old(nreg).windows,
            *new == (World {
                window_entities: new.window_entities,
                next_entity: new.next_entity,
                events: new.events,
                ..*old(new)
            }),
        decreases n - j,
    {
        let (wid, _handle) = table.entry_at(j);
        if let Some(me) = mreg.window_to_entity.get(wid) {
            if let Some(mv) = main_entities.get(me) {
                // Take the native handle off the outgoing entity so the
                // outgoing world can render once more without windows.
                main_entities.insert(me, WindowEntity { has_raw_handle: false, ..mv });
                if let Some(ne) = nreg.window_to_entity.get(wid) {
                    let cached = match new.window_entities.get(ne) {
                        Option::Some(nv) => nv.cached_config,
                        Option::None => mv.cached_config,
                    };
                    new.window_entities.insert(
                        ne,
                        WindowEntity {
                            config: mv.config,
                            cached_config: cached,
                            has_raw_handle: mv.has_raw_handle,
                            is_primary: mv.is_primary,
                        },
                    );
                } else {
                    if let Some(ne) = new.alloc_entity() {
                        new.window_entities.insert(
                            ne,
                            WindowEntity {
                                config: mv.config,
                                cached_config: mv.cached_config,
                                has_raw_handle: mv.has_raw_handle,
                                is_primary: mv.is_primary,
                            },
                        );
                        nreg.window_to_entity.insert(wid, ne);
                        // The ordinary window-creation path is bypassed,
                        // so synthesize the notification.
                        new.events.push(WindowEvent::Created { window: ne });
                    }
                }
            }
        }
        proof {
            assert(table.entries().take(j + 1).drop_last() =~= table.entries().take(j as int));
            assert(table.entries().take(j + 1).last() == table.entries()[j as int]);
        }
        j += 1;
    }
    proof {
        assert(table.entries().take(n as int) =~= table.entries());
    }
}

/// Rebuilds the reverse index as an inverse of the forward index.
#[verifier::loop_isolation(false)]
fn rebuild_pass(nreg: &mut WindowRegistry)
    ensures
        final(nreg).window_to_entity == old(nreg).window_to_entity,
        final(nreg).windows == old(nreg).windows,
        forall|e: u64| #[trigger] final(nreg).entity_to_window@.dom().contains(e)
            ==> old(nreg).window_to_entity@.dom().contains(final(nreg).entity_to_window@[e])
                && old(nreg).window_to_entity@[final(nreg).entity_to_window@[e]] == e,
        forall|wid: u64| #[trigger] old(nreg).window_to_entity@.dom().contains(wid)
            ==> final(nreg).entity_to_window@.dom().contains(old(nreg).window_to_entity@[wid]),
{
    nreg.entity_to_window.clear();
    let ghost w2e = nreg.window_to_entity;
    proof {
        use_type_invariant(&nreg.window_to_entity);
        w2e.lemma_entries();
    }
    let n = nreg.window_to_entity.len();
    let mut k: usize = 0;
    while k < n
        invariant
            0 <= k <= n,
            nreg.window_to_entity == w2e,
            nreg.windows == old(nreg).windows,
            forall|e: u64| #[trigger] nreg.entity_to_window@.dom().contains(e)
                ==> w2e@.dom().contains(nreg.entity_to_window@[e])
                    && w2e@[nreg.entity_to_window@[e]] == e,
            forall|l: int| 0 <= l < k ==> nreg.entity_to_window@.dom().contains(
                #[trigger] w2e.entries()[l].value,
            ),
        decreases n - k,
    {
        let (wid, e) = nreg.window_to_entity.entry_at(k);
        nreg.entity_to_window.insert(e, wid);
        k += 1;
    }
    proof {
        assert forall|wid: u64| #[trigger] w2e@.dom().contains(wid)
            implies nreg.entity_to_window@.dom().contains(w2e@[wid]) by {
            let l = choose|l: int| 0 <= l < w2e.entries().len() && w2e.entries()[l].key == wid;
            assert(w2e.entries()[l].value == w2e@[wid]);
        }
    }
}

/// Re-keys an entity-keyed auxiliary table through the id
/// correspondence of a migration, as [`remap_fold`] describes.
#[verifier::loop_isolation(false)]
fn remap_table(src: &KvMap<u64>, a_e2w: &KvMap<u64>, b_w2e: &KvMap<u64>) -> (r: KvMap<u64>)
    ensures
        r@ == remap_fold(src.entries(), a_e2w@, b_w2e@),
{
    let mut remapped: KvMap<u64> = KvMap::new();
    let n = src.len();
    let mut i: usize = 0;
    while i < n
        invariant
            0 <= i <= n,
            remapped@ == remap_fold(src.entries().take(i as int), a_e2w@, b_w2e@),
        decreases n - i,
    {
        let (e, token) = src.entry_at(i);
        if let Some(wid) = a_e2w.get(e) {
            if let Some(ne) = b_w2e.get(wid) {
                remapped.insert(ne, token);
            }
        }
        proof {
            assert(src.entries().take(i + 1).drop_last() =~= src.entries().take(i as int));
            assert(src.entries().take(i + 1).last() == src.entries()[i as int]);
        }
        i += 1;
    }
    proof {
        assert(src.entries().take(n as int) =~= src.entries());
    }
    remapped
}


/// Packages the facts established by the migration passes into
/// [`transfer_post`].
#[verifier::rlimit(100)]
#[verifier::spinoff_prover]
proof fn lemma_transfer_post_intro(
    m0: World,
    n0: World,
    m1: World,
    n1: World,
    mreg_init: WindowRegistry,
    nreg_init: WindowRegistry,
)
    requires
        m0.windows == Some(mreg_init),
        n0.windows == Some(nreg_init),
        ({
            let n0a = World { has_accessibility: n0.has_accessibility || m0.has_accessibility, ..n0 };
            let d = despawn_fold(
                nreg_init.entity_to_window.entries(),
                nreg_init.window_to_entity@,
                n0.window_entities@,
                mreg_init.windows@,
            );
            let st = sync_fold(
                mreg_init.windows.entries(),
                (d.0, d.1, m0.window_entities@, n0.next_entity, n0.events@),
                mreg_init.window_to_entity@,
            );
            &&& (m1.windows matches Some(mreg1) && {
                &&& mreg1.windows@ == Map::<u64, u64>::empty()
                &&& mreg1.windows.entries() == Seq::<KvEntry<u64>>::empty()
                &&& mreg1.window_to_entity == mreg_init.window_to_entity
                &&& mreg1.entity_to_window == mreg_init.entity_to_window
            })
            &&& m1.window_entities@ == st.2
            &&& m1.access_bindings@ == Map::<u64, u64>::empty()
            &&& m1.action_handlers@ == Map::<u64, u64>::empty()
            &&& (World {
                windows: m0.windows,
                window_entities: m0.window_entities,
                access_bindings: m0.access_bindings,
                action_handlers: m0.action_handlers,
                ..m1
            }) == m0
            &&& (n1.windows matches Some(nreg1) && {
                &&& nreg1.windows@ == mreg_init.windows@
                &&& nreg1.windows.entries() == mreg_init.windows.entries()
                &&& nreg1.window_to_entity@ == st.0
                &&& forall|e: u64| #[trigger] nreg1.entity_to_window@.dom().contains(e)
                    ==> st.0.dom().contains(nreg1.entity_to_window@[e])
                        && st.0[nreg1.entity_to_window@[e]] == e
                &&& forall|wid: u64| #[trigger] st.0.dom().contains(wid)
                    ==> nreg1.entity_to_window@.dom().contains(st.0[wid])
            })
            &&& n1.window_entities@ == st.1
            &&& n1.next_entity == st.3
            &&& n1.events@ == st.4
            &&& n1.access_bindings@ == remap_fold(
                m0.access_bindings.entries(),
                mreg_init.entity_to_window@,
                st.0,
            )
            &&& n1.action_handlers@ == remap_fold(
                m0.action_handlers.entries(),
                mreg_init.entity_to_window@,
                st.0,
            )
            &&& (World {
                windows: n0.windows,
                window_entities: n0.window_entities,
                next_entity: n0.next_entity,
                events: n0.events,
                access_bindings: n0.access_bindings,
                action_handlers: n0.action_handlers,
                ..n1
            }) == n0a
        }),
    ensures
        transfer_post(m0, n0, m1, n1),
{
    reveal(transfer_post);
}

/// Moves live window-handle ownership from the outgoing world's registry
/// into the incoming world's and synchronizes the incoming world's
/// window entities with the migrated handles, as [`transfer_post`]
/// describes.
#[verifier::rlimit(100)]
pub fn transfer_windows(main: &mut World, new: &mut World)
    requires
        window_compat(*old(main), *old(new)),
    ensures
        transfer_post(*old(main), *old(new), *final(main), *final(new)),
{
    // The accessibility toggle is embedded in nodes of existing windows,
    // so the incoming world must use the same one.
    if main.has_accessibility {
        new.has_accessibility = true;
    }

    let mut mreg_opt: Option<WindowRegistry> = None;
    core::mem::swap(&mut main.windows, &mut mreg_opt);
    let mut mreg = match mreg_opt {
        Option::None => {
            proof {
                reveal(transfer_post);
            }
            return ;
        },
        Option::Some(r) => r,
    };
    let mut nreg_opt: Option<WindowRegistry> = None;
    core::mem::swap(&mut new.windows, &mut nreg_opt);
    let mut nreg = match nreg_opt {
        Option::None => vstd::pervasive::unreached(),
        Option::Some(r) => r,
    };
    let ghost mreg_init = mreg;
    let ghost nreg_init = nreg;

    // Move the handle table wholesale out of the outgoing registry.
    let mut table: KvMap<u64> = KvMap::new();
    core::mem::swap(&mut mreg.windows, &mut table);

    // Despawn incoming window entities whose handle did not migrate.
    despawn_pass(&mut nreg, &mut new.window_entities, &table);
    let ghost d = despawn_fold(
        nreg_init.entity_to_window.entries(),
        nreg_init.window_to_entity@,
        old(new).window_entities@,
        mreg_init.windows@,
    );
    proof {
        assert((nreg.window_to_entity@, new.window_entities@) == d);
    }

    // Synchronize an incoming window entity for each migrated handle.
    sync_pass(&mreg, &mut nreg, &mut main.window_entities, new, &table);
    let ghost st = sync_fold(
        mreg_init.windows.entries(),
        (d.0, d.1, old(main).window_entities@, old(new).next_entity, old(new).events@),
        mreg_init.window_to_entity@,
    );
    proof {
        assert((
            nreg.window_to_entity@,
            new.window_entities@,
            main.window_entities@,
            new.next_entity,
            new.events@,
        ) == st);
    }

    // Rebuild the incoming reverse index from the forward index.
    rebuild_pass(&mut nreg);
    proof {
        assert(nreg.window_to_entity@ == st.0);
        assert(forall|e: u64| #[trigger] nreg.entity_to_window@.dom().contains(e)
            ==> st.0.dom().contains(nreg.entity_to_window@[e])
                && st.0[nreg.entity_to_window@[e]] == e);
        assert(forall|wid: u64| #[trigger] st.0.dom().contains(wid)
            ==> nreg.entity_to_window@.dom().contains(st.0[wid]));
    }

    // Re-key the auxiliary per-window tables through the correspondence.
    let new_access = remap_table(&main.access_bindings, &mreg.entity_to_window, &nreg.window_to_entity);
    main.access_bindings.clear();
    new.access_bindings = new_access;
    let new_handlers = remap_table(&main.action_handlers, &mreg.entity_to_window, &nreg.window_to_entity);
    main.action_handlers.clear();
    new.action_handlers = new_handlers;

    // Return the registries; the migrated handle table now belongs to
    // the incoming registry.
    nreg.windows = table;
    main.windows = Some(mreg);
    new.windows = Some(nreg);

    proof {
        let m0 = *old(main);
        let n0 = *old(new);
        assert(m0.windows == Some(mreg_init));
        assert(n0.windows == Some(nreg_init));
        lemma_transfer_post_intro(m0, n0, *main, *new, mreg_init, nreg_init);
    }
}

// ---------------------------------------------------------------------
// Event-cache drain and the prepare step
// ---------------------------------------------------------------------

/// Full description of draining the outgoing world's window-event cache
/// into the incoming world, after a migration reconciled entity ids.
pub open spec fn drain_post(m0: World, n0: World, m1: World, n1: World) -> bool {
    match m0.windows {
        Option::None => m1 == m0 && n1 == n0,
        Option::Some(mreg) => match n0.windows {
            Option::None => true,
            Option::Some(nreg) => {
                &&& m1.event_cache.backend_scale_factor_events@ == Map::<u64, u64>::empty()
                &&& m1.event_cache.scale_factor_events@ == Map::<u64, u64>::empty()
                &&& m1.event_cache.theme_events@ == Map::<u64, WindowTheme>::empty()
                &&& (World { event_cache: m0.event_cache, ..m1 }) == m0
                &&& n1.events@ == n0.events@ + dispatched_events(m0.event_cache, mreg, nreg)
                &&& (World { events: n0.events, ..n1 }) == n0
            },
        },
    }
}

/// Drains the outgoing world's cached window events into the incoming
/// world's inbox, remapping window entities through the two registries.
/// Without an outgoing registry the cache is left in place.
pub fn drain_cached_window_events(main: &mut World, new: &mut World)
    requires
        old(main).windows is Some ==> old(new).windows is Some,
    ensures
        drain_post(*old(main), *old(new), *final(main), *final(new)),
{
    let mut mreg_opt: Option<WindowRegistry> = None;
    core::mem::swap(&mut main.windows, &mut mreg_opt);
    let mreg = match mreg_opt {
        Option::None => {
            return ;
        },
        Option::Some(r) => r,
    };
    let mut nreg_opt: Option<WindowRegistry> = None;
    core::mem::swap(&mut new.windows, &mut nreg_opt);
    let nreg = match nreg_opt {
        Option::None => vstd::pervasive::unreached(),
        Option::Some(r) => r,
    };

    main.event_cache.dispatch(&mreg, &nreg, &mut new.events);

    main.windows = Some(mreg);
    new.windows = Some(nreg);
}

/// Resource migration before a world exchange: the incoming world gets a
/// command-sender handle; it inherits the event-loop handle and the
/// platform settings only where it lacks its own; then the windows
/// migrate, and only then the cached window events, so that entity
/// identities are already reconciled.
/// The incoming world after the flag-propagation step of the prepare
/// stage: it can send commands, and it inherits the event-loop handle
/// and the platform settings only where it lacks its own.
pub open spec fn prepared_flags(m0: World, n0: World) -> World {
    World {
        has_command_sender: true,
        has_event_loop_proxy: n0.has_event_loop_proxy || m0.has_event_loop_proxy,
        has_platform_settings: n0.has_platform_settings || m0.has_platform_settings,
        ..n0
    }
}

pub open spec fn prepare_post(m0: World, n0: World, m1: World, n1: World) -> bool {
    exists|m_mid: World, n_mid: World| {
        &&& #[trigger] transfer_post(m0, prepared_flags(m0, n0), m_mid, n_mid)
        &&& drain_post(m_mid, n_mid, m1, n1)
    }
}

/// Prepares the incoming world to become foreground, as [`prepare_post`]
/// describes.
pub fn prepare_world_swap(main: &mut World, new: &mut World)
    requires
        window_compat(*old(main), *old(new)),
    ensures
        prepare_post(*old(main), *old(new), *final(main), *final(new)),
{
    // The incoming world must be able to send swap commands of its own.
    new.has_command_sender = true;
    // Connect the incoming world to the platform event loop.
    if !new.has_event_loop_proxy && main.has_event_loop_proxy {
        new.has_event_loop_proxy = true;
    }
    // Never overwrite platform settings the incoming world chose itself.
    if main.has_platform_settings && !new.has_platform_settings {
        new.has_platform_settings = true;
    }

    transfer_windows(main, new);
    let ghost m_mid = *main;
    let ghost n_mid = *new;
    proof {
        reveal(transfer_post);
    }
    drain_cached_window_events(main, new);
    proof {
        let m0 = *old(main);
        let n0 = *old(new);
        assert(transfer_post(m0, prepared_flags(m0, n0), m_mid, n_mid));
        assert(drain_post(m_mid, n_mid, *main, *new));
        assert(prepare_post(m0, n0, *main, *new));
    }
}

// ---------------------------------------------------------------------
// Orchestrator state
// ---------------------------------------------------------------------

/// Data that travels with whichever world is currently foreground,
/// stored outside the world itself: its render stage, its background
/// tick policy, and its outbound timing-signal handle.
#[derive(Debug, Copy, Clone, Eq, PartialEq, Structural)]
pub struct ForegroundApp {
    pub render_app: Option<RenderSubApp>,
    pub background_tick_rate: Option<BackgroundTickRate>,
    pub has_time_sender: bool,
}

/// Holder of at most one suspended or ticking background world.
#[derive(Debug)]
pub struct BackgroundApp {
    pub app: Option<WorldSwapApp>,
}

/// Whether the orchestrator is still running or already unwinding after
/// an escalated background shutdown.
#[derive(Debug, Copy, Clone, Eq, PartialEq, Structural)]
pub enum WorldSwapSubAppState {
    Running,
    Exiting,
}

/// A fatal precondition violation: programmer misuse that the embedding
/// should treat as unrecoverable.
#[derive(Debug, Copy, Clone, Eq, PartialEq, Structural)]
pub enum SwapError {
    /// `Fork` was issued while the background slot was occupied.
    ForkWithOccupiedBackground,
    /// `Swap` was issued while the background slot was empty.
    SwapWithEmptyBackground,
    /// `Join` was issued while the background slot was empty.
    JoinWithEmptyBackground,
    /// The incoming world has no window registry although the foreground
    /// has one.
    MissingWindowRegistry,
    /// The incoming world already owns native window handles, although
    /// only the foreground world may create windows.
    ForeignWindows,
}

/// Which transition a tick applied.
#[derive(Debug, Copy, Clone, Eq, PartialEq, Structural)]
pub enum SwapKind {
    Pass,
    Fork,
    Swap,
    Join,
}

/// What happened to the render pipeline during a tick.
#[derive(Debug, Copy, Clone, Eq, PartialEq, Structural)]
pub enum RenderAction {
    /// The foreground's render stage was extracted and run.
    Extracted,
    /// Extraction was deferred — a previous world's pipeline job is
    /// still draining — and a timing pulse was sent instead.
    TimeSent,
    /// Nothing was extracted and no timing sender is attached.
    Skipped,
}

/// What one orchestrator tick did.
#[derive(Debug)]
pub struct TickOutcome {
    /// The transition that was applied, if a command was found.
    pub applied: Option<SwapKind>,
    /// The world displaced by a `Pass` or `Join` when the matching
    /// recovery hook is installed: handed to the embedding exactly once,
    /// with full ownership.
    pub recovered: Option<WorldSwapApp>,
    /// What happened to the render pipeline.
    pub render: RenderAction,
    /// How many superseded commands the mailbox drain discarded.
    pub discarded: u64,
    /// Whether a foreground shutdown signal was converted into an
    /// implicit `Join`.
    pub intercepted_exit: bool,
}

/// The swap orchestrator: configuration, the command mailbox, the
/// foreground context, and the background slot. Driven once per tick by
/// [`WorldSwapSubApp::world_swap_extract`].
pub struct WorldSwapSubApp {
    /// The orchestrator's configuration.
    pub config: WorldSwapPlugin,
    /// Context of the current foreground world.
    pub foreground: ForegroundApp,
    /// The background slot.
    pub background: BackgroundApp,
    /// Running, or unwinding after an escalated background shutdown.
    pub state: WorldSwapSubAppState,
}

// ---------------------------------------------------------------------
// Small helpers
// ---------------------------------------------------------------------

/// A world's effective background tick policy: its own, or the default.
pub open spec fn spec_background_tick_rate(
    default_tick_rate: BackgroundTickRate,
    background_tick_rate_of_app: Option<BackgroundTickRate>,
) -> BackgroundTickRate {
    match background_tick_rate_of_app {
        Option::Some(rate) => rate,
        Option::None => default_tick_rate,
    }
}

/// A world's effective background tick policy: its own, or the default.
pub fn get_background_tick_rate(
    default_tick_rate: BackgroundTickRate,
    background_tick_rate_of_app: Option<BackgroundTickRate>,
) -> (r: BackgroundTickRate)
    ensures
        r == spec_background_tick_rate(default_tick_rate, background_tick_rate_of_app),
{
    match background_tick_rate_of_app {
        Option::Some(rate) => rate,
        Option::None => default_tick_rate,
    }
}

/// Whether the effective policy freezes a world's clock while it is
/// backgrounded.
pub open spec fn spec_freeze_time(
    default_tick_rate: BackgroundTickRate,
    background_tick_rate_of_app: Option<BackgroundTickRate>,
) -> bool {
    match spec_background_tick_rate(default_tick_rate, background_tick_rate_of_app) {
        BackgroundTickRate::Never { freeze_time } => freeze_time,
        BackgroundTickRate::EveryTick => false,
    }
}

/// Whether the effective policy freezes a world's clock while it is
/// backgrounded.
fn freeze_time_in_background(
    default_tick_rate: BackgroundTickRate,
    background_tick_rate_of_app: Option<BackgroundTickRate>,
) -> (r: bool)
    ensures
        r == spec_freeze_time(default_tick_rate, background_tick_rate_of_app),
{
    let rate = get_background_tick_rate(default_tick_rate, background_tick_rate_of_app);
    match rate {
        BackgroundTickRate::Never { freeze_time } => freeze_time,
        BackgroundTickRate::EveryTick => false,
    }
}

/// Whether the foreground's render stage may be extracted: only when no
/// worker occupies the pipeline, or the occupant is the foreground
/// world's own worker — at most one job is in flight at a time.
pub open spec fn spec_can_render(target: Option<RenderWorkerTarget>, main: World) -> bool {
    match target {
        Option::None => false,
        Option::Some(t) => t.spec_id() == RenderWorkerId(u64::MAX) || t.spec_id() == RenderWorkerId(
            main.id,
        ),
    }
}

/// Whether the foreground's render stage may be extracted this tick.
fn can_render(target: &Option<RenderWorkerTarget>, main_world: &World) -> (r: bool)
    ensures
        r == spec_can_render(*target, *main_world),
{
    match target {
        Option::None => false,
        Option::Some(t) => {
            let id = t.id();
            let sentinel = RenderWorkerId(u64::MAX);
            id == sentinel || id == RenderWorkerId(main_world.id)
        },
    }
}

// ---------------------------------------------------------------------
// The world exchange and the background slot
// ---------------------------------------------------------------------

/// A backgrounded world taken out of the slot for the foreground: its
/// clock is unpaused exactly when the tick policy paused it.
pub open spec fn unpaused_app(bg: WorldSwapApp) -> WorldSwapApp {
    WorldSwapApp {
        world: World { time_paused: bg.world.time_paused && !bg.paused_by_tick_policy, ..bg.world },
        paused_by_tick_policy: false,
        ..bg
    }
}

/// A world placed into the background slot: its status becomes
/// `Background`, and its clock is paused when the effective policy says
/// to freeze time — unless the world had paused it itself.
pub open spec fn backgrounded_app(app: WorldSwapApp, config: WorldSwapPlugin) -> WorldSwapApp {
    let freeze = spec_freeze_time(config.background_tick_rate, app.background_tick_rate);
    WorldSwapApp {
        world: World {
            status: WorldSwapStatus::Background,
            time_paused: app.world.time_paused || freeze,
            ..app.world
        },
        paused_by_tick_policy: freeze && !app.world.time_paused,
        ..app
    }
}

/// Exchanges the foreground world with the incoming one: the worlds
/// swap, and the render stage, tick policy and timing handles move
/// between the incoming wrapper and the foreground context. Returns the
/// outgoing world, suspended, with its timing receiver cached.
fn swap_worlds(fg: &mut ForegroundApp, main_world: &mut World, new_app: WorldSwapApp) -> (prev: WorldSwapApp)
    ensures
        *final(main_world) == (World {
            status: WorldSwapStatus::Foreground,
            has_time_receiver: new_app.world.has_time_receiver || new_app.has_time_receiver,
            ..new_app.world
        }),
        *final(fg) == (ForegroundApp {
            render_app: new_app.render_app,
            background_tick_rate: new_app.background_tick_rate,
            has_time_sender: new_app.has_time_sender,
        }),
        prev == (WorldSwapApp {
            world: (World {
                status: WorldSwapStatus::Suspended,
                has_time_receiver: false,
                ..*old(main_world)
            }),
            background_tick_rate: old(fg).background_tick_rate,
            paused_by_tick_policy: new_app.paused_by_tick_policy,
            has_time_receiver: old(main_world).has_time_receiver,
            has_time_sender: old(fg).has_time_sender,
            render_app: old(fg).render_app,
        }),
{
    let mut new_app = new_app;
    core::mem::swap(main_world, &mut new_app.world);

    // Exchange background tick policies.
    let incoming_rate = new_app.background_tick_rate;
    new_app.background_tick_rate = fg.background_tick_rate;
    fg.background_tick_rate = incoming_rate;

    // Exchange timing senders.
    let incoming_sender = new_app.has_time_sender;
    new_app.has_time_sender = fg.has_time_sender;
    fg.has_time_sender = incoming_sender;

    // The incoming world receives its cached timing receiver; the
    // outgoing world's receiver is cached in its wrapper.
    if new_app.has_time_receiver {
        main_world.has_time_receiver = true;
    }
    new_app.has_time_receiver = new_app.world.has_time_receiver;
    new_app.world.has_time_receiver = false;

    // Exchange render stages.
    let incoming_render = new_app.render_app;
    new_app.render_app = fg.render_app;
    fg.render_app = incoming_render;

    // Update statuses.
    main_world.status = WorldSwapStatus::Foreground;
    new_app.world.status = WorldSwapStatus::Suspended;

    new_app
}

impl WorldSwapSubApp {
    /// Sets up the orchestrator around the initial foreground world:
    /// creates the command mailbox, hands the world a sender, takes
    /// custody of its render stage and timing sender, and gives it the
    /// default background tick policy. Returns the orchestrator with
    /// the two ends of the mailbox; the receiver must be handed back to
    /// every [`WorldSwapSubApp::world_swap_extract`] call.
    pub fn new(config: WorldSwapPlugin, main_world: &mut World) -> (r: (
        Self,
        SwapCommandSender,
        SwapCommandReceiver,
    ))
        ensures
            *final(main_world) == (World {
                status: WorldSwapStatus::Foreground,
                has_command_sender: true,
                has_time_sender: false,
                render_app: None,
                ..*old(main_world)
            }),
            r.0.config == config,
            r.0.foreground == (ForegroundApp {
                render_app: old(main_world).render_app,
                background_tick_rate: Some(config.background_tick_rate),
                has_time_sender: old(main_world).has_time_sender,
            }),
            r.0.background.app is None,
            r.0.state is Running,
    {
        let (sender, receiver) = new_command_channel();
        main_world.status = WorldSwapStatus::Foreground;
        main_world.has_command_sender = true;
        let render_app = main_world.render_app;
        main_world.render_app = None;
        let has_time_sender = main_world.has_time_sender;
        main_world.has_time_sender = false;
        let subapp = WorldSwapSubApp {
            config,
            foreground: ForegroundApp {
                render_app,
                background_tick_rate: Some(config.background_tick_rate),
                has_time_sender,
            },
            background: BackgroundApp { app: None },
            state: WorldSwapSubAppState::Running,
        };
        (subapp, sender, receiver)
    }

    /// Takes the background world out of its slot, unpausing its clock
    /// if the tick policy had paused it.
    fn take_background_app(&mut self) -> (r: Option<WorldSwapApp>)
        ensures
            old(self).background.app is None ==> r is None && *final(self) == *old(self),
            old(self).background.app matches Some(bg) ==> r == Some(unpaused_app(bg))
                && final(self).background.app is None && final(self).config == old(self).config
                && final(self).foreground == old(self).foreground && final(self).state == old(
                self,
            ).state,
    {
        let mut taken: Option<WorldSwapApp> = None;
        core::mem::swap(&mut self.background.app, &mut taken);
        match taken {
            Option::None => None,
            Option::Some(mut bg) => {
                if bg.paused_by_tick_policy {
                    bg.world.time_paused = false;
                    bg.paused_by_tick_policy = false;
                }
                Some(bg)
            },
        }
    }

    /// Places a world into the empty background slot, applying the
    /// effective freeze-time policy.
    fn add_app_to_background(&mut self, background_app: WorldSwapApp)
        requires
            old(self).background.app is None,
        ensures
            final(self).background.app == Some(backgrounded_app(background_app, old(self).config)),
            final(self).config == old(self).config,
            final(self).foreground == old(self).foreground,
            final(self).state == old(self).state,
    {
        let mut app = background_app;
        app.world.status = WorldSwapStatus::Background;
        app.paused_by_tick_policy = false;
        if freeze_time_in_background(self.config.background_tick_rate, app.background_tick_rate) {
            if !app.world.time_paused {
                app.world.time_paused = true;
                app.paused_by_tick_policy = true;
            }
        }
        self.background.app = Some(app);
    }
}

// ---------------------------------------------------------------------
// The four transitions
// ---------------------------------------------------------------------

/// The effect every transition has on the foreground slot: the incoming
/// world is prepared ([`prepare_post`]), then exchanged with the
/// outgoing one; the foreground context afterwards carries the incoming
/// world's render stage, tick policy and timing sender; and `prev` is
/// the outgoing world, suspended, wrapped together with the context
/// that had travelled with it.
pub open spec fn swap_applied(
    s0: WorldSwapSubApp,
    m0: World,
    incoming: WorldSwapApp,
    fg1: ForegroundApp,
    m1: World,
    prev: WorldSwapApp,
) -> bool {
    exists|m_mid: World, n_mid: World| {
        &&& #[trigger] prepare_post(m0, incoming.world, m_mid, n_mid)
        &&& m1 == (World {
            status: WorldSwapStatus::Foreground,
            has_time_receiver: n_mid.has_time_receiver || incoming.has_time_receiver,
            ..n_mid
        })
        &&& fg1 == (ForegroundApp {
            render_app: incoming.render_app,
            background_tick_rate: incoming.background_tick_rate,
            has_time_sender: incoming.has_time_sender,
        })
        &&& prev == (WorldSwapApp {
            world: (World {
                status: WorldSwapStatus::Suspended,
                has_time_receiver: false,
                ..m_mid
            }),
            background_tick_rate: s0.foreground.background_tick_rate,
            paused_by_tick_policy: incoming.paused_by_tick_policy,
            has_time_receiver: m_mid.has_time_receiver,
            has_time_sender: s0.foreground.has_time_sender,
            render_app: s0.foreground.render_app,
        })
    }
}

/// A `Pass`: the incoming world replaces the foreground; the outgoing
/// world goes to the embedding's recovery hook when one is installed,
/// and is dropped otherwise. The background slot is untouched.
pub open spec fn pass_post(
    s0: WorldSwapSubApp,
    m0: World,
    app: WorldSwapApp,
    s1: WorldSwapSubApp,
    m1: World,
    recovered: Option<WorldSwapApp>,
    extracted: bool,
) -> bool {
    &&& extracted == (s0.foreground.render_app is Some)
    &&& m1.status is Foreground
    &&& s1.config == s0.config
    &&& s1.state == s0.state
    &&& s1.background == s0.background
    &&& (recovered matches Some(a) ==> a.world.status is Suspended)
    &&& exists|prev: WorldSwapApp| {
        &&& #[trigger] swap_applied(s0, m0, app, s1.foreground, m1, prev)
        &&& recovered == if s0.config.swap_pass_recovery {
            Some(prev)
        } else {
            None::<WorldSwapApp>
        }
    }
}

/// A `Fork`: the incoming world replaces the foreground and the
/// outgoing world is placed into the empty background slot under the
/// effective tick policy.
pub open spec fn fork_post(
    s0: WorldSwapSubApp,
    m0: World,
    app: WorldSwapApp,
    s1: WorldSwapSubApp,
    m1: World,
    extracted: bool,
) -> bool {
    &&& extracted == (s0.foreground.render_app is Some)
    &&& m1.status is Foreground
    &&& s1.config == s0.config
    &&& s1.state == s0.state
    &&& (s1.background.app matches Some(b) && b.world.status is Background)
    &&& exists|prev: WorldSwapApp| {
        &&& #[trigger] swap_applied(s0, m0, app, s1.foreground, m1, prev)
        &&& s1.background.app == Some(backgrounded_app(prev, s0.config))
    }
}

/// A `Swap`: the background world — unpaused if the tick policy had
/// paused it — replaces the foreground, and the outgoing world takes
/// its place in the background slot.
pub open spec fn swap_post(
    s0: WorldSwapSubApp,
    m0: World,
    s1: WorldSwapSubApp,
    m1: World,
    extracted: bool,
) -> bool {
    s0.background.app matches Some(bg) && {
        &&& extracted == (s0.foreground.render_app is Some)
        &&& m1.status is Foreground
        &&& s1.config == s0.config
        &&& s1.state == s0.state
        &&& (s1.background.app matches Some(b) && b.world.status is Background)
        &&& exists|prev: WorldSwapApp| {
            &&& #[trigger] swap_applied(s0, m0, unpaused_app(bg), s1.foreground, m1, prev)
            &&& s1.background.app == Some(backgrounded_app(prev, s0.config))
        }
    }
}

/// A `Join`: the background world — unpaused if the tick policy had
/// paused it — replaces the foreground; the slot empties, and the
/// outgoing world goes to the join-recovery hook when one is installed.
pub open spec fn join_post(
    s0: WorldSwapSubApp,
    m0: World,
    s1: WorldSwapSubApp,
    m1: World,
    recovered: Option<WorldSwapApp>,
    extracted: bool,
) -> bool {
    s0.background.app matches Some(bg) && {
        &&& extracted == (s0.foreground.render_app is Some)
        &&& m1.status is Foreground
        &&& s1.config == s0.config
        &&& s1.state == s0.state
        &&& s1.background.app is None
        &&& (recovered matches Some(a) ==> a.world.status is Suspended)
        &&& exists|prev: WorldSwapApp| {
            &&& #[trigger] swap_applied(s0, m0, unpaused_app(bg), s1.foreground, m1, prev)
            &&& recovered == if s0.config.swap_join_recovery {
                Some(prev)
            } else {
                None::<WorldSwapApp>
            }
        }
    }
}

impl WorldSwapSubApp {
    /// Applies a `Pass`: prepares the incoming world, forces one last
    /// render extraction of the outgoing foreground, exchanges the two,
    /// and hands the outgoing world to the pass-recovery hook if one is
    /// installed.
    fn apply_pass(&mut self, main_world: &mut World, new_app: WorldSwapApp) -> (r: (
        Option<WorldSwapApp>,
        bool,
    ))
        requires
            window_compat(*old(main_world), new_app.world),
        ensures
            pass_post(*old(self), *old(main_world), new_app, *final(self), *final(main_world), r.0, r.1),
    {
        let mut incoming = new_app;
        prepare_world_swap(main_world, &mut incoming.world);
        let ghost m_mid = *main_world;
        let ghost n_mid = incoming.world;
        // Force-render the outgoing foreground after its windows were
        // removed, so its final frame reflects pre-swap state.
        let extracted = self.foreground.render_app.is_some();
        let prev = swap_worlds(&mut self.foreground, main_world, incoming);
        proof {
            assert(prepare_post(*old(main_world), new_app.world, m_mid, n_mid));
            assert(swap_applied(*old(self), *old(main_world), new_app, self.foreground, *main_world, prev));
        }
        let recovered = if self.config.swap_pass_recovery {
            Some(prev)
        } else {
            None
        };
        (recovered, extracted)
    }

    /// Applies a `Fork`: as a `Pass`, but the outgoing world moves into
    /// the empty background slot under the effective tick policy.
    fn apply_fork(&mut self, main_world: &mut World, new_app: WorldSwapApp) -> (extracted: bool)
        requires
            old(self).background.app is None,
            window_compat(*old(main_world), new_app.world),
        ensures
            fork_post(*old(self), *old(main_world), new_app, *final(self), *final(main_world), extracted),
    {
        let mut incoming = new_app;
        prepare_world_swap(main_world, &mut incoming.world);
        let ghost m_mid = *main_world;
        let ghost n_mid = incoming.world;
        let extracted = self.foreground.render_app.is_some();
        let prev = swap_worlds(&mut self.foreground, main_world, incoming);
        self.add_app_to_background(prev);
        proof {
            assert(prepare_post(*old(main_world), new_app.world, m_mid, n_mid));
            assert(swap_applied(*old(self), *old(main_world), new_app, self.foreground, *main_world, prev));
        }
        extracted
    }

    /// Applies a `Swap`: takes the background world out, unpausing a
    /// policy-paused clock, exchanges it with the foreground, and
    /// backgrounds the outgoing world.
    fn apply_swap(&mut self, main_world: &mut World) -> (extracted: bool)
        requires
            old(self).background.app matches Some(bg) && window_compat(*old(main_world), bg.world),
        ensures
            swap_post(*old(self), *old(main_world), *final(self), *final(main_world), extracted),
    {
        let ghost bg0 = old(self).background.app.unwrap();
        let taken = self.take_background_app();
        let mut incoming = match taken {
            Option::Some(t) => t,
            Option::None => vstd::pervasive::unreached(),
        };
        prepare_world_swap(main_world, &mut incoming.world);
        let ghost m_mid = *main_world;
        let ghost n_mid = incoming.world;
        let extracted = self.foreground.render_app.is_some();
        let prev = swap_worlds(&mut self.foreground, main_world, incoming);
        self.add_app_to_background(prev);
        proof {
            assert(prepare_post(*old(main_world), unpaused_app(bg0).world, m_mid, n_mid));
            assert(swap_applied(
                *old(self),
                *old(main_world),
                unpaused_app(bg0),
                self.foreground,
                *main_world,
                prev,
            ));
        }
        extracted
    }

    /// Applies a `Join`: takes the background world out, unpausing a
    /// policy-paused clock, exchanges it with the foreground, and hands
    /// the outgoing world to the join-recovery hook if one is installed.
    fn apply_join(&mut self, main_world: &mut World) -> (r: (Option<WorldSwapApp>, bool))
        requires
            old(self).background.app matches Some(bg) && window_compat(*old(main_world), bg.world),
        ensures
            join_post(*old(self), *old(main_world), *final(self), *final(main_world), r.0, r.1),
    {
        let ghost bg0 = old(self).background.app.unwrap();
        let taken = self.take_background_app();
        let mut incoming = match taken {
            Option::Some(t) => t,
            Option::None => vstd::pervasive::unreached(),
        };
        prepare_world_swap(main_world, &mut incoming.world);
        let ghost m_mid = *main_world;
        let ghost n_mid = incoming.world;
        let extracted = self.foreground.render_app.is_some();
        let prev = swap_worlds(&mut self.foreground, main_world, incoming);
        proof {
            assert(prepare_post(*old(main_world), unpaused_app(bg0).world, m_mid, n_mid));
            assert(swap_applied(
                *old(self),
                *old(main_world),
                unpaused_app(bg0),
                self.foreground,
                *main_world,
                prev,
            ));
        }
        let recovered = if self.config.swap_join_recovery {
            Some(prev)
        } else {
            None
        };
        (recovered, extracted)
    }
}

// ---------------------------------------------------------------------
// Command dispatch
// ---------------------------------------------------------------------

/// Which fatal error a window-incompatible incoming world causes.
pub open spec fn compat_error(m0: World, incoming: World) -> SwapError {
    if incoming.windows is None {
        SwapError::MissingWindowRegistry
    } else {
        SwapError::ForeignWindows
    }
}

/// Checks that `incoming` may receive the foreground's windows.
fn check_window_compat(main: &World, incoming: &World) -> (r: Result<(), SwapError>)
    ensures
        r is Ok <==> window_compat(*main, *incoming),
        r matches Err(e) ==> e == compat_error(*main, *incoming),
{
    if main.windows.is_some() {
        match &incoming.windows {
            Option::None => Err(SwapError::MissingWindowRegistry),
            Option::Some(reg) => {
                if reg.windows.is_empty() {
                    Ok(())
                } else {
                    Err(SwapError::ForeignWindows)
                }
            },
        }
    } else {
        Ok(())
    }
}

/// Exactly when a command is applied and when it is refused.
///
/// `Fork` fails — with `ForkWithOccupiedBackground` — if and only if
/// the background slot is occupied; `Swap` and `Join` fail — with
/// `SwapWithEmptyBackground` and `JoinWithEmptyBackground` — if and
/// only if it is empty. A window-incompatible incoming world is the
/// only other refusal. A refusal leaves both the orchestrator and the
/// foreground world untouched; otherwise the matching transition post
/// holds, and the result carries the recovered world, whether the
/// outgoing world's render stage was extracted, and the transition
/// kind.
pub open spec fn command_post(
    s0: WorldSwapSubApp,
    m0: World,
    command: SwapCommand,
    s1: WorldSwapSubApp,
    m1: World,
    r: Result<(Option<WorldSwapApp>, bool, SwapKind), SwapError>,
) -> bool {
    match command {
        SwapCommand::Pass(app) => {
            if window_compat(m0, app.world) {
                r matches Ok(out) && out.2 == SwapKind::Pass && pass_post(
                    s0,
                    m0,
                    app,
                    s1,
                    m1,
                    out.0,
                    out.1,
                )
            } else {
                r matches Err(e) && e == compat_error(m0, app.world) && s1 == s0 && m1 == m0
            }
        },
        SwapCommand::Fork(app) => {
            if s0.background.app is Some {
                r matches Err(e) && e == SwapError::ForkWithOccupiedBackground && s1 == s0 && m1
                    == m0
            } else if window_compat(m0, app.world) {
                r matches Ok(out) && out.0 is None && out.2 == SwapKind::Fork && fork_post(
                    s0,
                    m0,
                    app,
                    s1,
                    m1,
                    out.1,
                )
            } else {
                r matches Err(e) && e == compat_error(m0, app.world) && s1 == s0 && m1 == m0
            }
        },
        SwapCommand::Swap => {
            match s0.background.app {
                Option::None => r matches Err(e) && e == SwapError::SwapWithEmptyBackground && s1
                    == s0 && m1 == m0,
                Option::Some(bg) => {
                    if window_compat(m0, bg.world) {
                        r matches Ok(out) && out.0 is None && out.2 == SwapKind::Swap && swap_post(
                            s0,
                            m0,
                            s1,
                            m1,
                            out.1,
                        )
                    } else {
                        r matches Err(e) && e == compat_error(m0, bg.world) && s1 == s0 && m1 == m0
                    }
                },
            }
        },
        SwapCommand::Join => {
            match s0.background.app {
                Option::None => r matches Err(e) && e == SwapError::JoinWithEmptyBackground && s1
                    == s0 && m1 == m0,
                Option::Some(bg) => {
                    if window_compat(m0, bg.world) {
                        r matches Ok(out) && out.2 == SwapKind::Join && join_post(
                            s0,
                            m0,
                            s1,
                            m1,
                            out.0,
                            out.1,
                        )
                    } else {
                        r matches Err(e) && e == compat_error(m0, bg.world) && s1 == s0 && m1 == m0
                    }
                },
            }
        },
    }
}

impl WorldSwapSubApp {
    /// Validates and applies one swap command, as [`command_post`]
    /// describes. A precondition violation is a fatal configuration
    /// error: the embedding should terminate the process on `Err`.
    pub fn apply_swap_command(&mut self, main_world: &mut World, command: SwapCommand) -> (r:
        Result<(Option<WorldSwapApp>, bool, SwapKind), SwapError>)
        ensures
            command_post(*old(self), *old(main_world), command, *final(self), *final(main_world), r),
    {
        match command {
            SwapCommand::Pass(app) => {
                match check_window_compat(main_world, &app.world) {
                    Result::Err(e) => Err(e),
                    Result::Ok(()) => {
                        let (recovered, extracted) = self.apply_pass(main_world, app);
                        Ok((recovered, extracted, SwapKind::Pass))
                    },
                }
            },
            SwapCommand::Fork(app) => {
                if self.background.app.is_some() {
                    return Err(SwapError::ForkWithOccupiedBackground);
                }
                match check_window_compat(main_world, &app.world) {
                    Result::Err(e) => Err(e),
                    Result::Ok(()) => {
                        let extracted = self.apply_fork(main_world, app);
                        Ok((None, extracted, SwapKind::Fork))
                    },
                }
            },
            SwapCommand::Swap => {
                let compat = match &self.background.app {
                    Option::None => {
                        return Err(SwapError::SwapWithEmptyBackground);
                    },
                    Option::Some(bg) => check_window_compat(main_world, &bg.world),
                };
                match compat {
                    Result::Err(e) => Err(e),
                    Result::Ok(()) => {
                        let extracted = self.apply_swap(main_world);
                        Ok((None, extracted, SwapKind::Swap))
                    },
                }
            },
            SwapCommand::Join => {
                let compat = match &self.background.app {
                    Option::None => {
                        return Err(SwapError::JoinWithEmptyBackground);
                    },
                    Option::Some(bg) => check_window_compat(main_world, &bg.world),
                };
                match compat {
                    Result::Err(e) => Err(e),
                    Result::Ok(()) => {
                        let (recovered, extracted) = self.apply_join(main_world);
                        Ok((recovered, extracted, SwapKind::Join))
                    },
                }
            },
        }
    }
}

// ---------------------------------------------------------------------
// The tick protocol
// ---------------------------------------------------------------------

/// Keeps only the most recently enqueued command of a drained batch.
/// Only that command takes effect this tick; every superseded command
/// is handed back untouched — its payload world is dropped unprepared
/// and unmigrated.
pub fn select_latest(commands: Vec<SwapCommand>) -> (r: (Option<SwapCommand>, Vec<SwapCommand>))
    ensures
        commands@.len() == 0 ==> r.0 is None && r.1@ == commands@,
        commands@.len() > 0 ==> r.0 == Some(commands@.last()) && r.1@ == commands@.take(
            commands@.len() - 1,
        ),
{
    let mut commands = commands;
    let ghost orig = commands@;
    let latest = commands.pop();
    proof {
        if orig.len() > 0 {
            assert(commands@ =~= orig.take(orig.len() - 1));
        }
    }
    (latest, commands)
}

/// One background advance, as configuration and policy demand: an
/// `Exiting` orchestrator keeps asking the embedding to exit; an empty
/// slot does nothing; a background world with a pending shutdown signal
/// either escalates to whole-process shutdown or is silently discarded,
/// per configuration; otherwise the world advances exactly once when
/// its effective policy is `EveryTick`, and not at all under `Never`.
pub open spec fn background_update_post(
    s0: WorldSwapSubApp,
    s1: WorldSwapSubApp,
    should_exit: bool,
) -> bool {
    if s0.state is Exiting {
        s1 == s0 && should_exit
    } else {
        match s0.background.app {
            Option::None => s1 == s0 && !should_exit,
            Option::Some(bg) => {
                if bg.world.exit_requested {
                    if s0.config.abort_on_background_exit {
                        s1 == s0 && should_exit
                    } else {
                        &&& !should_exit
                        &&& s1.background.app is None
                        &&& s1.config == s0.config
                        &&& s1.foreground == s0.foreground
                        &&& s1.state == s0.state
                    }
                } else {
                    match spec_background_tick_rate(
                        s0.config.background_tick_rate,
                        bg.background_tick_rate,
                    ) {
                        BackgroundTickRate::Never { .. } => s1 == s0 && !should_exit,
                        BackgroundTickRate::EveryTick => {
                            &&& !should_exit
                            &&& s1.background.app == Some(WorldSwapApp {
                                world: (World {
                                    updates: if bg.world.updates < u64::MAX {
                                        (bg.world.updates + 1) as u64
                                    } else {
                                        u64::MAX
                                    },
                                    ..bg.world
                                }),
                                ..bg
                            })
                            &&& s1.config == s0.config
                            &&& s1.foreground == s0.foreground
                            &&& s1.state == s0.state
                        },
                    }
                }
            },
        }
    }
}

impl WorldSwapSubApp {
    /// Converts a pending foreground shutdown signal into an implicit
    /// `Join` whenever a background world exists, so that world is
    /// never silently discarded by an unrelated foreground exit; with
    /// no background world the signal is left to propagate.
    fn intercept_app_exit(&self, main_world: &mut World) -> (r: bool)
        ensures
            r == (self.background.app is Some && old(main_world).exit_requested),
            *final(main_world) == (World {
                exit_requested: old(main_world).exit_requested && !(self.background.app is Some),
                ..*old(main_world)
            }),
    {
        if self.background.app.is_some() && main_world.exit_requested {
            main_world.exit_requested = false;
            true
        } else {
            false
        }
    }

    /// Advances the background world once per its tick policy, as
    /// [`background_update_post`] describes. Returns whether the whole
    /// process should shut down.
    fn update_background_world(&mut self) -> (should_exit: bool)
        ensures
            background_update_post(*old(self), *final(self), should_exit),
    {
        if self.state == WorldSwapSubAppState::Exiting {
            return true;
        }
        let close_on_exit = self.config.abort_on_background_exit;
        let default_tick_rate = self.config.background_tick_rate;

        let (has_background, exit_pending, tick_rate) = match &self.background.app {
            Option::None => (false, false, None),
            Option::Some(bg) => (true, bg.world.exit_requested, bg.background_tick_rate),
        };
        if !has_background {
            return false;
        }
        if exit_pending {
            if close_on_exit {
                // Escalate to whole-process shutdown.
                return true;
            }
            // Silently discard the background world.
            self.background.app = None;
            return false;
        }
        match get_background_tick_rate(default_tick_rate, tick_rate) {
            BackgroundTickRate::Never { .. } => false,
            BackgroundTickRate::EveryTick => {
                if let Option::Some(bg) = &mut self.background.app {
                    bg.world.run_main_schedule();
                }
                false
            },
        }
    }
}

/// One orchestrator tick, related to the latest drained command `cmd`
/// (`None` when the mailbox was empty this tick).
///
/// A pending foreground shutdown signal is intercepted and becomes an
/// implicit `Join` exactly when a background world exists, superseding
/// any drained command. The effective command is validated and applied
/// as [`command_post`] describes; a fatal refusal returns the error
/// with no transition applied. Without a command, the foreground's
/// render stage is extracted unless another world's pipeline job is
/// still draining — then a timing pulse is sent instead — and the
/// background world advances per [`background_update_post`]; an
/// escalated background shutdown marks the orchestrator `Exiting` and
/// requests exit from the foreground world.
pub open spec fn tick_rel(
    s0: WorldSwapSubApp,
    m0: World,
    target: Option<RenderWorkerTarget>,
    cmd: Option<SwapCommand>,
    s1: WorldSwapSubApp,
    m1: World,
    result: Result<TickOutcome, SwapError>,
) -> bool {
    let intercepted = s0.background.app is Some && m0.exit_requested;
    let m0i = World { exit_requested: m0.exit_requested && !(s0.background.app is Some), ..m0 };
    match result {
        Result::Err(e) => {
            match (if intercepted {
                Option::Some(SwapCommand::Join)
            } else {
                cmd
            }) {
                Option::None => false,
                Option::Some(c) => command_post(s0, m0i, c, s1, m1, Result::Err(e)),
            }
        },
        Result::Ok(out) => {
            &&& out.intercepted_exit == intercepted
            &&& match (if intercepted {
                Option::Some(SwapCommand::Join)
            } else {
                cmd
            }) {
                Option::None => {
                    &&& out.applied is None
                    &&& out.recovered is None
                    &&& out.render == (if spec_can_render(target, m0i) {
                        if s0.foreground.render_app is Some {
                            RenderAction::Extracted
                        } else {
                            RenderAction::Skipped
                        }
                    } else if s0.foreground.has_time_sender {
                        RenderAction::TimeSent
                    } else {
                        RenderAction::Skipped
                    })
                    &&& exists|s_mid: WorldSwapSubApp, sx: bool| {
                        &&& #[trigger] background_update_post(s0, s_mid, sx)
                        &&& m1 == (World { exit_requested: m0i.exit_requested || sx, ..m0i })
                        &&& if sx {
                            &&& s1.config == s_mid.config
                            &&& s1.foreground == s_mid.foreground
                            &&& s1.background == s_mid.background
                            &&& s1.state is Exiting
                        } else {
                            s1 == s_mid
                        }
                    }
                },
                Option::Some(c) => {
                    &&& (out.render is Extracted || out.render is Skipped)
                    &&& (out.applied matches Some(kind) && command_post(
                        s0,
                        m0i,
                        c,
                        s1,
                        m1,
                        Result::Ok((out.recovered, out.render is Extracted, kind)),
                    ))
                },
            }
        },
    }
}

impl WorldSwapSubApp {
    /// One orchestrator tick: intercept a foreground shutdown signal,
    /// drain the mailbox keeping only the latest command, apply its
    /// transition or — without one — extract the foreground's render
    /// stage or send a timing pulse, and advance the background world.
    ///
    /// The relation to the drained command is [`tick_rel`]; and however
    /// the mailbox behaves, exactly one world leaves the tick as
    /// foreground, and a background world, if one remains, keeps
    /// `Background` status. An `Err` is a fatal configuration error:
    /// the embedding should terminate the process.
    pub fn world_swap_extract(
        &mut self,
        main_world: &mut World,
        mailbox: &SwapCommandReceiver,
        target: &Option<RenderWorkerTarget>,
    ) -> (result: Result<TickOutcome, SwapError>)
        ensures
            exists|cmd: Option<SwapCommand>| #[trigger] tick_rel(
                *old(self),
                *old(main_world),
                *target,
                cmd,
                *final(self),
                *final(main_world),
                result,
            ),
            old(main_world).status is Foreground && (old(self).background.app matches Some(b)
                ==> b.world.status is Background) ==> final(main_world).status is Foreground && (
            final(self).background.app matches Some(b2) ==> b2.world.status is Background),
    {
        // Intercept a foreground shutdown signal while a background
        // world exists.
        let intercepted = self.intercept_app_exit(main_world);

        // Drain the mailbox; only the latest command is kept. The
        // budget only witnesses termination: a mailbox cannot hold
        // more pending commands than the drained vector could.
        let mut drained: Vec<SwapCommand> = Vec::new();
        let mut budget: usize = usize::MAX;
        while budget > 0
            invariant
                true,
            decreases budget,
        {
            match try_recv_command(mailbox) {
                Option::Some(c) => {
                    drained.push(c);
                    budget = budget - 1;
                },
                Option::None => {
                    break;
                },
            }
        }
        let (latest, superseded) = select_latest(drained);
        let mut discarded: u64 = superseded.len() as u64;
        let ghost cmd_witness = latest;

        // An intercepted shutdown signal becomes an implicit Join that
        // supersedes whatever was drained.
        let command = if intercepted {
            if latest.is_some() && discarded < u64::MAX {
                discarded = discarded + 1;
            }
            Some(SwapCommand::Join)
        } else {
            latest
        };

        match command {
            Option::None => {
                // Extract the foreground render stage, unless a
                // previous world's pipeline job is still draining; then
                // send a timing pulse so downstream consumers of timing
                // data do not starve.
                let render = if can_render(target, main_world) {
                    if self.foreground.render_app.is_some() {
                        RenderAction::Extracted
                    } else {
                        RenderAction::Skipped
                    }
                } else {
                    if self.foreground.has_time_sender {
                        RenderAction::TimeSent
                    } else {
                        RenderAction::Skipped
                    }
                };

                // No swap happened: advance the background world.
                let should_exit = self.update_background_world();
                if should_exit {
                    main_world.exit_requested = true;
                    self.state = WorldSwapSubAppState::Exiting;
                }
                let result = Ok(TickOutcome {
                    applied: None,
                    recovered: None,
                    render,
                    discarded,
                    intercepted_exit: intercepted,
                });
                proof {
                    assert(tick_rel(
                        *old(self),
                        *old(main_world),
                        *target,
                        cmd_witness,
                        *self,
                        *main_world,
                        result,
                    ));
                }
                result
            },
            Option::Some(c) => {
                let ghost c_spec = c;
                let ghost m0i = *main_world;
                proof {
                    assert(m0i == (World {
                        exit_requested: old(main_world).exit_requested && !(old(
                            self,
                        ).background.app is Some),
                        ..*old(main_world)
                    }));
                    if intercepted {
                        assert(c_spec == SwapCommand::Join);
                    } else {
                        assert(cmd_witness == Some(c_spec));
                    }
                }
                match self.apply_swap_command(main_world, c) {
                    Result::Ok((recovered, extracted, kind)) => {
                        let ghost rec_w = recovered;
                        let render = if extracted {
                            RenderAction::Extracted
                        } else {
                            RenderAction::Skipped
                        };
                        let result = Ok(TickOutcome {
                            applied: Some(kind),
                            recovered,
                            render,
                            discarded,
                            intercepted_exit: intercepted,
                        });
                        proof {
                            assert(command_post(
                                *old(self),
                                m0i,
                                c_spec,
                                *self,
                                *main_world,
                                Result::Ok((rec_w, extracted, kind)),
                            ));
                            assert(tick_rel(
                                *old(self),
                                *old(main_world),
                                *target,
                                cmd_witness,
                                *self,
                                *main_world,
                                result,
                            ));
                        }
                        result
                    },
                    Result::Err(e) => {
                        proof {
                            assert(command_post(
                                *old(self),
                                m0i,
                                c_spec,
                                *self,
                                *main_world,
                                Result::Err::<(Option<WorldSwapApp>, bool, SwapKind), SwapError>(e),
                            ));
                            assert(tick_rel(
                                *old(self),
                                *old(main_world),
                                *target,
                                cmd_witness,
                                *self,
                                *main_world,
                                Result::Err(e),
                            ));
                        }
                        Err(e)
                    },
                }
            },
        }
    }
}

} // verus!
