use vstd::prelude::*;

use crate::kvmap::{KvEntry, KvMap};

verus! {

/// A window theme reported by the platform.
#[derive(Debug, Copy, Clone, Eq, PartialEq, Structural)]
pub enum WindowTheme {
    Light,
    Dark,
}

/// Latest backend scale factor reported for a window. The factor is an
/// opaque token chosen by the windowing backend.
#[derive(Debug, Copy, Clone, Eq, PartialEq, Structural)]
pub struct WindowBackendScaleFactorChanged {
    pub window: u64,
    pub scale_factor: u64,
}

/// Latest effective scale factor reported for a window.
#[derive(Debug, Copy, Clone, Eq, PartialEq, Structural)]
pub struct WindowScaleFactorChanged {
    pub window: u64,
    pub scale_factor: u64,
}

/// Latest theme reported for a window.
#[derive(Debug, Copy, Clone, Eq, PartialEq, Structural)]
pub struct WindowThemeChanged {
    pub window: u64,
    pub theme: WindowTheme,
}

/// A notification delivered into a world's event inbox.
#[derive(Debug, Copy, Clone, Eq, PartialEq, Structural)]
pub enum WindowEvent {
    /// A window entity appeared in this world through migration; emitted
    /// because the ordinary window-creation path is bypassed.
    Created { window: u64 },
    BackendScaleFactorChanged(WindowBackendScaleFactorChanged),
    ScaleFactorChanged(WindowScaleFactorChanged),
    ThemeChanged(WindowThemeChanged),
}

/// A world's bidirectional registry of external window ids and local
/// window entities, together with the native handles the world owns.
#[derive(Debug)]
pub struct WindowRegistry {
    /// External window id -> native handle token. Owning an entry here
    /// means owning the platform window itself.
    pub windows: KvMap<u64>,
    /// External window id -> local entity.
    pub window_to_entity: KvMap<u64>,
    /// Local entity -> external window id; kept as the inverse of
    /// `window_to_entity`.
    pub entity_to_window: KvMap<u64>,
}

impl WindowRegistry {
    /// Creates an empty registry.
    pub fn new() -> (r: Self)
        ensures
            r.windows@ == Map::<u64, u64>::empty(),
            r.window_to_entity@ == Map::<u64, u64>::empty(),
            r.entity_to_window@ == Map::<u64, u64>::empty(),
            r.windows.entries() == Seq::<KvEntry<u64>>::empty(),
            r.window_to_entity.entries() == Seq::<KvEntry<u64>>::empty(),
            r.entity_to_window.entries() == Seq::<KvEntry<u64>>::empty(),
    {
        WindowRegistry { windows: KvMap::new(), window_to_entity: KvMap::new(), entity_to_window: KvMap::new() }
    }
}

/// The forward and reverse indices of `reg` are mutual inverses.
pub open spec fn registry_coherent(reg: WindowRegistry) -> bool {
    &&& forall|wid: u64| #[trigger] reg.window_to_entity@.dom().contains(wid)
        ==> reg.entity_to_window@.dom().contains(reg.window_to_entity@[wid])
            && reg.entity_to_window@[reg.window_to_entity@[wid]] == wid
    &&& forall|e: u64| #[trigger] reg.entity_to_window@.dom().contains(e)
        ==> reg.window_to_entity@.dom().contains(reg.entity_to_window@[e])
            && reg.window_to_entity@[reg.entity_to_window@[e]] == e
}

/// Follows an entity of the world owning `a` to the entity of the world
/// owning `b` that is bound to the same external window id.
pub open spec fn spec_map_window_entities(a: WindowRegistry, b: WindowRegistry, entity_a: u64) -> Option<u64> {
    if a.entity_to_window@.dom().contains(entity_a) {
        let wid = a.entity_to_window@[entity_a];
        if b.window_to_entity@.dom().contains(wid) {
            Some(b.window_to_entity@[wid])
        } else {
            None
        }
    } else {
        None
    }
}

/// Maps a window entity of registry `a`'s world to the entity of registry
/// `b`'s world that shares its external window id.
pub fn map_window_entities(a: &WindowRegistry, b: &WindowRegistry, entity_a: u64) -> (r: Option<u64>)
    ensures
        r == spec_map_window_entities(*a, *b, entity_a),
{
    match a.entity_to_window.get(entity_a) {
        Some(wid) => b.window_to_entity.get(wid),
        None => None,
    }
}

/// The backend-scale-factor events that dispatching cache entries
/// `entries` emits, with window references remapped from registry `a`'s
/// world to registry `b`'s; entries without a destination entity are
/// dropped.
pub open spec fn dispatched_backend_scale(entries: Seq<KvEntry<u64>>, a: WindowRegistry, b: WindowRegistry) -> Seq<
    WindowEvent,
>
    decreases entries.len(),
{
    if entries.len() == 0 {
        Seq::empty()
    } else {
        dispatched_backend_scale(entries.drop_last(), a, b) + match spec_map_window_entities(
            a,
            b,
            entries.last().key,
        ) {
            Some(e) => seq![
                WindowEvent::BackendScaleFactorChanged(
                    WindowBackendScaleFactorChanged { window: e, scale_factor: entries.last().value },
                ),
            ],
            None => Seq::empty(),
        }
    }
}

/// As [`dispatched_backend_scale`], for effective-scale-factor events.
pub open spec fn dispatched_scale(entries: Seq<KvEntry<u64>>, a: WindowRegistry, b: WindowRegistry) -> Seq<
    WindowEvent,
>
    decreases entries.len(),
{
    if entries.len() == 0 {
        Seq::empty()
    } else {
        dispatched_scale(entries.drop_last(), a, b) + match spec_map_window_entities(
            a,
            b,
            entries.last().key,
        ) {
            Some(e) => seq![
                WindowEvent::ScaleFactorChanged(
                    WindowScaleFactorChanged { window: e, scale_factor: entries.last().value },
                ),
            ],
            None => Seq::empty(),
        }
    }
}

/// As [`dispatched_backend_scale`], for theme events.
pub open spec fn dispatched_theme(entries: Seq<KvEntry<WindowTheme>>, a: WindowRegistry, b: WindowRegistry) -> Seq<
    WindowEvent,
>
    decreases entries.len(),
{
    if entries.len() == 0 {
        Seq::empty()
    } else {
        dispatched_theme(entries.drop_last(), a, b) + match spec_map_window_entities(
            a,
            b,
            entries.last().key,
        ) {
            Some(e) => seq![
                WindowEvent::ThemeChanged(WindowThemeChanged { window: e, theme: entries.last().value }),
            ],
            None => Seq::empty(),
        }
    }
}

/// Everything the cache would deliver on a dispatch: backend scale
/// factors first, then effective scale factors, then themes.
pub open spec fn dispatched_events(cache: WindowEventCache, a: WindowRegistry, b: WindowRegistry) -> Seq<
    WindowEvent,
> {
    dispatched_backend_scale(cache.backend_scale_factor_events.entries(), a, b) + dispatched_scale(
        cache.scale_factor_events.entries(),
        a,
        b,
    ) + dispatched_theme(cache.theme_events.entries(), a, b)
}

/// Per-window last-value cache for the three late notification kinds a
/// windowing backend emits. A new value overwrites the cached one; the
/// cache never queues.
#[derive(Debug)]
pub struct WindowEventCache {
    pub backend_scale_factor_events: KvMap<u64>,
    pub scale_factor_events: KvMap<u64>,
    pub theme_events: KvMap<WindowTheme>,
}

impl WindowEventCache {
    /// Creates an empty cache.
    pub fn new() -> (r: Self)
        ensures
            r.backend_scale_factor_events@ == Map::<u64, u64>::empty(),
            r.scale_factor_events@ == Map::<u64, u64>::empty(),
            r.theme_events@ == Map::<u64, WindowTheme>::empty(),
            r.backend_scale_factor_events.entries() == Seq::<KvEntry<u64>>::empty(),
            r.scale_factor_events.entries() == Seq::<KvEntry<u64>>::empty(),
            r.theme_events.entries() == Seq::<KvEntry<WindowTheme>>::empty(),
    {
        WindowEventCache {
            backend_scale_factor_events: KvMap::new(),
            scale_factor_events: KvMap::new(),
            theme_events: KvMap::new(),
        }
    }

    /// Drops every cached value for `entity`.
    pub fn remove(&mut self, entity: u64)
        ensures
            final(self).backend_scale_factor_events@ == old(self).backend_scale_factor_events@.remove(entity),
            final(self).scale_factor_events@ == old(self).scale_factor_events@.remove(entity),
            final(self).theme_events@ == old(self).theme_events@.remove(entity),
    {
        self.backend_scale_factor_events.remove(entity);
        self.scale_factor_events.remove(entity);
        self.theme_events.remove(entity);
    }

    /// Caches `event` as the latest backend scale factor for its window,
    /// overwriting any earlier value.
    pub fn insert_backend_scale_factor_event(&mut self, event: WindowBackendScaleFactorChanged)
        ensures
            final(self).backend_scale_factor_events@ == old(self).backend_scale_factor_events@.insert(
                event.window,
                event.scale_factor,
            ),
            final(self).scale_factor_events == old(self).scale_factor_events,
            final(self).theme_events == old(self).theme_events,
    {
        self.backend_scale_factor_events.insert(event.window, event.scale_factor);
    }

    /// Caches `event` as the latest scale factor for its window,
    /// overwriting any earlier value.
    pub fn insert_scale_factor_event(&mut self, event: WindowScaleFactorChanged)
        ensures
            final(self).scale_factor_events@ == old(self).scale_factor_events@.insert(
                event.window,
                event.scale_factor,
            ),
            final(self).backend_scale_factor_events == old(self).backend_scale_factor_events,
            final(self).theme_events == old(self).theme_events,
    {
        self.scale_factor_events.insert(event.window, event.scale_factor);
    }

    /// Caches `event` as the latest theme for its window, overwriting any
    /// earlier value.
    pub fn insert_theme_event(&mut self, event: WindowThemeChanged)
        ensures
            final(self).theme_events@ == old(self).theme_events@.insert(event.window, event.theme),
            final(self).backend_scale_factor_events == old(self).backend_scale_factor_events,
            final(self).scale_factor_events == old(self).scale_factor_events,
    {
        self.theme_events.insert(event.window, event.theme);
    }

    /// Drains the cache into `inbox`, remapping each event's window
    /// entity from registry `a`'s world to registry `b`'s. Events whose
    /// window has no entity in `b`'s world are dropped silently. Values
    /// already observed by the destination are not deduplicated, so
    /// repeated swapping between two worlds can redeliver an event.
    pub fn dispatch(&mut self, a: &WindowRegistry, b: &WindowRegistry, inbox: &mut Vec<WindowEvent>)
        ensures
            final(inbox)@ == old(inbox)@ + dispatched_events(*old(self), *a, *b),
            final(self).backend_scale_factor_events@ == Map::<u64, u64>::empty(),
            final(self).scale_factor_events@ == Map::<u64, u64>::empty(),
            final(self).theme_events@ == Map::<u64, WindowTheme>::empty(),
    {
        let ghost base = inbox@;
        let ghost bs = self.backend_scale_factor_events.entries();
        let n = self.backend_scale_factor_events.len();
        let mut i: usize = 0;
        while i < n
            invariant
                n == bs.len(),
                0 <= i <= n,
                bs == self.backend_scale_factor_events.entries(),
                inbox@ == base + dispatched_backend_scale(bs.take(i as int), *a, *b),
            decreases n - i,
        {
            let (entity, scale_factor) = self.backend_scale_factor_events.entry_at(i);
            if let Some(window) = map_window_entities(a, b, entity) {
                inbox.push(WindowEvent::BackendScaleFactorChanged(WindowBackendScaleFactorChanged {
                    window,
                    scale_factor,
                }));
            }
            proof {
                assert(bs.take(i + 1).drop_last() =~= bs.take(i as int));
                assert(bs.take(i + 1).last() == bs[i as int]);
            }
            i += 1;
        }
        proof {
            assert(bs.take(n as int) =~= bs);
        }

        let ghost base2 = inbox@;
        let ghost ss = self.scale_factor_events.entries();
        let n2 = self.scale_factor_events.len();
        let mut j: usize = 0;
        while j < n2
            invariant
                n2 == ss.len(),
                0 <= j <= n2,
                ss == self.scale_factor_events.entries(),
                inbox@ == base2 + dispatched_scale(ss.take(j as int), *a, *b),
            decreases n2 - j,
        {
            let (entity, scale_factor) = self.scale_factor_events.entry_at(j);
            if let Some(window) = map_window_entities(a, b, entity) {
                inbox.push(WindowEvent::ScaleFactorChanged(WindowScaleFactorChanged { window, scale_factor }));
            }
            proof {
                assert(ss.take(j + 1).drop_last() =~= ss.take(j as int));
                assert(ss.take(j + 1).last() == ss[j as int]);
            }
            j += 1;
        }
        proof {
            assert(ss.take(n2 as int) =~= ss);
        }

        let ghost base3 = inbox@;
        let ghost ts = self.theme_events.entries();
        let n3 = self.theme_events.len();
        let mut k: usize = 0;
        while k < n3
            invariant
                n3 == ts.len(),
                0 <= k <= n3,
                ts == self.theme_events.entries(),
                inbox@ == base3 + dispatched_theme(ts.take(k as int), *a, *b),
            decreases n3 - k,
        {
            let (entity, theme) = self.theme_events.entry_at(k);
            if let Some(window) = map_window_entities(a, b, entity) {
                inbox.push(WindowEvent::ThemeChanged(WindowThemeChanged { window, theme }));
            }
            proof {
                assert(ts.take(k + 1).drop_last() =~= ts.take(k as int));
                assert(ts.take(k + 1).last() == ts[k as int]);
            }
            k += 1;
        }
        proof {
            assert(ts.take(n3 as int) =~= ts);
        }

        self.backend_scale_factor_events.clear();
        self.scale_factor_events.clear();
        self.theme_events.clear();
    }
}

} // verus!
