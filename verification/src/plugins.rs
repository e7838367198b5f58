use vstd::prelude::*;

use crate::kvmap::KvMap;
use crate::window_utils::{
    WindowBackendScaleFactorChanged, WindowEventCache, WindowScaleFactorChanged, WindowTheme,
    WindowThemeChanged,
};
use crate::world::WindowEntity;

verus! {

/// Marker for the stage, at the end of a world's own update, in which
/// late window notifications are collected into the event cache.
#[derive(Debug, Default, Copy, Clone, Eq, PartialEq, Hash)]
pub struct WorldSwapSet;

/// Controls how a background world updates.
#[derive(Debug, Copy, Clone, Eq, PartialEq, Structural)]
pub enum BackgroundTickRate {
    /// The background world never updates. If `freeze_time` is set, its
    /// virtual clock is paused while it is backgrounded; a clock the
    /// world paused itself is left alone either way.
    Never { freeze_time: bool },
    /// The background world updates in every tick the foreground does.
    EveryTick,
}

/// Configuration of the swap orchestrator.
///
/// Recovery hooks live in the embedding: each flag here says whether
/// one is installed, and the tick hands the outgoing world back to the
/// embedding — exactly once, with full ownership — whenever the
/// matching flag is set.
#[derive(Debug, Copy, Clone, Eq, PartialEq, Structural)]
pub struct WorldSwapPlugin {
    /// Default tick policy for worlds in the background; a world's own
    /// policy overrides it.
    pub background_tick_rate: BackgroundTickRate,
    /// Whether a recovery hook wants the world displaced by a `Pass`.
    pub swap_pass_recovery: bool,
    /// Whether a recovery hook wants the world displaced by a `Join`.
    pub swap_join_recovery: bool,
    /// Whether the whole process should shut down when the background
    /// world emits a shutdown signal.
    pub abort_on_background_exit: bool,
}

impl Default for WorldSwapPlugin {
    /// By default: never tick the background with its clock frozen, no
    /// recovery hooks, and ignore background shutdown signals.
    fn default() -> (r: Self)
        ensures
            r == (WorldSwapPlugin {
                background_tick_rate: BackgroundTickRate::Never { freeze_time: true },
                swap_pass_recovery: false,
                swap_join_recovery: false,
                abort_on_background_exit: false,
            }),
    {
        WorldSwapPlugin {
            background_tick_rate: BackgroundTickRate::Never { freeze_time: true },
            swap_pass_recovery: false,
            swap_join_recovery: false,
            abort_on_background_exit: false,
        }
    }
}

/// `m` after dropping the cached values of every removed window that is
/// no longer live.
pub open spec fn prune_removed<V>(m: Map<u64, V>, live: Set<u64>, removed: Seq<u64>) -> Map<u64, V>
    decreases removed.len(),
{
    if removed.len() == 0 {
        m
    } else {
        let rest = prune_removed(m, live, removed.drop_last());
        if live.contains(removed.last()) {
            rest
        } else {
            rest.remove(removed.last())
        }
    }
}

/// `m` after caching, in order, each backend-scale-factor event whose
/// window is live; a later event overwrites an earlier one.
pub open spec fn cache_backend_scale(m: Map<u64, u64>, live: Set<u64>, events: Seq<WindowBackendScaleFactorChanged>) -> Map<
    u64,
    u64,
>
    decreases events.len(),
{
    if events.len() == 0 {
        m
    } else {
        let rest = cache_backend_scale(m, live, events.drop_last());
        if live.contains(events.last().window) {
            rest.insert(events.last().window, events.last().scale_factor)
        } else {
            rest
        }
    }
}

/// As [`cache_backend_scale`], for effective-scale-factor events.
pub open spec fn cache_scale(m: Map<u64, u64>, live: Set<u64>, events: Seq<WindowScaleFactorChanged>) -> Map<
    u64,
    u64,
>
    decreases events.len(),
{
    if events.len() == 0 {
        m
    } else {
        let rest = cache_scale(m, live, events.drop_last());
        if live.contains(events.last().window) {
            rest.insert(events.last().window, events.last().scale_factor)
        } else {
            rest
        }
    }
}

/// As [`cache_backend_scale`], for theme events.
pub open spec fn cache_theme(m: Map<u64, WindowTheme>, live: Set<u64>, events: Seq<WindowThemeChanged>) -> Map<
    u64,
    WindowTheme,
>
    decreases events.len(),
{
    if events.len() == 0 {
        m
    } else {
        let rest = cache_theme(m, live, events.drop_last());
        if live.contains(events.last().window) {
            rest.insert(events.last().window, events.last().theme)
        } else {
            rest
        }
    }
}

/// Collects a tick's late window notifications into the event cache.
///
/// Entries of windows that were removed and are no longer live are
/// dropped first; then each event whose window is still live replaces
/// the cached value for that window, last value winning.
pub fn collect_window_events(
    window_entities: &KvMap<WindowEntity>,
    removed_windows: &Vec<u64>,
    backend_scale_factor_events: &Vec<WindowBackendScaleFactorChanged>,
    scale_factor_events: &Vec<WindowScaleFactorChanged>,
    theme_events: &Vec<WindowThemeChanged>,
    event_cache: &mut WindowEventCache,
)
    ensures
        final(event_cache).backend_scale_factor_events@ == cache_backend_scale(
            prune_removed(old(event_cache).backend_scale_factor_events@, window_entities@.dom(), removed_windows@),
            window_entities@.dom(),
            backend_scale_factor_events@,
        ),
        final(event_cache).scale_factor_events@ == cache_scale(
            prune_removed(old(event_cache).scale_factor_events@, window_entities@.dom(), removed_windows@),
            window_entities@.dom(),
            scale_factor_events@,
        ),
        final(event_cache).theme_events@ == cache_theme(
            prune_removed(old(event_cache).theme_events@, window_entities@.dom(), removed_windows@),
            window_entities@.dom(),
            theme_events@,
        ),
{
    let ghost live = window_entities@.dom();

    let n = removed_windows.len();
    let mut i: usize = 0;
    while i < n
        invariant
            n == removed_windows@.len(),
            0 <= i <= n,
            live == window_entities@.dom(),
            event_cache.backend_scale_factor_events@ == prune_removed(
                old(event_cache).backend_scale_factor_events@,
                live,
                removed_windows@.take(i as int),
            ),
            event_cache.scale_factor_events@ == prune_removed(
                old(event_cache).scale_factor_events@,
                live,
                removed_windows@.take(i as int),
            ),
            event_cache.theme_events@ == prune_removed(
                old(event_cache).theme_events@,
                live,
                removed_windows@.take(i as int),
            ),
        decreases n - i,
    {
        let removed = removed_windows[i];
        if !window_entities.contains_key(removed) {
            event_cache.remove(removed);
        }
        proof {
            assert(removed_windows@.take(i + 1).drop_last() =~= removed_windows@.take(i as int));
        }
        i += 1;
    }
    proof {
        assert(removed_windows@.take(n as int) =~= removed_windows@);
    }

    let ghost pruned_backend = event_cache.backend_scale_factor_events@;
    let ghost pruned_scale = event_cache.scale_factor_events@;
    let ghost pruned_theme = event_cache.theme_events@;

    let n2 = backend_scale_factor_events.len();
    let mut j: usize = 0;
    while j < n2
        invariant
            n2 == backend_scale_factor_events@.len(),
            0 <= j <= n2,
            live == window_entities@.dom(),
            event_cache.backend_scale_factor_events@ == cache_backend_scale(
                pruned_backend,
                live,
                backend_scale_factor_events@.take(j as int),
            ),
            event_cache.scale_factor_events@ == pruned_scale,
            event_cache.theme_events@ == pruned_theme,
        decreases n2 - j,
    {
        let event = backend_scale_factor_events[j];
        if window_entities.contains_key(event.window) {
            event_cache.insert_backend_scale_factor_event(event);
        }
        proof {
            assert(backend_scale_factor_events@.take(j + 1).drop_last() =~= backend_scale_factor_events@.take(
                j as int,
            ));
        }
        j += 1;
    }
    proof {
        assert(backend_scale_factor_events@.take(n2 as int) =~= backend_scale_factor_events@);
    }

    let ghost cached_backend = event_cache.backend_scale_factor_events@;
    let n3 = scale_factor_events.len();
    let mut k: usize = 0;
    while k < n3
        invariant
            n3 == scale_factor_events@.len(),
            0 <= k <= n3,
            live == window_entities@.dom(),
            event_cache.scale_factor_events@ == cache_scale(
                pruned_scale,
                live,
                scale_factor_events@.take(k as int),
            ),
            event_cache.backend_scale_factor_events@ == cached_backend,
            event_cache.theme_events@ == pruned_theme,
        decreases n3 - k,
    {
        let event = scale_factor_events[k];
        if window_entities.contains_key(event.window) {
            event_cache.insert_scale_factor_event(event);
        }
        proof {
            assert(scale_factor_events@.take(k + 1).drop_last() =~= scale_factor_events@.take(k as int));
        }
        k += 1;
    }
    proof {
        assert(scale_factor_events@.take(n3 as int) =~= scale_factor_events@);
    }

    let ghost cached_scale = event_cache.scale_factor_events@;
    let n4 = theme_events.len();
    let mut l: usize = 0;
    while l < n4
        invariant
            n4 == theme_events@.len(),
            0 <= l <= n4,
            live == window_entities@.dom(),
            event_cache.theme_events@ == cache_theme(pruned_theme, live, theme_events@.take(l as int)),
            event_cache.backend_scale_factor_events@ == cached_backend,
            event_cache.scale_factor_events@ == cached_scale,
        decreases n4 - l,
    {
        let event = theme_events[l];
        if window_entities.contains_key(event.window) {
            event_cache.insert_theme_event(event);
        }
        proof {
            assert(theme_events@.take(l + 1).drop_last() =~= theme_events@.take(l as int));
        }
        l += 1;
    }
    proof {
        assert(theme_events@.take(n4 as int) =~= theme_events@);
    }
}

} // verus!
