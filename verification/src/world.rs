use vstd::prelude::*;

use crate::app::{RenderSubApp, WorldSwapStatus};
use crate::kvmap::KvMap;
use crate::window_utils::{WindowEvent, WindowEventCache, WindowRegistry, WindowTheme};

verus! {

/// Per-entity window data tracked by a world: the window's configuration,
/// the configuration snapshot used for change detection, whether the
/// entity currently holds the native handle, and whether it is the
/// primary window. Configuration values are opaque tokens.
#[derive(Debug, Copy, Clone, Eq, PartialEq, Structural)]
pub struct WindowEntity {
    pub config: u64,
    pub cached_config: u64,
    pub has_raw_handle: bool,
    pub is_primary: bool,
}

/// An isolated unit of runtime state, reduced to the fixed set of fields
/// the orchestrator needs structural access to. A world is exclusively
/// owned by exactly one slot — foreground, background, or in transit
/// inside a command payload — and is moved, never copied.
#[derive(Debug)]
pub struct World {
    /// Stable identity token.
    pub id: u64,
    /// The world's current slot, maintained by the orchestrator.
    pub status: WorldSwapStatus,
    /// Whether the world's top-level update schedule is the shared one
    /// every swappable world must use.
    pub uses_main_schedule: bool,
    /// A pending shutdown signal emitted by the world's own logic.
    pub exit_requested: bool,
    /// Whether the world's virtual clock is paused.
    pub time_paused: bool,
    /// How many update-schedule runs the world has performed; saturates.
    pub updates: u64,
    /// Whether a command-sender handle has been injected.
    pub has_command_sender: bool,
    /// Whether the world is connected to the platform event loop.
    pub has_event_loop_proxy: bool,
    /// Whether the world defines its own platform-settings resource.
    pub has_platform_settings: bool,
    /// Whether the world currently receives timing signals directly.
    pub has_time_receiver: bool,
    /// Whether the world holds a timing-signal sender of its own.
    pub has_time_sender: bool,
    /// The render stage built for this world, until the orchestrator
    /// takes custody of it.
    pub render_app: Option<RenderSubApp>,
    /// Whether the accessibility toggle has been shared with this world.
    pub has_accessibility: bool,
    /// Next fresh entity id for spawned window entities.
    pub next_entity: u64,
    /// The window registry, if a windowing backend is present.
    pub windows: Option<WindowRegistry>,
    /// Local entity -> window data, for the windows this world tracks.
    pub window_entities: KvMap<WindowEntity>,
    /// Last-value cache of late window notifications.
    pub event_cache: WindowEventCache,
    /// Entity-keyed accessibility bindings; values are opaque tokens.
    pub access_bindings: KvMap<u64>,
    /// Entity-keyed input-action handlers; values are opaque tokens.
    pub action_handlers: KvMap<u64>,
    /// Inbox of notifications synthesized during migration.
    pub events: Vec<WindowEvent>,
}

impl World {
    /// Creates a fresh, suspended world with no windows, no pending
    /// signals and an unpaused clock.
    pub fn new(id: u64) -> (r: Self)
        ensures
            r.id == id,
            r.status is Suspended,
            r.uses_main_schedule,
            !r.exit_requested,
            !r.time_paused,
            r.updates == 0,
            !r.has_command_sender,
            !r.has_event_loop_proxy,
            !r.has_platform_settings,
            !r.has_time_receiver,
            !r.has_time_sender,
            r.render_app is None,
            !r.has_accessibility,
            r.next_entity == 0,
            r.windows is None,
            r.window_entities@ == Map::<u64, WindowEntity>::empty(),
            r.event_cache.backend_scale_factor_events@ == Map::<u64, u64>::empty(),
            r.event_cache.scale_factor_events@ == Map::<u64, u64>::empty(),
            r.event_cache.theme_events@ == Map::<u64, WindowTheme>::empty(),
            r.access_bindings@ == Map::<u64, u64>::empty(),
            r.action_handlers@ == Map::<u64, u64>::empty(),
            r.events@ == Seq::<WindowEvent>::empty(),
    {
        World {
            id,
            status: WorldSwapStatus::Suspended,
            uses_main_schedule: true,
            exit_requested: false,
            time_paused: false,
            updates: 0,
            has_command_sender: false,
            has_event_loop_proxy: false,
            has_platform_settings: false,
            has_time_receiver: false,
            has_time_sender: false,
            render_app: None,
            has_accessibility: false,
            next_entity: 0,
            windows: None,
            window_entities: KvMap::new(),
            event_cache: WindowEventCache::new(),
            access_bindings: KvMap::new(),
            action_handlers: KvMap::new(),
            events: Vec::new(),
        }
    }

    /// Runs the world's update schedule once. The world's own update
    /// logic is an external collaborator; the orchestrator only records
    /// that a run was scheduled.
    pub fn run_main_schedule(&mut self)
        ensures
            *final(self) == (World {
                updates: if old(self).updates < u64::MAX {
                    (old(self).updates + 1) as u64
                } else {
                    u64::MAX
                },
                ..*old(self)
            }),
    {
        if self.updates < u64::MAX {
            self.updates = self.updates + 1;
        }
    }

    /// Hands out a fresh entity id, or `None` when the id space is
    /// exhausted.
    pub fn alloc_entity(&mut self) -> (r: Option<u64>)
        ensures
            old(self).next_entity < u64::MAX ==> r == Some(old(self).next_entity)
                && *final(self) == (World { next_entity: (old(self).next_entity + 1) as u64, ..*old(self) }),
            old(self).next_entity == u64::MAX ==> r is None && *final(self) == *old(self),
    {
        if self.next_entity < u64::MAX {
            let e = self.next_entity;
            self.next_entity = self.next_entity + 1;
            Some(e)
        } else {
            None
        }
    }
}

} // verus!
