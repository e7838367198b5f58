use worldswap::app::{SwapCommand, WorldSwapApp, WorldSwapStatus};
use worldswap::kvmap::KvMap;
use worldswap::plugins::{
    collect_window_events, BackgroundTickRate, WorldSwapPlugin, WorldSwapSet,
};
use worldswap::render_worker::{RenderWorker, RenderWorkerId, RenderWorkerTarget};
use worldswap::run_conditions::{
    entered_background, entered_foreground, in_background, in_foreground, suspended,
};
use worldswap::subapp::{select_latest, SwapKind, WorldSwapSubApp};
use worldswap::window_utils::{
    WindowBackendScaleFactorChanged, WindowEventCache, WindowScaleFactorChanged, WindowTheme,
    WindowThemeChanged,
};
use worldswap::world::{WindowEntity, World};

#[test]
fn cloned_senders_feed_the_same_mailbox() {
    let mut f = World::new(1);
    let (mut subapp, sender, receiver) = WorldSwapSubApp::new(WorldSwapPlugin::default(), &mut f);

    // A world sends through its own cloned handle; the orchestrator
    // still sees the command on the next drain.
    let world_side = sender.duplicate();
    world_side.send(SwapCommand::Fork(WorldSwapApp::new(World::new(2))));

    let outcome = subapp.world_swap_extract(&mut f, &receiver, &None).unwrap();
    assert_eq!(outcome.applied, Some(SwapKind::Fork));
    assert_eq!(f.id, 2);
}

#[test]
fn background_commands_lose_to_later_foreground_commands() {
    // Last-write-wins: whichever command is enqueued later in the tick
    // supersedes the earlier ones, whoever sent them.
    let mut f = World::new(1);
    let (mut subapp, sender, receiver) = WorldSwapSubApp::new(WorldSwapPlugin::default(), &mut f);
    sender.send(SwapCommand::Fork(WorldSwapApp::new(World::new(2))));
    subapp.world_swap_extract(&mut f, &receiver, &None).unwrap();

    let background_sender = sender.duplicate();
    background_sender.send(SwapCommand::Swap);
    sender.send(SwapCommand::Join);
    let outcome = subapp.world_swap_extract(&mut f, &receiver, &None).unwrap();

    assert_eq!(outcome.applied, Some(SwapKind::Join));
    assert_eq!(outcome.discarded, 1);
    assert!(subapp.background.app.is_none());
}

#[test]
fn select_latest_keeps_last_and_returns_rest_untouched() {
    let commands = vec![
        SwapCommand::Pass(WorldSwapApp::new(World::new(7))),
        SwapCommand::Swap,
        SwapCommand::Join,
    ];
    let (latest, superseded) = select_latest(commands);
    assert!(matches!(latest, Some(SwapCommand::Join)));
    assert_eq!(superseded.len(), 2);
    // Superseded commands come back untouched: the payload world of the
    // first one is exactly as it was enqueued.
    match &superseded[0] {
        SwapCommand::Pass(app) => {
            assert_eq!(app.world.id, 7);
            assert_eq!(app.world.status, WorldSwapStatus::Suspended);
        },
        _ => panic!("first superseded command should be the pass"),
    }
    assert!(matches!(superseded[1], SwapCommand::Swap));

    let (latest, superseded) = select_latest(Vec::new());
    assert!(latest.is_none());
    assert_eq!(superseded.len(), 0);
}

#[test]
fn wrapped_world_is_suspended_with_handles_cached() {
    let mut w = World::new(9);
    w.has_time_receiver = true;
    w.has_time_sender = true;
    w.render_app = Some(worldswap::app::RenderSubApp { world_id: 9 });

    let app = WorldSwapApp::new(w);
    assert_eq!(app.world.status, WorldSwapStatus::Suspended);
    assert!(!app.world.has_time_receiver);
    assert!(!app.world.has_time_sender);
    assert!(app.world.render_app.is_none());
    assert!(app.has_time_receiver);
    assert!(app.has_time_sender);
    assert_eq!(app.render_app, Some(worldswap::app::RenderSubApp { world_id: 9 }));
    assert!(app.background_tick_rate.is_none());

    let app = WorldSwapApp::new_with(
        World::new(10),
        BackgroundTickRate::Never { freeze_time: false },
    );
    assert_eq!(
        app.background_tick_rate,
        Some(BackgroundTickRate::Never { freeze_time: false })
    );
}

#[test]
fn run_conditions_track_status_transitions() {
    assert!(suspended(WorldSwapStatus::Suspended));
    assert!(!suspended(WorldSwapStatus::Foreground));
    assert!(in_foreground(WorldSwapStatus::Foreground));
    assert!(!in_foreground(WorldSwapStatus::Background));
    assert!(in_background(WorldSwapStatus::Background));
    assert!(!in_background(WorldSwapStatus::Suspended));

    let mut prev = None;
    assert!(entered_background(&mut prev, WorldSwapStatus::Background));
    assert_eq!(prev, Some(WorldSwapStatus::Background));
    assert!(!entered_background(&mut prev, WorldSwapStatus::Background));
    assert!(!entered_background(&mut prev, WorldSwapStatus::Foreground));

    let mut prev = None;
    assert!(entered_foreground(&mut prev, WorldSwapStatus::Foreground));
    assert!(!entered_foreground(&mut prev, WorldSwapStatus::Foreground));
    assert!(!entered_foreground(&mut prev, WorldSwapStatus::Background));
    assert!(entered_foreground(&mut prev, WorldSwapStatus::Foreground));
}

#[test]
fn render_worker_target_tracks_one_job() {
    let mut target = RenderWorkerTarget::new();
    assert_eq!(target.id(), RenderWorkerId(u64::MAX));
    assert_eq!(RenderWorkerId::default(), RenderWorkerId(u64::MAX));

    let world = World::new(4);
    let worker = RenderWorker { id: RenderWorkerId::from_world(&world) };
    assert!(!worker.matches_target(&target));
    worker.set(&mut target);
    assert_eq!(target.id(), RenderWorkerId(4));
    assert!(worker.matches_target(&target));
    worker.unset(&mut target);
    assert_eq!(target.id(), RenderWorkerId(u64::MAX));
}

#[test]
fn kvmap_insert_is_last_value_wins() {
    let mut m: KvMap<u64> = KvMap::new();
    assert!(m.is_empty());
    m.insert(1, 10);
    m.insert(2, 20);
    m.insert(1, 11);
    assert_eq!(m.len(), 2);
    assert_eq!(m.get(1), Some(11));
    assert_eq!(m.get(2), Some(20));
    assert!(m.contains_key(2));
    m.remove(2);
    assert_eq!(m.get(2), None);
    assert_eq!(m.len(), 1);
    m.clear();
    assert!(m.is_empty());
}

#[test]
fn collect_window_events_prunes_and_keeps_last() {
    let mut live: KvMap<WindowEntity> = KvMap::new();
    live.insert(
        0,
        WindowEntity { config: 0, cached_config: 0, has_raw_handle: true, is_primary: true },
    );

    let mut cache = WindowEventCache::new();
    // A stale cached value for a window that was removed.
    cache.insert_theme_event(WindowThemeChanged { window: 9, theme: WindowTheme::Light });

    let removed = vec![9];
    let backend_events = vec![
        WindowBackendScaleFactorChanged { window: 0, scale_factor: 150 },
        WindowBackendScaleFactorChanged { window: 9, scale_factor: 75 },
    ];
    let scale_events = vec![
        WindowScaleFactorChanged { window: 0, scale_factor: 100 },
        WindowScaleFactorChanged { window: 0, scale_factor: 125 },
    ];
    let theme_events = vec![WindowThemeChanged { window: 0, theme: WindowTheme::Dark }];

    collect_window_events(&live, &removed, &backend_events, &scale_events, &theme_events, &mut cache);

    // The removed window's entry is gone; dead-window events ignored.
    assert_eq!(cache.theme_events.get(9), None);
    assert_eq!(cache.backend_scale_factor_events.get(9), None);
    // Live-window events cached, last value winning.
    assert_eq!(cache.backend_scale_factor_events.get(0), Some(150));
    assert_eq!(cache.scale_factor_events.get(0), Some(125));
    assert_eq!(cache.theme_events.get(0), Some(WindowTheme::Dark));

    // The stage marker is plain data.
    let _set = WorldSwapSet::default();
}
