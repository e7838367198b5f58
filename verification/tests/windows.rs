use worldswap::subapp::transfer_windows;
use worldswap::window_utils::{
    map_window_entities, WindowEvent, WindowEventCache, WindowRegistry, WindowTheme,
    WindowThemeChanged,
};
use worldswap::world::{WindowEntity, World};

/// A world owning two windows (ids 10 and 11) on entities 0 and 1.
fn windowed_world(id: u64) -> World {
    let mut w = World::new(id);
    let mut reg = WindowRegistry::new();
    reg.windows.insert(10, 100);
    reg.windows.insert(11, 101);
    reg.window_to_entity.insert(10, 0);
    reg.window_to_entity.insert(11, 1);
    reg.entity_to_window.insert(0, 10);
    reg.entity_to_window.insert(1, 11);
    w.windows = Some(reg);
    w.window_entities.insert(
        0,
        WindowEntity { config: 7, cached_config: 70, has_raw_handle: true, is_primary: true },
    );
    w.window_entities.insert(
        1,
        WindowEntity { config: 8, cached_config: 80, has_raw_handle: true, is_primary: false },
    );
    w.next_entity = 2;
    w
}

fn empty_windowed_world(id: u64) -> World {
    let mut w = World::new(id);
    w.windows = Some(WindowRegistry::new());
    w
}

#[test]
fn migration_moves_handles_and_spawns_entities() {
    let mut x = windowed_world(1);
    let mut y = empty_windowed_world(2);

    transfer_windows(&mut x, &mut y);

    // The handle table moved wholesale; handles are never duplicated.
    let xreg = x.windows.as_ref().unwrap();
    let yreg = y.windows.as_ref().unwrap();
    assert_eq!(xreg.windows.len(), 0);
    assert_eq!(yreg.windows.get(10), Some(100));
    assert_eq!(yreg.windows.get(11), Some(101));

    // Y spawned an entity per window and registered both directions.
    assert_eq!(y.window_entities.len(), 2);
    let e10 = yreg.window_to_entity.get(10).unwrap();
    let e11 = yreg.window_to_entity.get(11).unwrap();
    assert_eq!(yreg.entity_to_window.get(e10), Some(10));
    assert_eq!(yreg.entity_to_window.get(e11), Some(11));
    let v10 = y.window_entities.get(e10).unwrap();
    assert_eq!(v10.config, 7);
    assert!(v10.has_raw_handle);
    assert!(v10.is_primary);

    // A window-created notification was synthesized per spawned entity.
    assert_eq!(y.events.len(), 2);
    assert!(matches!(y.events[0], WindowEvent::Created { .. }));

    // X keeps its entities and configuration, but the native handles
    // are gone.
    let x0 = x.window_entities.get(0).unwrap();
    assert_eq!(x0.config, 7);
    assert!(!x0.has_raw_handle);
}

#[test]
fn migration_round_trip_restores_x_and_empties_y() {
    // Window round trip: X -> Y -> X.
    let mut x = windowed_world(1);
    let mut y = empty_windowed_world(2);

    transfer_windows(&mut x, &mut y);
    transfer_windows(&mut y, &mut x);

    // Y is left with no windows.
    assert_eq!(y.windows.as_ref().unwrap().windows.len(), 0);

    // X's windows are configurationally unchanged, handles restored.
    let xreg = x.windows.as_ref().unwrap();
    assert_eq!(xreg.windows.get(10), Some(100));
    assert_eq!(xreg.windows.get(11), Some(101));
    let v0 = x.window_entities.get(0).unwrap();
    assert_eq!(v0.config, 7);
    assert_eq!(v0.cached_config, 70);
    assert!(v0.has_raw_handle);
    assert!(v0.is_primary);
    let v1 = x.window_entities.get(1).unwrap();
    assert_eq!(v1.config, 8);
    assert_eq!(v1.cached_config, 80);
    assert!(v1.has_raw_handle);
    assert!(!v1.is_primary);
}

#[test]
fn migration_despawns_stale_entities() {
    let mut x = windowed_world(1);
    let mut y = empty_windowed_world(2);
    // Y still tracks an entity for a window that no longer exists.
    {
        let yreg = y.windows.as_mut().unwrap();
        yreg.window_to_entity.insert(99, 5);
        yreg.entity_to_window.insert(5, 99);
    }
    y.window_entities.insert(
        5,
        WindowEntity { config: 1, cached_config: 1, has_raw_handle: false, is_primary: false },
    );

    transfer_windows(&mut x, &mut y);

    // The stale entity was despawned and unregistered.
    assert!(y.window_entities.get(5).is_none());
    let yreg = y.windows.as_ref().unwrap();
    assert!(yreg.window_to_entity.get(99).is_none());
    assert!(yreg.entity_to_window.get(5).is_none());
}

#[test]
fn migration_remaps_auxiliary_tables() {
    let mut x = windowed_world(1);
    let mut y = empty_windowed_world(2);
    // Accessibility binding and action handler keyed by X's entities;
    // one entry whose window does not exist is dropped.
    x.access_bindings.insert(0, 1000);
    x.access_bindings.insert(42, 1001);
    x.action_handlers.insert(1, 2000);

    transfer_windows(&mut x, &mut y);

    assert_eq!(x.access_bindings.len(), 0);
    assert_eq!(x.action_handlers.len(), 0);
    let yreg = y.windows.as_ref().unwrap();
    let e10 = yreg.window_to_entity.get(10).unwrap();
    let e11 = yreg.window_to_entity.get(11).unwrap();
    assert_eq!(y.access_bindings.get(e10), Some(1000));
    assert_eq!(y.access_bindings.len(), 1);
    assert_eq!(y.action_handlers.get(e11), Some(2000));
}

#[test]
fn event_cache_keeps_last_value_and_dispatches_it_once() {
    // Inserting Light then Dark for the same window and dispatching
    // yields exactly one delivered event, carrying Dark.
    let mut cache = WindowEventCache::new();
    cache.insert_theme_event(WindowThemeChanged { window: 0, theme: WindowTheme::Light });
    cache.insert_theme_event(WindowThemeChanged { window: 0, theme: WindowTheme::Dark });

    // Entity 0 belongs to window 10 in the outgoing world; entity 5
    // owns window 10 in the incoming world.
    let mut a = WindowRegistry::new();
    a.entity_to_window.insert(0, 10);
    let mut b = WindowRegistry::new();
    b.window_to_entity.insert(10, 5);

    let mut inbox: Vec<WindowEvent> = Vec::new();
    cache.dispatch(&a, &b, &mut inbox);

    assert_eq!(inbox.len(), 1);
    assert_eq!(
        inbox[0],
        WindowEvent::ThemeChanged(WindowThemeChanged { window: 5, theme: WindowTheme::Dark })
    );
    // The cache drained.
    assert_eq!(cache.theme_events.len(), 0);
}

#[test]
fn event_cache_drops_events_without_destination() {
    let mut cache = WindowEventCache::new();
    cache.insert_theme_event(WindowThemeChanged { window: 3, theme: WindowTheme::Dark });

    // No incoming entity owns the window.
    let mut a = WindowRegistry::new();
    a.entity_to_window.insert(3, 12);
    let b = WindowRegistry::new();

    let mut inbox: Vec<WindowEvent> = Vec::new();
    cache.dispatch(&a, &b, &mut inbox);
    assert_eq!(inbox.len(), 0);
}

#[test]
fn map_window_entities_follows_the_shared_window_id() {
    let mut a = WindowRegistry::new();
    a.entity_to_window.insert(7, 10);
    let mut b = WindowRegistry::new();
    b.window_to_entity.insert(10, 3);

    assert_eq!(map_window_entities(&a, &b, 7), Some(3));
    assert_eq!(map_window_entities(&a, &b, 8), None);
}
