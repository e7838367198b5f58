use worldswap::app::{SwapCommand, WorldSwapApp, WorldSwapStatus};
use worldswap::plugins::{BackgroundTickRate, WorldSwapPlugin};
use worldswap::render_worker::{RenderWorker, RenderWorkerId, RenderWorkerTarget};
use worldswap::subapp::{RenderAction, SwapError, SwapKind, WorldSwapSubApp};
use worldswap::world::World;

fn never_freeze_config() -> WorldSwapPlugin {
    WorldSwapPlugin::default()
}

#[test]
fn fork_backgrounds_and_freezes_foreground() {
    // Empty background; foreground F issues Fork(G) under the default
    // policy Never { freeze_time: true }.
    let mut f = World::new(1);
    let (mut subapp, sender, receiver) = WorldSwapSubApp::new(never_freeze_config(), &mut f);
    assert_eq!(f.status, WorldSwapStatus::Foreground);

    let g = World::new(2);
    sender.send(SwapCommand::Fork(WorldSwapApp::new(g)));
    let outcome = subapp
        .world_swap_extract(&mut f, &receiver, &None)
        .expect("fork into an empty background succeeds");

    assert_eq!(outcome.applied, Some(SwapKind::Fork));
    // G became foreground.
    assert_eq!(f.id, 2);
    assert_eq!(f.status, WorldSwapStatus::Foreground);
    assert!(f.has_command_sender);
    // F became background with its virtual clock paused by policy.
    let bg = subapp.background.app.as_ref().expect("F is in the background");
    assert_eq!(bg.world.id, 1);
    assert_eq!(bg.world.status, WorldSwapStatus::Background);
    assert!(bg.world.time_paused);
    assert!(bg.paused_by_tick_policy);
}

#[test]
fn swap_unpauses_background_and_pauses_foreground() {
    // Background holds the paused world P; foreground F issues Swap.
    let mut f = World::new(1);
    let (mut subapp, sender, receiver) = WorldSwapSubApp::new(never_freeze_config(), &mut f);
    sender.send(SwapCommand::Fork(WorldSwapApp::new(World::new(2))));
    subapp.world_swap_extract(&mut f, &receiver, &None).unwrap();
    assert!(subapp.background.app.as_ref().unwrap().world.time_paused);

    sender.send(SwapCommand::Swap);
    let outcome = subapp
        .world_swap_extract(&mut f, &receiver, &None)
        .expect("swap with an occupied background succeeds");

    assert_eq!(outcome.applied, Some(SwapKind::Swap));
    // P became foreground with its clock unpaused.
    assert_eq!(f.id, 1);
    assert_eq!(f.status, WorldSwapStatus::Foreground);
    assert!(!f.time_paused);
    // F became background, paused per policy.
    let bg = subapp.background.app.as_ref().expect("F is in the background");
    assert_eq!(bg.world.id, 2);
    assert_eq!(bg.world.status, WorldSwapStatus::Background);
    assert!(bg.world.time_paused);
    assert!(bg.paused_by_tick_policy);
}

#[test]
fn foreground_exit_converts_to_join_when_background_occupied() {
    let mut config = never_freeze_config();
    config.swap_join_recovery = true;
    let mut f = World::new(1);
    let (mut subapp, sender, receiver) = WorldSwapSubApp::new(config, &mut f);
    sender.send(SwapCommand::Fork(WorldSwapApp::new(World::new(2))));
    subapp.world_swap_extract(&mut f, &receiver, &None).unwrap();

    // The foreground (id 2) emits a shutdown signal.
    f.exit_requested = true;
    let outcome = subapp
        .world_swap_extract(&mut f, &receiver, &None)
        .expect("the signal becomes an implicit join");

    assert!(outcome.intercepted_exit);
    assert_eq!(outcome.applied, Some(SwapKind::Join));
    // The signal was consumed, not propagated.
    assert!(!f.exit_requested);
    // The background world became foreground.
    assert_eq!(f.id, 1);
    assert_eq!(f.status, WorldSwapStatus::Foreground);
    assert!(subapp.background.app.is_none());
    // The prior foreground went to the join-recovery hook.
    let recovered = outcome.recovered.expect("join recovery receives the old foreground");
    assert_eq!(recovered.world.id, 2);
    assert_eq!(recovered.world.status, WorldSwapStatus::Suspended);
}

#[test]
fn foreground_exit_propagates_without_background() {
    let mut f = World::new(1);
    let (mut subapp, _sender, receiver) = WorldSwapSubApp::new(never_freeze_config(), &mut f);

    f.exit_requested = true;
    let outcome = subapp.world_swap_extract(&mut f, &receiver, &None).unwrap();

    assert!(!outcome.intercepted_exit);
    assert_eq!(outcome.applied, None);
    // The signal propagates unconverted; the embedding terminates.
    assert!(f.exit_requested);
}

#[test]
fn fork_fails_iff_background_occupied() {
    let mut f = World::new(1);
    let (mut subapp, sender, receiver) = WorldSwapSubApp::new(never_freeze_config(), &mut f);
    sender.send(SwapCommand::Fork(WorldSwapApp::new(World::new(2))));
    subapp.world_swap_extract(&mut f, &receiver, &None).unwrap();

    // Occupied background: a second fork is a fatal error.
    sender.send(SwapCommand::Fork(WorldSwapApp::new(World::new(3))));
    let err = subapp.world_swap_extract(&mut f, &receiver, &None).unwrap_err();
    assert_eq!(err, SwapError::ForkWithOccupiedBackground);
}

#[test]
fn swap_and_join_fail_iff_background_empty() {
    let mut f = World::new(1);
    let (mut subapp, sender, receiver) = WorldSwapSubApp::new(never_freeze_config(), &mut f);

    sender.send(SwapCommand::Swap);
    let err = subapp.world_swap_extract(&mut f, &receiver, &None).unwrap_err();
    assert_eq!(err, SwapError::SwapWithEmptyBackground);

    sender.send(SwapCommand::Join);
    let err = subapp.world_swap_extract(&mut f, &receiver, &None).unwrap_err();
    assert_eq!(err, SwapError::JoinWithEmptyBackground);

    // With an occupied slot both succeed.
    sender.send(SwapCommand::Fork(WorldSwapApp::new(World::new(2))));
    subapp.world_swap_extract(&mut f, &receiver, &None).unwrap();
    sender.send(SwapCommand::Swap);
    assert!(subapp.world_swap_extract(&mut f, &receiver, &None).is_ok());
    sender.send(SwapCommand::Join);
    assert!(subapp.world_swap_extract(&mut f, &receiver, &None).is_ok());
}

#[test]
fn only_the_last_command_of_a_tick_applies() {
    // Three commands in one tick: exactly the last one takes effect and
    // the two superseded ones are discarded.
    let mut f = World::new(1);
    let (mut subapp, sender, receiver) = WorldSwapSubApp::new(never_freeze_config(), &mut f);

    sender.send(SwapCommand::Pass(WorldSwapApp::new(World::new(3))));
    sender.send(SwapCommand::Pass(WorldSwapApp::new(World::new(4))));
    sender.send(SwapCommand::Pass(WorldSwapApp::new(World::new(5))));
    let outcome = subapp.world_swap_extract(&mut f, &receiver, &None).unwrap();

    assert_eq!(outcome.applied, Some(SwapKind::Pass));
    assert_eq!(outcome.discarded, 2);
    assert_eq!(f.id, 5);
    assert!(subapp.background.app.is_none());
}

#[test]
fn pass_recovery_receives_the_old_foreground() {
    let mut config = never_freeze_config();
    config.swap_pass_recovery = true;
    let mut f = World::new(1);
    let (mut subapp, sender, receiver) = WorldSwapSubApp::new(config, &mut f);

    sender.send(SwapCommand::Pass(WorldSwapApp::new(World::new(2))));
    let outcome = subapp.world_swap_extract(&mut f, &receiver, &None).unwrap();

    assert_eq!(f.id, 2);
    let recovered = outcome.recovered.expect("pass recovery receives the old foreground");
    assert_eq!(recovered.world.id, 1);
    assert_eq!(recovered.world.status, WorldSwapStatus::Suspended);
}

#[test]
fn every_tick_policy_advances_background_once_per_tick() {
    let mut config = never_freeze_config();
    config.background_tick_rate = BackgroundTickRate::EveryTick;
    let mut f = World::new(1);
    let (mut subapp, sender, receiver) = WorldSwapSubApp::new(config, &mut f);
    sender.send(SwapCommand::Fork(WorldSwapApp::new(World::new(2))));
    subapp.world_swap_extract(&mut f, &receiver, &None).unwrap();

    // The fork tick itself does not advance the background world.
    assert_eq!(subapp.background.app.as_ref().unwrap().world.updates, 0);
    // The background world is not paused under EveryTick.
    assert!(!subapp.background.app.as_ref().unwrap().world.time_paused);

    subapp.world_swap_extract(&mut f, &receiver, &None).unwrap();
    assert_eq!(subapp.background.app.as_ref().unwrap().world.updates, 1);
    subapp.world_swap_extract(&mut f, &receiver, &None).unwrap();
    assert_eq!(subapp.background.app.as_ref().unwrap().world.updates, 2);
}

#[test]
fn never_policy_keeps_background_still() {
    let mut f = World::new(1);
    let (mut subapp, sender, receiver) = WorldSwapSubApp::new(never_freeze_config(), &mut f);
    sender.send(SwapCommand::Fork(WorldSwapApp::new(World::new(2))));
    subapp.world_swap_extract(&mut f, &receiver, &None).unwrap();

    subapp.world_swap_extract(&mut f, &receiver, &None).unwrap();
    subapp.world_swap_extract(&mut f, &receiver, &None).unwrap();
    assert_eq!(subapp.background.app.as_ref().unwrap().world.updates, 0);
}

#[test]
fn background_exit_escalates_when_configured() {
    let mut config = never_freeze_config();
    config.abort_on_background_exit = true;
    let mut f = World::new(1);
    let (mut subapp, sender, receiver) = WorldSwapSubApp::new(config, &mut f);
    sender.send(SwapCommand::Fork(WorldSwapApp::new(World::new(2))));
    subapp.world_swap_extract(&mut f, &receiver, &None).unwrap();

    subapp.background.app.as_mut().unwrap().world.exit_requested = true;
    subapp.world_swap_extract(&mut f, &receiver, &None).unwrap();

    // Escalated to whole-process shutdown.
    assert!(f.exit_requested);
}

#[test]
fn background_exit_discards_world_when_not_configured() {
    let mut f = World::new(1);
    let (mut subapp, sender, receiver) = WorldSwapSubApp::new(never_freeze_config(), &mut f);
    sender.send(SwapCommand::Fork(WorldSwapApp::new(World::new(2))));
    subapp.world_swap_extract(&mut f, &receiver, &None).unwrap();

    subapp.background.app.as_mut().unwrap().world.exit_requested = true;
    subapp.world_swap_extract(&mut f, &receiver, &None).unwrap();

    // The background world was silently discarded; no process exit.
    assert!(!f.exit_requested);
    assert!(subapp.background.app.is_none());
}

#[test]
fn exactly_one_foreground_across_ticks() {
    // Invariant: across fork, swap and join there is exactly one
    // foreground world and at most one background world.
    let mut f = World::new(1);
    let (mut subapp, sender, receiver) = WorldSwapSubApp::new(never_freeze_config(), &mut f);

    sender.send(SwapCommand::Fork(WorldSwapApp::new(World::new(2))));
    subapp.world_swap_extract(&mut f, &receiver, &None).unwrap();
    assert_eq!(f.status, WorldSwapStatus::Foreground);
    assert_eq!(
        subapp.background.app.as_ref().unwrap().world.status,
        WorldSwapStatus::Background
    );

    sender.send(SwapCommand::Swap);
    subapp.world_swap_extract(&mut f, &receiver, &None).unwrap();
    assert_eq!(f.status, WorldSwapStatus::Foreground);
    assert_eq!(
        subapp.background.app.as_ref().unwrap().world.status,
        WorldSwapStatus::Background
    );

    sender.send(SwapCommand::Join);
    subapp.world_swap_extract(&mut f, &receiver, &None).unwrap();
    assert_eq!(f.status, WorldSwapStatus::Foreground);
    assert!(subapp.background.app.is_none());
}

#[test]
fn render_skipped_while_other_worker_occupies_pipeline() {
    let mut f = World::new(1);
    f.render_app = Some(worldswap::app::RenderSubApp { world_id: 1 });
    f.has_time_sender = true;
    let (mut subapp, _sender, receiver) = WorldSwapSubApp::new(never_freeze_config(), &mut f);

    // Idle pipeline: the foreground extracts.
    let mut target = RenderWorkerTarget::new();
    let outcome = subapp
        .world_swap_extract(&mut f, &receiver, &Some(target))
        .unwrap();
    assert_eq!(outcome.render, RenderAction::Extracted);

    // Another world's worker occupies the pipeline: a timing pulse is
    // sent instead.
    target = RenderWorkerTarget::new();
    let other = RenderWorker { id: RenderWorkerId(77) };
    other.set(&mut target);
    let outcome = subapp
        .world_swap_extract(&mut f, &receiver, &Some(target))
        .unwrap();
    assert_eq!(outcome.render, RenderAction::TimeSent);

    // The pipeline target released again: extraction resumes.
    let mut target = RenderWorkerTarget::new();
    let own = RenderWorker { id: RenderWorkerId(1) };
    own.set(&mut target);
    own.unset(&mut target);
    let outcome = subapp
        .world_swap_extract(&mut f, &receiver, &Some(target))
        .unwrap();
    assert_eq!(outcome.render, RenderAction::Extracted);
}
