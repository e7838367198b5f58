use vstd::prelude::*;

use crate::plugins::BackgroundTickRate;
use crate::world::World;

verus! {

/// Records the world-swap status of a world.
///
/// Exactly one world is `Foreground` at any time; at most one world is
/// `Background`; any further worlds held by the embedding are `Suspended`.
#[derive(Debug, Copy, Clone, Eq, PartialEq, Structural)]
pub enum WorldSwapStatus {
    /// The world is suspended: owned by the embedding or in transit
    /// inside a command payload.
    Suspended,
    /// The world is running in the foreground.
    Foreground,
    /// The world is held in the background.
    Background,
}

/// Handle to a world's pipelined render stage. It is owned by whichever
/// world is currently foreground, detached from the outgoing world and
/// attached to the incoming one on every transition — moved, never
/// duplicated.
#[derive(Debug, Copy, Clone, Eq, PartialEq, Structural)]
pub struct RenderSubApp {
    /// Identity of the world the stage was built for.
    pub world_id: u64,
}

/// A world that is not in the foreground, together with the state that
/// travels with it while it is suspended or backgrounded.
#[derive(Debug)]
pub struct WorldSwapApp {
    /// The stored world.
    pub world: World,
    /// This world's tick policy for the background slot; `None` falls
    /// back to the orchestrator's default policy.
    pub background_tick_rate: Option<BackgroundTickRate>,
    /// Whether the world was paused by a freeze-time tick policy, and so
    /// must be unpaused when it returns to the foreground.
    pub paused_by_tick_policy: bool,
    /// Whether a timing-signal receiver is cached here while the world
    /// is away from the foreground.
    pub has_time_receiver: bool,
    /// Whether a timing-signal sender is cached here while the world is
    /// away from the foreground.
    pub has_time_sender: bool,
    /// The world's render stage, cached while the world is away from the
    /// foreground.
    pub render_app: Option<RenderSubApp>,
}

impl WorldSwapApp {
    /// Wraps a freshly built world for hand-off to the orchestrator,
    /// suspending it and caching its timing handles and render stage.
    ///
    /// Every swappable world must use the shared top-level update
    /// schedule; a world that does not cannot be wrapped.
    pub fn new(world: World) -> (r: Self)
        requires
            world.uses_main_schedule,
        ensures
            r.world == (World {
                status: WorldSwapStatus::Suspended,
                has_time_receiver: false,
                has_time_sender: false,
                render_app: None,
                ..world
            }),
            r.background_tick_rate is None,
            !r.paused_by_tick_policy,
            r.has_time_receiver == world.has_time_receiver,
            r.has_time_sender == world.has_time_sender,
            r.render_app == world.render_app,
    {
        let mut world = world;
        world.status = WorldSwapStatus::Suspended;
        let has_time_receiver = world.has_time_receiver;
        let has_time_sender = world.has_time_sender;
        let render_app = world.render_app;
        world.has_time_receiver = false;
        world.has_time_sender = false;
        world.render_app = None;
        WorldSwapApp {
            world,
            background_tick_rate: None,
            paused_by_tick_policy: false,
            has_time_receiver,
            has_time_sender,
            render_app,
        }
    }

    /// As [`WorldSwapApp::new`], with a specific background tick policy
    /// instead of the orchestrator's default.
    pub fn new_with(world: World, background_tick_rate: BackgroundTickRate) -> (r: Self)
        requires
            world.uses_main_schedule,
        ensures
            r.world == (World {
                status: WorldSwapStatus::Suspended,
                has_time_receiver: false,
                has_time_sender: false,
                render_app: None,
                ..world
            }),
            r.background_tick_rate == Some(background_tick_rate),
            !r.paused_by_tick_policy,
            r.has_time_receiver == world.has_time_receiver,
            r.has_time_sender == world.has_time_sender,
            r.render_app == world.render_app,
    {
        let mut app = Self::new(world);
        app.background_tick_rate = Some(background_tick_rate);
        app
    }
}

/// Command that controls which world is running.
///
/// Commands follow a single-layer fork/join pattern: `Fork` backgrounds
/// the current foreground and installs a new one, `Pass` replaces the
/// foreground outright, `Swap` exchanges foreground and background, and
/// `Join` merges the background back into the foreground slot. `Pass`
/// and `Fork` carry ownership of the incoming world.
#[derive(Debug)]
pub enum SwapCommand {
    /// Swap in another world and drop (or recover) the current one.
    Pass(WorldSwapApp),
    /// Swap in another world and put the current one in the background.
    /// Rejected as a fatal error if the background slot is occupied.
    Fork(WorldSwapApp),
    /// Exchange the foreground and background worlds. Rejected as a
    /// fatal error if the background slot is empty.
    Swap,
    /// Swap in the background world and drop (or recover) the current
    /// one. Rejected as a fatal error if the background slot is empty.
    Join,
}

/// Declares crossbeam::channel::Sender so it can stand in fields.
#[verifier::external_type_specification]
#[verifier::external_body]
#[verifier::reject_recursive_types(T)]
pub struct ExSender<T>(crossbeam::channel::Sender<T>);

/// Declares crossbeam::channel::Receiver so it can stand in fields.
#[verifier::external_type_specification]
#[verifier::external_body]
#[verifier::reject_recursive_types(T)]
pub struct ExReceiver<T>(crossbeam::channel::Receiver<T>);

/// Sends [`SwapCommand`]s to the orchestrator's mailbox from any world,
/// foreground or background. Only the last command sent during a tick is
/// applied.
pub struct SwapCommandSender(crossbeam::channel::Sender<SwapCommand>);

impl SwapCommandSender {
    /// Enqueues `command` for the next mailbox drain. Fire-and-forget:
    /// failures are ignored.
    ///
    /// Relies on crossbeam::channel::Sender::send, which on an unbounded
    /// channel does not block and fails only when the receiver is gone.
    #[verifier::external_body]
    pub fn send(&self, command: SwapCommand) {
        let _ = self.0.send(command);
    }

    /// Hands out another sender for the same mailbox.
    ///
    /// Relies on crossbeam::channel::Sender::clone: the clone feeds the
    /// same channel as the original.
    #[verifier::external_body]
    pub fn duplicate(&self) -> SwapCommandSender {
        SwapCommandSender(self.0.clone())
    }
}

/// Receives [`SwapCommand`]s; held only by the orchestrator, which
/// drains it once per tick.
pub struct SwapCommandReceiver(crossbeam::channel::Receiver<SwapCommand>);

/// Creates the command mailbox: many producers, one consumer, unbounded
/// and non-blocking on both sides.
///
/// Relies on crossbeam::channel::unbounded: the two handles are the ends
/// of one unbounded channel.
#[verifier::external_body]
pub(crate) fn new_command_channel() -> (SwapCommandSender, SwapCommandReceiver) {
    let (sender, receiver) = crossbeam::channel::unbounded();
    (SwapCommandSender(sender), SwapCommandReceiver(receiver))
}

/// Takes one pending command off the mailbox without blocking, or
/// returns `None` when the mailbox is currently empty.
///
/// Relies on crossbeam::channel::Receiver::try_recv, which returns a
/// message without blocking or reports an empty or disconnected channel.
#[verifier::external_body]
pub(crate) fn try_recv_command(receiver: &SwapCommandReceiver) -> Option<SwapCommand> {
    receiver.0.try_recv().ok()
}

} // verus!
