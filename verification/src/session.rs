//! The lifecycle of a graphics session as a state machine: from the state of
//! the session and what the backend answered, the next state and the
//! operations that the host has to carry out on the backend.
use vstd::prelude::*;
use crate::backend::{BackendError, BackendEvent, BackendOp, FeatureLevel, PixelFormat};
use crate::pacing::TimerModel;

verus! {

/// Buffers of the surface: one shown, one drawn to.
pub const BUFFER_COUNT: u32 = 2;

/// Vertical syncs that presenting a frame waits for.
pub const SYNC_INTERVAL: u32 = 1;

/// Width of the window that a host opens where nothing else is asked for.
pub const DEFAULT_WIDTH: i32 = 800;

/// Height of the window that a host opens where nothing else is asked for.
pub const DEFAULT_HEIGHT: i32 = 600;

/// Which of the five backend objects of a session exist.
#[derive(Clone, Copy, PartialEq, Eq, Debug, Structural)]
pub struct ResourceSet {
    pub device: bool,
    pub context: bool,
    pub swap_chain: bool,
    pub render_target_view: bool,
    pub depth_stencil_view: bool,
}

impl ResourceSet {
    /// None of the five exists.
    pub open spec fn none() -> ResourceSet {
        ResourceSet {
            device: false,
            context: false,
            swap_chain: false,
            render_target_view: false,
            depth_stencil_view: false,
        }
    }

    /// All five exist.
    pub open spec fn all() -> ResourceSet {
        ResourceSet {
            device: true,
            context: true,
            swap_chain: true,
            render_target_view: true,
            depth_stencil_view: true,
        }
    }
}

/// A failure that a session does not recover from.
#[derive(Clone, Copy, PartialEq, Eq, Debug, Structural)]
pub enum FatalError {
    /// The backend made no device at any tier.
    DeviceCreation,
    /// Resizing the surface failed, and not because the device was lost.
    SurfaceResize,
    /// The backend made no surface.
    SurfaceCreation,
    /// The backend made no views.
    ViewCreation,
    /// Presenting failed, and not because the device was lost.
    Present,
    /// The backend answered what the pending operations cannot answer.
    UnexpectedEvent,
}

/// Where a session stands.
#[derive(Clone, Copy, PartialEq, Eq, Debug, Structural)]
pub enum Stage {
    /// Nothing exists, nothing is pending.
    Uninitialized,
    /// A device was asked for.
    AwaitingDevice,
    /// The surface is being resized.
    AwaitingSurfaceResize,
    /// A surface was asked for.
    AwaitingSurfaceCreation,
    /// The views were asked for.
    AwaitingViews,
    /// Everything exists, nothing is pending.
    Ready,
    /// A frame was handed over to be shown.
    AwaitingPresent,
    /// The session has failed for good.
    Failed(FatalError),
}

impl Stage {
    /// Whether the session waits for the backend's answer to a plan.
    pub open spec fn awaiting(self) -> bool {
        self is AwaitingDevice || self is AwaitingSurfaceResize || self is AwaitingSurfaceCreation
            || self is AwaitingViews || self is AwaitingPresent
    }

    /// What exists at a stage; of a failed session nothing is said.
    pub open spec fn holds(self, resources: ResourceSet) -> bool {
        match self {
            Stage::Uninitialized | Stage::AwaitingDevice => resources == ResourceSet::none(),
            Stage::AwaitingSurfaceCreation => resources == (ResourceSet {
                device: true,
                context: true,
                ..ResourceSet::none()
            }),
            Stage::AwaitingSurfaceResize | Stage::AwaitingViews => resources == (ResourceSet {
                render_target_view: false,
                depth_stencil_view: false,
                ..ResourceSet::all()
            }),
            Stage::Ready | Stage::AwaitingPresent => resources == ResourceSet::all(),
            Stage::Failed(_) => true,
        }
    }
}

/// A size asked for, brought into what an output can have: at least one.
pub open spec fn clamp_size(size: int) -> int {
    if size < 1 {
        1
    } else {
        size
    }
}

/// The state of a game: its session and its timer.
pub struct GameModel {
    /// Width of the output, in pixels.
    pub output_width: int,
    /// Height of the output, in pixels.
    pub output_height: int,
    /// The tier at which the device was last made.
    pub feature_level: FeatureLevel,
    /// Whether devices are made with the backend's debug instrumentation.
    pub debug_layer: bool,
    /// What exists of the session.
    pub resources: ResourceSet,
    /// Where the session stands.
    pub stage: Stage,
    /// The timer that paces the updates.
    pub timer: TimerModel,
}

/// A state together with the operations that lead to it.
pub struct Planned {
    /// The state once the plan is handed out.
    pub game: GameModel,
    /// What the host has to carry out, in order.
    pub plan: Seq<BackendOp>,
}

impl GameModel {
    /// What holds of every game: the timer is in order, the output has a
    /// size, and what exists is what the stage says.
    pub open spec fn wf(self) -> bool {
        &&& self.timer.wf()
        &&& 1 <= self.output_width <= i32::MAX
        &&& 1 <= self.output_height <= i32::MAX
        &&& self.stage.holds(self.resources)
    }

    /// A game before its session is initialized.
    pub open spec fn init(frequency: nat, now: nat, debug_layer: bool) -> GameModel {
        GameModel {
            output_width: DEFAULT_WIDTH as int,
            output_height: DEFAULT_HEIGHT as int,
            feature_level: FeatureLevel::Level9_1,
            debug_layer,
            resources: ResourceSet::none(),
            stage: Stage::Uninitialized,
            timer: TimerModel::init(frequency, now),
        }
    }

    /// The game with the output size set to what was asked for, clamped.
    pub open spec fn with_size(self, width: int, height: int) -> GameModel {
        GameModel { output_width: clamp_size(width), output_height: clamp_size(height), ..self }
    }

    /// Asks for a device.
    pub open spec fn create_device(self) -> Planned {
        Planned {
            game: GameModel { stage: Stage::AwaitingDevice, ..self },
            plan: seq![BackendOp::CreateDevice { debug_layer: self.debug_layer }],
        }
    }

    /// Lets the views go and brings the surface to the output size: resizes
    /// the one that exists, or asks for one where none exists.
    pub open spec fn create_resources(self) -> Planned {
        let unbound = seq![BackendOp::UnbindTargets, BackendOp::ReleaseViews, BackendOp::Flush];
        let resources = ResourceSet {
            render_target_view: false,
            depth_stencil_view: false,
            ..self.resources
        };
        if self.resources.swap_chain {
            Planned {
                game: GameModel { resources, stage: Stage::AwaitingSurfaceResize, ..self },
                plan: unbound.push(
                    BackendOp::ResizeSurface {
                        buffer_count: BUFFER_COUNT,
                        width: self.output_width as u32,
                        height: self.output_height as u32,
                        format: PixelFormat::B8G8R8A8Unorm,
                    },
                ),
            }
        } else {
            Planned {
                game: GameModel { resources, stage: Stage::AwaitingSurfaceCreation, ..self },
                plan: unbound.push(
                    BackendOp::CreateSurface {
                        buffer_count: BUFFER_COUNT,
                        width: self.output_width as u32,
                        height: self.output_height as u32,
                        format: PixelFormat::B8G8R8A8Unorm,
                        windowed: true,
                    },
                ),
            }
        }
    }

    /// Asks for the views of a surface that has the output size.
    pub open spec fn create_views(self) -> Planned {
        Planned {
            game: GameModel {
                resources: ResourceSet { swap_chain: true, ..self.resources },
                stage: Stage::AwaitingViews,
                ..self
            },
            plan: seq![
                BackendOp::CreateViews {
                    width: self.output_width as u32,
                    height: self.output_height as u32,
                    depth_format: PixelFormat::D24UnormS8Uint,
                },
            ],
        }
    }

    /// Gives up all five objects at once and starts over with a new device.
    pub open spec fn on_device_lost(self) -> Planned {
        let released = GameModel { resources: ResourceSet::none(), ..self };
        Planned {
            game: released.create_device().game,
            plan: seq![BackendOp::ReleaseAll] + released.create_device().plan,
        }
    }

    /// The session failed for good: nothing more is asked of the backend.
    pub open spec fn fail(self, error: FatalError) -> Planned {
        Planned { game: GameModel { stage: Stage::Failed(error), ..self }, plan: Seq::empty() }
    }

    /// Nothing changes and nothing is asked of the backend.
    pub open spec fn stay(self) -> Planned {
        Planned { game: self, plan: Seq::empty() }
    }

    /// Initializes the session at the size asked for: asks for a device, to
    /// go on from there as [`GameModel::advance`] says.
    pub open spec fn initialize(self, width: int, height: int) -> Planned {
        self.with_size(width, height).create_device()
    }

    /// Takes on a new size of the window.
    pub open spec fn on_window_size_changed(self, width: int, height: int) -> Planned {
        self.with_size(width, height).create_resources()
    }

    /// Clears the targets and binds them with a viewport of the output size.
    pub open spec fn clear(self) -> Seq<BackendOp> {
        if self.resources.render_target_view && self.resources.depth_stencil_view
            && self.resources.context {
            seq![
                BackendOp::ClearColor,
                BackendOp::ClearDepthStencil,
                BackendOp::BindTargets,
                BackendOp::SetViewport {
                    width: self.output_width as u32,
                    height: self.output_height as u32,
                },
            ]
        } else {
            Seq::empty()
        }
    }

    /// Hands the frame over to be shown at the next vertical sync.
    pub open spec fn present(self) -> Planned {
        Planned {
            game: GameModel { stage: Stage::AwaitingPresent, ..self },
            plan: seq![BackendOp::Present { sync_interval: SYNC_INTERVAL }],
        }
    }

    /// Renders a frame: nothing before the first update; after it the targets
    /// are cleared and bound, the application draws, and the frame is
    /// presented.
    pub open spec fn render(self) -> Planned {
        if self.timer.frame_count == 0 {
            self.stay()
        } else {
            Planned {
                game: self.present().game,
                plan: self.clear().push(BackendOp::Draw) + self.present().plan,
            }
        }
    }

    /// One turn of the loop: the timer takes a sample at `now` and makes the
    /// updates that are due, then a frame is rendered.
    pub open spec fn tick(self, now: nat) -> Planned {
        (GameModel { timer: self.timer.tick(now), ..self }).render()
    }

    /// The game after a resume at counter reading `now`.
    pub open spec fn on_resuming(self, now: nat) -> GameModel {
        GameModel { timer: self.timer.reset(now), ..self }
    }

    /// What the backend's answer to the pending plan leads to.
    pub open spec fn advance(self, event: BackendEvent) -> Planned {
        match self.stage {
            Stage::AwaitingDevice => match event {
                BackendEvent::DeviceCreated(level) => (GameModel {
                    feature_level: level,
                    resources: ResourceSet { device: true, context: true, ..self.resources },
                    ..self
                }).create_resources(),
                BackendEvent::Failed(_) => self.fail(FatalError::DeviceCreation),
                BackendEvent::Completed => self.fail(FatalError::UnexpectedEvent),
            },
            Stage::AwaitingSurfaceResize => match event {
                BackendEvent::Completed => self.create_views(),
                BackendEvent::Failed(error) => if error.is_device_lost() {
                    self.on_device_lost()
                } else {
                    self.fail(FatalError::SurfaceResize)
                },
                BackendEvent::DeviceCreated(_) => self.fail(FatalError::UnexpectedEvent),
            },
            Stage::AwaitingSurfaceCreation => match event {
                BackendEvent::Completed => self.create_views(),
                BackendEvent::Failed(_) => self.fail(FatalError::SurfaceCreation),
                BackendEvent::DeviceCreated(_) => self.fail(FatalError::UnexpectedEvent),
            },
            Stage::AwaitingViews => match event {
                BackendEvent::Completed => (GameModel {
                    resources: ResourceSet {
                        render_target_view: true,
                        depth_stencil_view: true,
                        ..self.resources
                    },
                    stage: Stage::Ready,
                    ..self
                }).stay(),
                BackendEvent::Failed(_) => self.fail(FatalError::ViewCreation),
                BackendEvent::DeviceCreated(_) => self.fail(FatalError::UnexpectedEvent),
            },
            Stage::AwaitingPresent => match event {
                BackendEvent::Completed => (GameModel { stage: Stage::Ready, ..self }).stay(),
                BackendEvent::Failed(error) => if error.is_device_lost() {
                    self.on_device_lost()
                } else {
                    self.fail(FatalError::Present)
                },
                BackendEvent::DeviceCreated(_) => self.fail(FatalError::UnexpectedEvent),
            },
            Stage::Uninitialized | Stage::Ready | Stage::Failed(_) => self.stay(),
        }
    }
}

/// Every step of a session keeps the game in order: the output keeps a size
/// of at least one by one, and what exists stays what the stage says.
pub proof fn lemma_steps_keep_order(g: GameModel, event: BackendEvent, width: int, height: int)
    requires
        g.wf(),
        width <= i32::MAX,
        height <= i32::MAX,
    ensures
        g.advance(event).game.wf(),
        g.stage is Uninitialized ==> g.initialize(width, height).game.wf(),
        g.stage is Ready ==> g.on_window_size_changed(width, height).game.wf(),
        g.stage is Ready ==> g.render().game.wf(),
{
}

/// At rest a session owns all five backend objects or none of them: all when
/// it is ready, none when it is uninitialized. While a plan is pending the
/// session is neither.
pub proof fn lemma_all_or_none(g: GameModel)
    requires
        g.wf(),
    ensures
        g.stage is Ready ==> g.resources == ResourceSet::all(),
        g.stage is Uninitialized ==> g.resources == ResourceSet::none(),
        g.stage.awaiting() ==> !(g.stage is Ready) && !(g.stage is Uninitialized),
{
}

/// Initializing leads, where the backend does what it is asked, to a ready
/// session of the size asked for, clamped to at least one by one, at the tier
/// that the backend reported: a device is made, then a surface, then the
/// views.
pub proof fn lemma_initialize_reaches_ready(
    g: GameModel,
    width: int,
    height: int,
    level: FeatureLevel,
)
    requires
        g.wf(),
        g.stage is Uninitialized,
        width <= i32::MAX,
        height <= i32::MAX,
    ensures
        ({
            let asked = g.initialize(width, height);
            let device = asked.game.advance(BackendEvent::DeviceCreated(level));
            let surface = device.game.advance(BackendEvent::Completed);
            let views = surface.game.advance(BackendEvent::Completed);
            &&& asked.plan == seq![BackendOp::CreateDevice { debug_layer: g.debug_layer }]
            &&& device.plan == seq![
                BackendOp::UnbindTargets,
                BackendOp::ReleaseViews,
                BackendOp::Flush,
                BackendOp::CreateSurface {
                    buffer_count: BUFFER_COUNT,
                    width: clamp_size(width) as u32,
                    height: clamp_size(height) as u32,
                    format: PixelFormat::B8G8R8A8Unorm,
                    windowed: true,
                },
            ]
            &&& surface.plan == seq![
                BackendOp::CreateViews {
                    width: clamp_size(width) as u32,
                    height: clamp_size(height) as u32,
                    depth_format: PixelFormat::D24UnormS8Uint,
                },
            ]
            &&& views.plan == Seq::<BackendOp>::empty()
            &&& views.game == (GameModel {
                output_width: clamp_size(width),
                output_height: clamp_size(height),
                feature_level: level,
                resources: ResourceSet::all(),
                stage: Stage::Ready,
                ..g
            })
        }),
{
}

/// Resizing twice to the same size is resizing once: where the backend does
/// what it is asked, the second resize issues the plan that the first issued,
/// which resizes the surface in place and makes no new one, and leaves the
/// game exactly as the first left it, ready and with all five objects.
pub proof fn lemma_resize_idempotent(g: GameModel, width: int, height: int)
    requires
        g.wf(),
        g.stage is Ready,
        width <= i32::MAX,
        height <= i32::MAX,
    ensures
        ({
            let first = g.on_window_size_changed(width, height);
            let first_views = first.game.advance(BackendEvent::Completed);
            let once = first_views.game.advance(BackendEvent::Completed);
            let second = once.game.on_window_size_changed(width, height);
            let second_views = second.game.advance(BackendEvent::Completed);
            let twice = second_views.game.advance(BackendEvent::Completed);
            &&& first.plan == seq![
                BackendOp::UnbindTargets,
                BackendOp::ReleaseViews,
                BackendOp::Flush,
                BackendOp::ResizeSurface {
                    buffer_count: BUFFER_COUNT,
                    width: clamp_size(width) as u32,
                    height: clamp_size(height) as u32,
                    format: PixelFormat::B8G8R8A8Unorm,
                },
            ]
            &&& first_views.plan == seq![
                BackendOp::CreateViews {
                    width: clamp_size(width) as u32,
                    height: clamp_size(height) as u32,
                    depth_format: PixelFormat::D24UnormS8Uint,
                },
            ]
            &&& once.plan == Seq::<BackendOp>::empty()
            &&& once.game == g.with_size(width, height)
            &&& second.plan == first.plan
            &&& second_views.plan == first_views.plan
            &&& twice.plan == once.plan
            &&& twice.game == once.game
        }),
{
}

/// Recovery from a lost device: when presenting a frame reports the device
/// removed or reset, all five objects are released together, once, and a
/// device, a surface and the views are made anew, once each. Where the
/// backend does what it is asked, the session is ready again, with all five
/// objects and the size it had, before another frame is rendered.
pub proof fn lemma_device_loss_recovery(g: GameModel, error: BackendError, level: FeatureLevel)
    requires
        g.wf(),
        g.stage is Ready,
        g.timer.frame_count > 0,
        error.is_device_lost(),
    ensures
        ({
            let frame = g.render();
            let lost = frame.game.advance(BackendEvent::Failed(error));
            let device = lost.game.advance(BackendEvent::DeviceCreated(level));
            let surface = device.game.advance(BackendEvent::Completed);
            let views = surface.game.advance(BackendEvent::Completed);
            &&& frame.game.stage is AwaitingPresent
            &&& lost.plan == seq![
                BackendOp::ReleaseAll,
                BackendOp::CreateDevice { debug_layer: g.debug_layer },
            ]
            &&& lost.game.resources == ResourceSet::none()
            &&& device.plan == seq![
                BackendOp::UnbindTargets,
                BackendOp::ReleaseViews,
                BackendOp::Flush,
                BackendOp::CreateSurface {
                    buffer_count: BUFFER_COUNT,
                    width: g.output_width as u32,
                    height: g.output_height as u32,
                    format: PixelFormat::B8G8R8A8Unorm,
                    windowed: true,
                },
            ]
            &&& surface.plan == seq![
                BackendOp::CreateViews {
                    width: g.output_width as u32,
                    height: g.output_height as u32,
                    depth_format: PixelFormat::D24UnormS8Uint,
                },
            ]
            &&& views.plan == Seq::<BackendOp>::empty()
            &&& views.game == (GameModel { feature_level: level, ..g })
        }),
{
}

/// A frame asked for before the first update is no frame: nothing is asked of
/// the backend and the game stays as it is. After the first update a frame
/// clears both targets, binds them with a viewport of the output size, lets
/// the application draw, and is presented at the next vertical sync.
pub proof fn lemma_render_after_first_update(g: GameModel)
    requires
        g.wf(),
        g.stage is Ready,
    ensures
        g.timer.frame_count == 0 ==> g.render().plan == Seq::<BackendOp>::empty() && g.render().game
            == g,
        g.timer.frame_count > 0 ==> g.render().plan == seq![
            BackendOp::ClearColor,
            BackendOp::ClearDepthStencil,
            BackendOp::BindTargets,
            BackendOp::SetViewport { width: g.output_width as u32, height: g.output_height as u32 },
            BackendOp::Draw,
            BackendOp::Present { sync_interval: SYNC_INTERVAL },
        ] && g.render().game == (GameModel { stage: Stage::AwaitingPresent, ..g }),
{
}

} // verus!
