//! The game: a graphics session and the timer that paces it.
use vstd::prelude::*;
use crate::backend::{BackendEvent, BackendOp, FeatureLevel, PixelFormat};
use crate::session::{
    FatalError, GameModel, ResourceSet, Stage, BUFFER_COUNT, DEFAULT_HEIGHT, DEFAULT_WIDTH,
    SYNC_INTERVAL,
};
use crate::step_timer::StepTimer;

verus! {

/// A graphics session with the timer that paces its updates. The game holds
/// no backend object itself: it keeps account of which exist, and tells the
/// host, plan by plan, what to do on the backend.
pub struct Game {
    output_width: i32,
    output_height: i32,
    feature_level: FeatureLevel,
    debug_layer: bool,
    resources: ResourceSet,
    stage: Stage,
    timer: StepTimer,
}

impl View for Game {
    type V = GameModel;

    closed spec fn view(&self) -> GameModel {
        GameModel {
            output_width: self.output_width as int,
            output_height: self.output_height as int,
            feature_level: self.feature_level,
            debug_layer: self.debug_layer,
            resources: self.resources,
            stage: self.stage,
            timer: self.timer@,
        }
    }
}

/// The larger of a size asked for and one.
fn at_least_one(size: i32) -> (clamped: i32)
    ensures
        clamped == crate::session::clamp_size(size as int),
{
    if size < 1 {
        1
    } else {
        size
    }
}

impl Game {
    /// Whether the game is in order: its model is, and so is its timer.
    pub closed spec fn wf(&self) -> bool {
        &&& self@.wf()
        &&& self.timer.wf()
    }

    /// A game with a session that is not yet initialized, its timer made for
    /// a counter of `frequency` units per second at counter reading `now`.
    pub fn new(frequency: u64, now: u64, debug_layer: bool) -> (game: Game)
        requires
            frequency > 0,
        ensures
            game.wf(),
            game@ == GameModel::init(frequency as nat, now as nat, debug_layer),
    {
        Game {
            output_width: DEFAULT_WIDTH,
            output_height: DEFAULT_HEIGHT,
            feature_level: FeatureLevel::Level9_1,
            debug_layer,
            resources: ResourceSet {
                device: false,
                context: false,
                swap_chain: false,
                render_target_view: false,
                depth_stencil_view: false,
            },
            stage: Stage::Uninitialized,
            timer: StepTimer::new(frequency, now),
        }
    }

    /// Initializes the session for a window of the size given, a size below
    /// one counting as one. The plan asks for a device; what the backend
    /// answers goes to [`Game::advance`] until nothing is pending.
    pub fn initialize(&mut self, width: i32, height: i32) -> (plan: Vec<BackendOp>)
        requires
            old(self).wf(),
            old(self)@.stage is Uninitialized,
        ensures
            final(self).wf(),
            final(self)@ == old(self)@.initialize(width as int, height as int).game,
            plan@ == old(self)@.initialize(width as int, height as int).plan,
    {
        self.output_width = at_least_one(width);
        self.output_height = at_least_one(height);

        let mut plan: Vec<BackendOp> = Vec::new();
        self.create_device(&mut plan);
        plan
    }

    /// Asks for a device.
    fn create_device(&mut self, plan: &mut Vec<BackendOp>)
        requires
            old(self).timer.wf(),
        ensures
            final(self).timer.wf(),
            final(self)@ == old(self)@.create_device().game,
            final(plan)@ == old(plan)@ + old(self)@.create_device().plan,
    {
        plan.push(BackendOp::CreateDevice { debug_layer: self.debug_layer });
        self.stage = Stage::AwaitingDevice;
        assert(plan@ =~= old(plan)@ + old(self)@.create_device().plan);
    }

    /// Lets the views go and brings the surface to the output size: resizes
    /// the one that exists, or asks for one where none exists.
    fn create_resources(&mut self, plan: &mut Vec<BackendOp>)
        requires
            old(self).timer.wf(),
            1 <= old(self).output_width,
            1 <= old(self).output_height,
        ensures
            final(self).timer.wf(),
            final(self)@ == old(self)@.create_resources().game,
            final(plan)@ == old(plan)@ + old(self)@.create_resources().plan,
    {
        plan.push(BackendOp::UnbindTargets);
        self.resources.render_target_view = false;
        self.resources.depth_stencil_view = false;
        plan.push(BackendOp::ReleaseViews);
        plan.push(BackendOp::Flush);

        let back_buffer_width: u32 = self.output_width as u32;
        let back_buffer_height: u32 = self.output_height as u32;
        let back_buffer_format = PixelFormat::B8G8R8A8Unorm;

        // If the surface already exists, resize it, otherwise create one.
        if self.resources.swap_chain {
            plan.push(
                BackendOp::ResizeSurface {
                    buffer_count: BUFFER_COUNT,
                    width: back_buffer_width,
                    height: back_buffer_height,
                    format: back_buffer_format,
                },
            );
            self.stage = Stage::AwaitingSurfaceResize;
        } else {
            plan.push(
                BackendOp::CreateSurface {
                    buffer_count: BUFFER_COUNT,
                    width: back_buffer_width,
                    height: back_buffer_height,
                    format: back_buffer_format,
                    windowed: true,
                },
            );
            self.stage = Stage::AwaitingSurfaceCreation;
        }
        assert(plan@ =~= old(plan)@ + old(self)@.create_resources().plan);
    }

    /// Asks for the views of a surface that has the output size.
    fn create_views(&mut self) -> (plan: Vec<BackendOp>)
        requires
            old(self).timer.wf(),
            1 <= old(self).output_width,
            1 <= old(self).output_height,
        ensures
            final(self).timer.wf(),
            final(self)@ == old(self)@.create_views().game,
            plan@ == old(self)@.create_views().plan,
    {
        let mut plan: Vec<BackendOp> = Vec::new();
        self.resources.swap_chain = true;
        plan.push(
            BackendOp::CreateViews {
                width: self.output_width as u32,
                height: self.output_height as u32,
                depth_format: PixelFormat::D24UnormS8Uint,
            },
        );
        self.stage = Stage::AwaitingViews;
        assert(plan@ =~= old(self)@.create_views().plan);
        plan
    }

    /// Gives up all five objects at once and starts over with a new device.
    fn on_device_lost(&mut self) -> (plan: Vec<BackendOp>)
        requires
            old(self).timer.wf(),
        ensures
            final(self).timer.wf(),
            final(self)@ == old(self)@.on_device_lost().game,
            plan@ == old(self)@.on_device_lost().plan,
    {
        let mut plan: Vec<BackendOp> = Vec::new();
        plan.push(BackendOp::ReleaseAll);
        self.resources.depth_stencil_view = false;
        self.resources.render_target_view = false;
        self.resources.swap_chain = false;
        self.resources.context = false;
        self.resources.device = false;
        self.create_device(&mut plan);
        assert(plan@ =~= old(self)@.on_device_lost().plan);
        plan
    }

    /// The session failed for good.
    fn fail(&mut self, error: FatalError) -> (plan: Vec<BackendOp>)
        requires
            old(self).timer.wf(),
        ensures
            final(self).timer.wf(),
            final(self)@ == old(self)@.fail(error).game,
            plan@ == old(self)@.fail(error).plan,
    {
        self.stage = Stage::Failed(error);
        Vec::new()
    }

    /// Takes the backend's answer to the pending plan and says what to do
    /// next. A lost device, reported while the surface is resized or a frame
    /// presented, has everything released and made anew; any other failure is
    /// final. With nothing pending, the answer is ignored. An empty plan
    /// means that the session has come to rest, ready or failed.
    pub fn advance(&mut self, event: BackendEvent) -> (plan: Vec<BackendOp>)
        requires
            old(self).wf(),
        ensures
            final(self).wf(),
            final(self)@ == old(self)@.advance(event).game,
            plan@ == old(self)@.advance(event).plan,
    {
        match self.stage {
            Stage::AwaitingDevice => match event {
                BackendEvent::DeviceCreated(level) => {
                    self.feature_level = level;
                    self.resources.device = true;
                    self.resources.context = true;
                    let mut plan: Vec<BackendOp> = Vec::new();
                    self.create_resources(&mut plan);
                    plan
                },
                BackendEvent::Failed(_) => self.fail(FatalError::DeviceCreation),
                BackendEvent::Completed => self.fail(FatalError::UnexpectedEvent),
            },
            Stage::AwaitingSurfaceResize => match event {
                BackendEvent::Completed => self.create_views(),
                BackendEvent::Failed(error) => {
                    if error.device_lost() {
                        // A new device and surface are needed: recovery sets
                        // everything up again from the start.
                        self.on_device_lost()
                    } else {
                        self.fail(FatalError::SurfaceResize)
                    }
                },
                BackendEvent::DeviceCreated(_) => self.fail(FatalError::UnexpectedEvent),
            },
            Stage::AwaitingSurfaceCreation => match event {
                BackendEvent::Completed => self.create_views(),
                BackendEvent::Failed(_) => self.fail(FatalError::SurfaceCreation),
                BackendEvent::DeviceCreated(_) => self.fail(FatalError::UnexpectedEvent),
            },
            Stage::AwaitingViews => match event {
                BackendEvent::Completed => {
                    self.resources.render_target_view = true;
                    self.resources.depth_stencil_view = true;
                    self.stage = Stage::Ready;
                    Vec::new()
                },
                BackendEvent::Failed(_) => self.fail(FatalError::ViewCreation),
                BackendEvent::DeviceCreated(_) => self.fail(FatalError::UnexpectedEvent),
            },
            Stage::AwaitingPresent => match event {
                BackendEvent::Completed => {
                    self.stage = Stage::Ready;
                    Vec::new()
                },
                BackendEvent::Failed(error) => {
                    // If the device was lost the renderer is set up anew.
                    if error.device_lost() {
                        self.on_device_lost()
                    } else {
                        self.fail(FatalError::Present)
                    }
                },
                BackendEvent::DeviceCreated(_) => self.fail(FatalError::UnexpectedEvent),
            },
            Stage::Uninitialized | Stage::Ready | Stage::Failed(_) => Vec::new(),
        }
    }

    /// One turn of the loop: the timer takes a sample at `now` and makes the
    /// updates that are due, telling each the canonical ticks it advances by;
    /// then a frame is rendered. Before the first update the plan is empty
    /// and the session stays ready.
    pub fn tick<F: Fn(u64)>(&mut self, now: u64, update_func: F) -> (plan: Vec<BackendOp>)
        requires
            old(self).wf(),
            old(self)@.stage is Ready,
            old(self)@.timer.tick_fits(now as nat),
            old(self)@.timer.updates(now as nat) > 0 ==> forall|elapsed: u64|
                elapsed == old(self)@.timer.update_elapsed(now as nat) ==> update_func.requires(
                    (elapsed,),
                ),
        ensures
            final(self).wf(),
            final(self)@ == old(self)@.tick(now as nat).game,
            plan@ == old(self)@.tick(now as nat).plan,
    {
        self.timer.tick(now, update_func);

        self.render()
    }

    /// Renders a frame. Before the first update nothing is rendered: the plan
    /// is empty and the session stays ready. After it the plan clears the
    /// targets, binds them with a viewport of the output size, lets the
    /// application draw and presents the frame; what the backend answers goes
    /// to [`Game::advance`].
    pub fn render(&mut self) -> (plan: Vec<BackendOp>)
        requires
            old(self).wf(),
            old(self)@.stage is Ready,
        ensures
            final(self).wf(),
            final(self)@ == old(self)@.render().game,
            plan@ == old(self)@.render().plan,
    {
        let mut plan: Vec<BackendOp> = Vec::new();
        // Don't try to render anything before the first update.
        if self.timer.get_frame_count() == 0 {
            return plan;
        }
        self.clear(&mut plan);

        plan.push(BackendOp::Draw);

        self.present(&mut plan);
        assert(plan@ =~= old(self)@.render().plan);
        plan
    }

    /// Clears the targets and binds them with a viewport of the output size.
    fn clear(&self, plan: &mut Vec<BackendOp>)
        requires
            1 <= self.output_width,
            1 <= self.output_height,
        ensures
            final(plan)@ == old(plan)@ + self@.clear(),
    {
        if self.resources.render_target_view && self.resources.depth_stencil_view
            && self.resources.context {
            plan.push(BackendOp::ClearColor);
            plan.push(BackendOp::ClearDepthStencil);
            plan.push(BackendOp::BindTargets);
            plan.push(
                BackendOp::SetViewport {
                    width: self.output_width as u32,
                    height: self.output_height as u32,
                },
            );
        }
        assert(plan@ =~= old(plan)@ + self@.clear());
    }

    /// Hands the frame over to be shown. Waiting for the vertical sync puts
    /// the host to sleep until the frame can be displayed.
    fn present(&mut self, plan: &mut Vec<BackendOp>)
        requires
            old(self).timer.wf(),
        ensures
            final(self).timer.wf(),
            final(self)@ == old(self)@.present().game,
            final(plan)@ == old(plan)@ + old(self)@.present().plan,
    {
        plan.push(BackendOp::Present { sync_interval: SYNC_INTERVAL });
        self.stage = Stage::AwaitingPresent;
        assert(plan@ =~= old(plan)@ + old(self)@.present().plan);
    }

    /// The game became the active window. Nothing changes.
    pub fn on_activated(&mut self)
        ensures
            *final(self) == *old(self),
    {
    }

    /// The game became a background window. Nothing changes.
    pub fn on_deactivated(&mut self)
        ensures
            *final(self) == *old(self),
    {
    }

    /// The game is being suspended or minimized. Nothing changes.
    pub fn on_suspending(&mut self)
        ensures
            *final(self) == *old(self),
    {
    }

    /// The game is being resumed, at counter reading `now`: the timer starts
    /// measuring afresh, so that the time spent suspended is not counted.
    pub fn on_resuming(&mut self, now: u64)
        requires
            old(self).wf(),
        ensures
            final(self).wf(),
            final(self)@ == old(self)@.on_resuming(now as nat),
    {
        self.timer.reset_elapsed_time(now);
    }

    /// The window has a new size, a size below one counting as one: the views
    /// are let go and the surface is resized in place. What the backend
    /// answers goes to [`Game::advance`] until nothing is pending.
    pub fn on_window_size_changed(&mut self, width: i32, height: i32) -> (plan: Vec<BackendOp>)
        requires
            old(self).wf(),
            old(self)@.stage is Ready,
        ensures
            final(self).wf(),
            final(self)@ == old(self)@.on_window_size_changed(width as int, height as int).game,
            plan@ == old(self)@.on_window_size_changed(width as int, height as int).plan,
    {
        self.output_width = at_least_one(width);
        self.output_height = at_least_one(height);

        let mut plan: Vec<BackendOp> = Vec::new();
        self.create_resources(&mut plan);
        plan
    }

    /// The size of the window that a host opens where nothing else is asked
    /// for.
    pub fn get_default_size(&self, width: &mut i32, height: &mut i32)
        ensures
            *final(width) == DEFAULT_WIDTH,
            *final(height) == DEFAULT_HEIGHT,
    {
        *width = DEFAULT_WIDTH;
        *height = DEFAULT_HEIGHT;
    }

    /// Where the session stands.
    pub fn stage(&self) -> (stage: Stage)
        ensures
            stage == self@.stage,
    {
        self.stage
    }

    /// Which of the five backend objects exist.
    pub fn resources(&self) -> (resources: ResourceSet)
        ensures
            resources == self@.resources,
    {
        self.resources
    }

    /// Width and height of the output, in pixels.
    pub fn output_size(&self) -> (size: (i32, i32))
        ensures
            size.0 == self@.output_width,
            size.1 == self@.output_height,
    {
        (self.output_width, self.output_height)
    }

    /// The tier at which the device was last made.
    pub fn feature_level(&self) -> (level: FeatureLevel)
        ensures
            level == self@.feature_level,
    {
        self.feature_level
    }

    /// The timer that paces the updates.
    pub fn timer(&self) -> (timer: &StepTimer)
        ensures
            timer@ == self@.timer,
            self.wf() ==> timer.wf(),
    {
        &self.timer
    }
}

} // verus!
