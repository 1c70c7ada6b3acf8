use game_loop::backend::{BackendError, BackendEvent, BackendOp, FeatureLevel, PixelFormat};
use game_loop::game::Game;
use game_loop::session::{FatalError, ResourceSet, Stage};
use std::cell::Cell;

const FREQUENCY: u64 = 10_000_000;

const NONE: ResourceSet = ResourceSet {
    device: false,
    context: false,
    swap_chain: false,
    render_target_view: false,
    depth_stencil_view: false,
};

const ALL: ResourceSet = ResourceSet {
    device: true,
    context: true,
    swap_chain: true,
    render_target_view: true,
    depth_stencil_view: true,
};

fn unbind_and(last: BackendOp) -> Vec<BackendOp> {
    vec![BackendOp::UnbindTargets, BackendOp::ReleaseViews, BackendOp::Flush, last]
}

fn create_surface(width: u32, height: u32) -> BackendOp {
    BackendOp::CreateSurface {
        buffer_count: 2,
        width,
        height,
        format: PixelFormat::B8G8R8A8Unorm,
        windowed: true,
    }
}

fn resize_surface(width: u32, height: u32) -> BackendOp {
    BackendOp::ResizeSurface { buffer_count: 2, width, height, format: PixelFormat::B8G8R8A8Unorm }
}

fn create_views(width: u32, height: u32) -> BackendOp {
    BackendOp::CreateViews { width, height, depth_format: PixelFormat::D24UnormS8Uint }
}

fn frame(width: u32, height: u32) -> Vec<BackendOp> {
    vec![
        BackendOp::ClearColor,
        BackendOp::ClearDepthStencil,
        BackendOp::BindTargets,
        BackendOp::SetViewport { width, height },
        BackendOp::Draw,
        BackendOp::Present { sync_interval: 1 },
    ]
}

fn ready_game(width: i32, height: i32) -> Game {
    let mut game = Game::new(FREQUENCY, 0, false);
    game.initialize(width, height);
    game.advance(BackendEvent::DeviceCreated(FeatureLevel::Level11_0));
    game.advance(BackendEvent::Completed);
    game.advance(BackendEvent::Completed);
    assert_eq!(game.stage(), Stage::Ready);
    game
}

fn presenting_game() -> Game {
    let mut game = ready_game(640, 480);
    let plan = game.tick(1_000, |_| {});
    assert_eq!(plan, frame(640, 480));
    assert_eq!(game.stage(), Stage::AwaitingPresent);
    game
}

#[test]
fn new_game_owns_nothing() {
    let game = Game::new(FREQUENCY, 0, true);
    assert_eq!(game.stage(), Stage::Uninitialized);
    assert_eq!(game.resources(), NONE);
    assert_eq!(game.output_size(), (800, 600));
    assert_eq!(game.feature_level(), FeatureLevel::Level9_1);
    assert_eq!(game.timer().get_frame_count(), 0);
}

#[test]
fn default_size_is_800_by_600() {
    let game = Game::new(FREQUENCY, 0, false);
    let mut width = 0;
    let mut height = 0;
    game.get_default_size(&mut width, &mut height);
    assert_eq!(width, 800);
    assert_eq!(height, 600);
}

#[test]
fn initialize_with_no_size_gives_one_by_one() {
    let mut game = Game::new(FREQUENCY, 0, false);
    let plan = game.initialize(0, 0);
    assert_eq!(plan, vec![BackendOp::CreateDevice { debug_layer: false }]);
    assert_eq!(game.output_size(), (1, 1));
    assert_eq!(game.stage(), Stage::AwaitingDevice);
    assert_eq!(game.resources(), NONE);

    let plan = game.advance(BackendEvent::DeviceCreated(FeatureLevel::Level10_1));
    assert_eq!(plan, unbind_and(create_surface(1, 1)));
    assert_eq!(game.stage(), Stage::AwaitingSurfaceCreation);
    assert_eq!(game.feature_level(), FeatureLevel::Level10_1);
    assert_eq!(
        game.resources(),
        ResourceSet { device: true, context: true, ..NONE }
    );

    let plan = game.advance(BackendEvent::Completed);
    assert_eq!(plan, vec![create_views(1, 1)]);
    assert_eq!(game.stage(), Stage::AwaitingViews);
    assert_eq!(
        game.resources(),
        ResourceSet { render_target_view: false, depth_stencil_view: false, ..ALL }
    );

    let plan = game.advance(BackendEvent::Completed);
    assert_eq!(plan, vec![]);
    assert_eq!(game.stage(), Stage::Ready);
    assert_eq!(game.resources(), ALL);
    assert_eq!(game.output_size(), (1, 1));
}

#[test]
fn initialize_clamps_each_dimension_by_itself() {
    let mut game = Game::new(FREQUENCY, 0, false);
    game.initialize(-20, 480);
    assert_eq!(game.output_size(), (1, 480));
    let mut game = Game::new(FREQUENCY, 0, false);
    game.initialize(640, i32::MIN);
    assert_eq!(game.output_size(), (640, 1));
    let mut game = Game::new(FREQUENCY, 0, false);
    game.initialize(i32::MAX, 1);
    assert_eq!(game.output_size(), (i32::MAX, 1));
}

#[test]
fn debug_layer_is_asked_for_with_the_device() {
    let mut game = Game::new(FREQUENCY, 0, true);
    assert_eq!(game.initialize(800, 600), vec![BackendOp::CreateDevice { debug_layer: true }]);
}

#[test]
fn render_before_the_first_update_does_nothing() {
    let mut game = ready_game(800, 600);
    let plan = game.render();
    assert_eq!(plan, vec![]);
    assert_eq!(game.stage(), Stage::Ready);
    assert_eq!(game.resources(), ALL);
    assert_eq!(game.timer().get_frame_count(), 0);
}

#[test]
fn tick_updates_and_renders_a_frame() {
    let mut game = ready_game(800, 600);
    let calls = Cell::new(0u32);
    let reported = Cell::new(0u64);
    let plan = game.tick(2_500, |elapsed| {
        calls.set(calls.get() + 1);
        reported.set(elapsed);
    });
    assert_eq!(calls.get(), 1);
    assert_eq!(reported.get(), 2_500);
    assert_eq!(plan, frame(800, 600));
    assert_eq!(game.stage(), Stage::AwaitingPresent);
    assert_eq!(game.timer().get_frame_count(), 1);
    assert_eq!(game.timer().get_total_ticks(), 2_500);

    let plan = game.advance(BackendEvent::Completed);
    assert_eq!(plan, vec![]);
    assert_eq!(game.stage(), Stage::Ready);
    assert_eq!(game.resources(), ALL);
}

#[test]
fn render_after_an_update_presents_a_frame() {
    let mut game = ready_game(320, 200);
    game.tick(10, |_| {});
    game.advance(BackendEvent::Completed);
    let plan = game.render();
    assert_eq!(plan, frame(320, 200));
    assert_eq!(game.stage(), Stage::AwaitingPresent);
}

#[test]
fn resize_of_a_ready_session_resizes_the_surface_in_place() {
    let mut game = ready_game(800, 600);
    let plan = game.on_window_size_changed(1024, 768);
    assert_eq!(plan, unbind_and(resize_surface(1024, 768)));
    assert_eq!(game.output_size(), (1024, 768));
    assert_eq!(game.stage(), Stage::AwaitingSurfaceResize);
    assert_eq!(
        game.resources(),
        ResourceSet { render_target_view: false, depth_stencil_view: false, ..ALL }
    );

    let plan = game.advance(BackendEvent::Completed);
    assert_eq!(plan, vec![create_views(1024, 768)]);
    let plan = game.advance(BackendEvent::Completed);
    assert_eq!(plan, vec![]);
    assert_eq!(game.stage(), Stage::Ready);
    assert_eq!(game.resources(), ALL);
    assert_eq!(game.feature_level(), FeatureLevel::Level11_0);

    game.tick(100, |_| {});
    game.advance(BackendEvent::Completed);
    assert_eq!(game.render(), frame(1024, 768));
}

#[test]
fn resize_floors_both_dimensions_to_one() {
    let mut game = ready_game(800, 600);
    let plan = game.on_window_size_changed(0, 0);
    assert_eq!(plan, unbind_and(resize_surface(1, 1)));
    assert_eq!(game.output_size(), (1, 1));
    game.advance(BackendEvent::Completed);
    game.advance(BackendEvent::Completed);

    let plan = game.on_window_size_changed(-3, 768);
    assert_eq!(plan, unbind_and(resize_surface(1, 768)));
    assert_eq!(game.output_size(), (1, 768));
    game.advance(BackendEvent::Completed);
    game.advance(BackendEvent::Completed);

    let plan = game.on_window_size_changed(1024, -1);
    assert_eq!(plan, unbind_and(resize_surface(1024, 1)));
    assert_eq!(game.output_size(), (1024, 1));
}

#[test]
fn resize_twice_to_the_same_size_is_resize_once() {
    let mut game = ready_game(800, 600);
    let first = game.on_window_size_changed(1280, 720);
    let first_views = game.advance(BackendEvent::Completed);
    assert_eq!(game.advance(BackendEvent::Completed), vec![]);
    let size = game.output_size();
    let resources = game.resources();
    let stage = game.stage();

    let second = game.on_window_size_changed(1280, 720);
    let second_views = game.advance(BackendEvent::Completed);
    assert_eq!(game.advance(BackendEvent::Completed), vec![]);
    assert_eq!(second, first);
    assert_eq!(second_views, first_views);
    assert_eq!(game.output_size(), size);
    assert_eq!(game.output_size(), (1280, 720));
    assert_eq!(game.resources(), resources);
    assert_eq!(game.stage(), stage);
    assert_eq!(game.stage(), Stage::Ready);
}

#[test]
fn device_removed_on_present_recreates_everything_once() {
    let mut game = presenting_game();
    let plan = game.advance(BackendEvent::Failed(BackendError::DeviceRemoved));
    assert_eq!(plan, vec![BackendOp::ReleaseAll, BackendOp::CreateDevice { debug_layer: false }]);
    assert_eq!(game.stage(), Stage::AwaitingDevice);
    assert_eq!(game.resources(), NONE);

    let plan = game.advance(BackendEvent::DeviceCreated(FeatureLevel::Level9_3));
    assert_eq!(plan, unbind_and(create_surface(640, 480)));
    let plan = game.advance(BackendEvent::Completed);
    assert_eq!(plan, vec![create_views(640, 480)]);
    let plan = game.advance(BackendEvent::Completed);
    assert_eq!(plan, vec![]);

    assert_eq!(game.stage(), Stage::Ready);
    assert_eq!(game.resources(), ALL);
    assert_eq!(game.output_size(), (640, 480));
    assert_eq!(game.feature_level(), FeatureLevel::Level9_3);
    assert_eq!(game.timer().get_frame_count(), 1);
    assert_eq!(game.render(), frame(640, 480));
}

#[test]
fn device_reset_on_present_recreates_everything() {
    let mut game = presenting_game();
    let plan = game.advance(BackendEvent::Failed(BackendError::DeviceReset));
    assert_eq!(plan, vec![BackendOp::ReleaseAll, BackendOp::CreateDevice { debug_layer: false }]);
    assert_eq!(game.resources(), NONE);
    game.advance(BackendEvent::DeviceCreated(FeatureLevel::Level11_1));
    game.advance(BackendEvent::Completed);
    game.advance(BackendEvent::Completed);
    assert_eq!(game.stage(), Stage::Ready);
    assert_eq!(game.resources(), ALL);
}

#[test]
fn device_lost_on_resize_recreates_everything() {
    for error in [BackendError::DeviceRemoved, BackendError::DeviceReset] {
        let mut game = ready_game(800, 600);
        game.on_window_size_changed(1024, 768);
        let plan = game.advance(BackendEvent::Failed(error));
        assert_eq!(
            plan,
            vec![BackendOp::ReleaseAll, BackendOp::CreateDevice { debug_layer: false }]
        );
        assert_eq!(game.stage(), Stage::AwaitingDevice);
        assert_eq!(game.resources(), NONE);

        let plan = game.advance(BackendEvent::DeviceCreated(FeatureLevel::Level11_0));
        assert_eq!(plan, unbind_and(create_surface(1024, 768)));
        assert_eq!(game.advance(BackendEvent::Completed), vec![create_views(1024, 768)]);
        assert_eq!(game.advance(BackendEvent::Completed), vec![]);
        assert_eq!(game.stage(), Stage::Ready);
        assert_eq!(game.resources(), ALL);
        assert_eq!(game.output_size(), (1024, 768));
    }
}

#[test]
fn device_lost_again_during_recovery_is_recovered_from_again() {
    let mut game = presenting_game();
    game.advance(BackendEvent::Failed(BackendError::DeviceRemoved));
    game.advance(BackendEvent::DeviceCreated(FeatureLevel::Level11_0));
    game.advance(BackendEvent::Completed);
    game.advance(BackendEvent::Completed);
    game.tick(2_000, |_| {});
    let plan = game.advance(BackendEvent::Failed(BackendError::DeviceReset));
    assert_eq!(plan, vec![BackendOp::ReleaseAll, BackendOp::CreateDevice { debug_layer: false }]);
    game.advance(BackendEvent::DeviceCreated(FeatureLevel::Level11_0));
    game.advance(BackendEvent::Completed);
    game.advance(BackendEvent::Completed);
    assert_eq!(game.stage(), Stage::Ready);
    assert_eq!(game.resources(), ALL);
}

#[test]
fn failure_to_create_a_device_is_fatal() {
    for error in [BackendError::Other, BackendError::DeviceRemoved, BackendError::DeviceReset] {
        let mut game = Game::new(FREQUENCY, 0, false);
        game.initialize(800, 600);
        let plan = game.advance(BackendEvent::Failed(error));
        assert_eq!(plan, vec![]);
        assert_eq!(game.stage(), Stage::Failed(FatalError::DeviceCreation));
    }
}

#[test]
fn failure_to_create_a_device_during_recovery_is_fatal() {
    let mut game = presenting_game();
    game.advance(BackendEvent::Failed(BackendError::DeviceRemoved));
    let plan = game.advance(BackendEvent::Failed(BackendError::Other));
    assert_eq!(plan, vec![]);
    assert_eq!(game.stage(), Stage::Failed(FatalError::DeviceCreation));
}

#[test]
fn other_failure_to_resize_is_fatal() {
    let mut game = ready_game(800, 600);
    game.on_window_size_changed(1024, 768);
    let plan = game.advance(BackendEvent::Failed(BackendError::Other));
    assert_eq!(plan, vec![]);
    assert_eq!(game.stage(), Stage::Failed(FatalError::SurfaceResize));
}

#[test]
fn failure_to_create_a_surface_is_fatal() {
    for error in [BackendError::Other, BackendError::DeviceRemoved, BackendError::DeviceReset] {
        let mut game = Game::new(FREQUENCY, 0, false);
        game.initialize(800, 600);
        game.advance(BackendEvent::DeviceCreated(FeatureLevel::Level11_0));
        let plan = game.advance(BackendEvent::Failed(error));
        assert_eq!(plan, vec![]);
        assert_eq!(game.stage(), Stage::Failed(FatalError::SurfaceCreation));
    }
}

#[test]
fn failure_to_create_the_views_is_fatal() {
    for error in [BackendError::Other, BackendError::DeviceRemoved, BackendError::DeviceReset] {
        let mut game = Game::new(FREQUENCY, 0, false);
        game.initialize(800, 600);
        game.advance(BackendEvent::DeviceCreated(FeatureLevel::Level11_0));
        game.advance(BackendEvent::Completed);
        let plan = game.advance(BackendEvent::Failed(error));
        assert_eq!(plan, vec![]);
        assert_eq!(game.stage(), Stage::Failed(FatalError::ViewCreation));
    }
}

#[test]
fn other_failure_to_present_is_fatal() {
    let mut game = presenting_game();
    let plan = game.advance(BackendEvent::Failed(BackendError::Other));
    assert_eq!(plan, vec![]);
    assert_eq!(game.stage(), Stage::Failed(FatalError::Present));
    assert_eq!(game.resources(), ALL);
}

#[test]
fn answer_that_fits_no_pending_plan_is_fatal() {
    let mut game = Game::new(FREQUENCY, 0, false);
    game.initialize(800, 600);
    assert_eq!(game.advance(BackendEvent::Completed), vec![]);
    assert_eq!(game.stage(), Stage::Failed(FatalError::UnexpectedEvent));

    let mut game = Game::new(FREQUENCY, 0, false);
    game.initialize(800, 600);
    game.advance(BackendEvent::DeviceCreated(FeatureLevel::Level11_0));
    game.advance(BackendEvent::DeviceCreated(FeatureLevel::Level11_0));
    assert_eq!(game.stage(), Stage::Failed(FatalError::UnexpectedEvent));

    let mut game = Game::new(FREQUENCY, 0, false);
    game.initialize(800, 600);
    game.advance(BackendEvent::DeviceCreated(FeatureLevel::Level11_0));
    game.advance(BackendEvent::Completed);
    game.advance(BackendEvent::DeviceCreated(FeatureLevel::Level11_0));
    assert_eq!(game.stage(), Stage::Failed(FatalError::UnexpectedEvent));

    let mut game = ready_game(800, 600);
    game.on_window_size_changed(1024, 768);
    game.advance(BackendEvent::DeviceCreated(FeatureLevel::Level11_0));
    assert_eq!(game.stage(), Stage::Failed(FatalError::UnexpectedEvent));

    let mut game = presenting_game();
    game.advance(BackendEvent::DeviceCreated(FeatureLevel::Level11_0));
    assert_eq!(game.stage(), Stage::Failed(FatalError::UnexpectedEvent));
}

#[test]
fn failed_session_stays_failed() {
    let mut game = presenting_game();
    game.advance(BackendEvent::Failed(BackendError::Other));
    for event in [
        BackendEvent::Completed,
        BackendEvent::DeviceCreated(FeatureLevel::Level11_1),
        BackendEvent::Failed(BackendError::DeviceRemoved),
    ] {
        assert_eq!(game.advance(event), vec![]);
        assert_eq!(game.stage(), Stage::Failed(FatalError::Present));
    }
}

#[test]
fn answer_with_nothing_pending_is_ignored() {
    let mut game = Game::new(FREQUENCY, 0, false);
    assert_eq!(game.advance(BackendEvent::DeviceCreated(FeatureLevel::Level11_1)), vec![]);
    assert_eq!(game.stage(), Stage::Uninitialized);
    assert_eq!(game.resources(), NONE);
    assert_eq!(game.feature_level(), FeatureLevel::Level9_1);

    let mut game = ready_game(800, 600);
    for event in [
        BackendEvent::Completed,
        BackendEvent::DeviceCreated(FeatureLevel::Level9_1),
        BackendEvent::Failed(BackendError::DeviceRemoved),
        BackendEvent::Failed(BackendError::Other),
    ] {
        assert_eq!(game.advance(event), vec![]);
        assert_eq!(game.stage(), Stage::Ready);
        assert_eq!(game.resources(), ALL);
        assert_eq!(game.feature_level(), FeatureLevel::Level11_0);
    }
}

#[test]
fn resuming_restarts_the_measurement_of_time() {
    let mut game = ready_game(800, 600);
    let mut now = 0u64;
    for _ in 0..10 {
        now += 1_000_000;
        game.tick(now, |_| {});
        game.advance(BackendEvent::Completed);
    }
    assert_eq!(game.timer().get_frames_per_second(), 10);
    assert_eq!(game.timer().get_frame_count(), 10);

    game.on_suspending();
    game.on_resuming(now + 3_600 * FREQUENCY);
    assert_eq!(game.timer().get_frames_per_second(), 0);
    assert_eq!(game.timer().get_frame_count(), 10);
    assert_eq!(game.timer().get_total_ticks(), 10_000_000);
    assert_eq!(game.stage(), Stage::Ready);

    let reported = Cell::new(0u64);
    game.tick(now + 3_600 * FREQUENCY + 400, |elapsed| reported.set(elapsed));
    assert_eq!(reported.get(), 400);
}

#[test]
fn activation_and_suspension_change_nothing() {
    let mut game = ready_game(800, 600);
    game.tick(5_000, |_| {});
    game.advance(BackendEvent::Completed);
    game.on_activated();
    game.on_deactivated();
    game.on_suspending();
    assert_eq!(game.stage(), Stage::Ready);
    assert_eq!(game.resources(), ALL);
    assert_eq!(game.output_size(), (800, 600));
    assert_eq!(game.feature_level(), FeatureLevel::Level11_0);
    assert_eq!(game.timer().get_frame_count(), 1);
    assert_eq!(game.timer().get_total_ticks(), 5_000);
    assert_eq!(game.timer().get_elapsed_ticks(), 5_000);
}
