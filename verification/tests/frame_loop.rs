//! The frame loop protocol: buffer clearing, resize recovery, close
//! handling, and error propagation, driven through scripted runs.

use pumice::AcquireOutcome;
use pumice::App;
use pumice::Color;
use pumice::DemoApp;
use pumice::Event;
use pumice::FlushOutcome;
use pumice::FrameInputs;
use pumice::GraphicsContext;
use pumice::PendingFrame;
use pumice::Point;
use pumice::PumiceError;
use pumice::RunOutcome;
use pumice::Size;

/// A host that records what it observed on every hook call.
struct TestApp {
    update_calls: usize,
    geometry_len_at_update: Vec<usize>,
    maxes_at_update: Vec<(i32, i32)>,
    events_seen: Vec<Event>,
    fail_update_on_call: Option<usize>,
    fail_on_event: bool,
}

impl TestApp {
    fn new() -> TestApp {
        TestApp {
            update_calls: 0,
            geometry_len_at_update: Vec::new(),
            maxes_at_update: Vec::new(),
            events_seen: Vec::new(),
            fail_update_on_call: None,
            fail_on_event: false,
        }
    }
}

impl App for TestApp {
    fn on_update(&mut self, ctx: &mut GraphicsContext) -> Result<(), PumiceError> {
        self.geometry_len_at_update.push(ctx.geometry.vertices.len());
        self.maxes_at_update.push((ctx.screen_maxes.x, ctx.screen_maxes.y));
        let failing: bool = self.fail_update_on_call == Some(self.update_calls);
        self.update_calls += 1;
        let drawn = ctx.new_rectangle(
            Point { x: 0, y: 0 },
            Size { width: 6553, height: 6553 },
            Color { r: 65536, g: 0, b: 0, a: 65536 },
        );
        if failing {
            return Err(PumiceError::DegenerateGeometry);
        }
        drawn
    }

    fn on_event(&mut self, event: &Event) -> Result<(), PumiceError> {
        self.events_seen.push(*event);
        if self.fail_on_event {
            return Err(PumiceError::GeometryFull);
        }
        Ok(())
    }
}

fn quiet_frame() -> FrameInputs {
    FrameInputs {
        acquire: AcquireOutcome::Ready(0),
        flush: FlushOutcome::Completed,
        events: Vec::new(),
        window_width: 1024,
        window_height: 1024,
    }
}

#[test]
fn buffer_is_empty_before_first_update_and_after_each_frame() {
    let mut ctx = GraphicsContext::new();
    assert!(ctx.geometry.vertices.is_empty());
    assert!(ctx.geometry.indices.is_empty());
    let mut app = TestApp::new();
    let script: Vec<FrameInputs> = (0..5).map(|_| quiet_frame()).collect();
    let report = ctx.run(&mut app, &script);
    assert_eq!(report.outcome, RunOutcome::ScriptEnded);
    assert_eq!(report.frames_presented, 5);
    // the buffer was empty at the start of every update, including
    // the first of the run
    assert_eq!(app.geometry_len_at_update, vec![0, 0, 0, 0, 0]);
    // the frame scheduler cleared the last frame's geometry too
    assert!(ctx.geometry.vertices.is_empty());
    assert!(ctx.geometry.indices.is_empty());
}

#[test]
fn finish_frame_clears_geometry_unconditionally() {
    let mut ctx = GraphicsContext::new();
    ctx.new_circle(Point { x: 0, y: 0 }, 655, Color { r: 0, g: 0, b: 0, a: 65536 }).unwrap();
    assert_eq!(ctx.geometry.vertices.len(), 256);
    ctx.finish_frame(&FlushOutcome::Failed);
    assert!(ctx.geometry.vertices.is_empty());
    assert!(ctx.geometry.indices.is_empty());
    ctx.new_circle(Point { x: 0, y: 0 }, 655, Color { r: 0, g: 0, b: 0, a: 65536 }).unwrap();
    ctx.finish_frame(&FlushOutcome::Completed);
    assert!(ctx.geometry.vertices.is_empty());
}

#[test]
fn out_of_date_acquire_causes_exactly_one_rebuild() {
    let mut ctx = GraphicsContext::new();
    let mut app = TestApp::new();
    let mut first = quiet_frame();
    first.acquire = AcquireOutcome::OutOfDate;
    let mut second = quiet_frame();
    second.window_width = 1600;
    second.window_height = 900;
    let script = vec![first, second, quiet_frame()];
    let report = ctx.run(&mut app, &script);
    assert_eq!(report.outcome, RunOutcome::ScriptEnded);
    // the failed acquire presented nothing and forced one rebuild
    // cycle before the next (successful) acquire
    assert_eq!(report.frames_presented, 2);
    assert_eq!(report.rebuilds, 1);
    // the screen extent reflected the new aspect ratio before the
    // next update ran: 1600/900 in Q16.16 is 116508
    assert_eq!(app.maxes_at_update[0], (116508, 65536));
}

#[test]
fn resize_event_rebuilds_before_next_acquire() {
    let mut ctx = GraphicsContext::new();
    let mut app = TestApp::new();
    let mut first = quiet_frame();
    first.events = vec![Event::Resized(800, 600)];
    let mut second = quiet_frame();
    second.window_width = 800;
    second.window_height = 600;
    let script = vec![first, second];
    let report = ctx.run(&mut app, &script);
    assert_eq!(report.outcome, RunOutcome::ScriptEnded);
    assert_eq!(report.frames_presented, 2);
    assert_eq!(report.rebuilds, 1);
    // the first frame still drew with the old square extent
    assert_eq!(app.maxes_at_update[0], (65536, 65536));
    // 800/600 in Q16.16 is 87381
    assert_eq!(app.maxes_at_update[1], (87381, 65536));
    assert_eq!(app.events_seen, vec![Event::Resized(800, 600)]);
}

#[test]
fn out_of_date_present_rebuilds_next_iteration() {
    let mut ctx = GraphicsContext::new();
    let mut app = TestApp::new();
    let mut first = quiet_frame();
    first.flush = FlushOutcome::OutOfDate;
    let mut second = quiet_frame();
    second.window_width = 2048;
    second.window_height = 1024;
    let script = vec![first, second];
    let report = ctx.run(&mut app, &script);
    assert_eq!(report.outcome, RunOutcome::ScriptEnded);
    assert_eq!(report.frames_presented, 2);
    assert_eq!(report.rebuilds, 1);
    assert_eq!(app.maxes_at_update[1], (131072, 65536));
}

#[test]
fn close_event_finishes_the_frame_then_returns() {
    let mut ctx = GraphicsContext::new();
    let mut app = TestApp::new();
    let mut closing = quiet_frame();
    closing.events = vec![Event::Other, Event::CloseRequested, Event::Other];
    // the frames after the close request must never run
    let script = vec![quiet_frame(), closing, quiet_frame(), quiet_frame()];
    let report = ctx.run(&mut app, &script);
    assert_eq!(report.outcome, RunOutcome::Closed);
    // the in-progress frame completed: two frames were presented, and
    // no further image was acquired afterwards
    assert_eq!(report.frames_presented, 2);
    assert_eq!(app.update_calls, 2);
    // the hook observed every event, including the ones after the
    // close request in the same batch
    assert_eq!(
        app.events_seen,
        vec![Event::Other, Event::CloseRequested, Event::Other]
    );
    // the buffer does not leak the closed frame's geometry
    assert!(ctx.geometry.vertices.is_empty());
}

#[test]
fn update_error_stops_the_loop() {
    let mut ctx = GraphicsContext::new();
    let mut app = TestApp::new();
    app.fail_update_on_call = Some(1);
    let script: Vec<FrameInputs> = (0..4).map(|_| quiet_frame()).collect();
    let report = ctx.run(&mut app, &script);
    assert_eq!(report.outcome, RunOutcome::Stopped(PumiceError::DegenerateGeometry));
    // the first frame presented; the failing one did not
    assert_eq!(report.frames_presented, 1);
    assert_eq!(app.update_calls, 2);
    // the failing frame's partially built geometry is left intact
    // for the caller to inspect
    assert_eq!(ctx.geometry.vertices.len(), 4);
    assert_eq!(ctx.geometry.indices.len(), 6);
}

#[test]
fn event_error_stops_the_loop() {
    let mut ctx = GraphicsContext::new();
    let mut app = TestApp::new();
    app.fail_on_event = true;
    let mut noisy = quiet_frame();
    noisy.events = vec![Event::Other];
    let script = vec![noisy, quiet_frame()];
    let report = ctx.run(&mut app, &script);
    assert_eq!(report.outcome, RunOutcome::Stopped(PumiceError::GeometryFull));
    assert_eq!(report.frames_presented, 1);
    assert_eq!(app.events_seen, vec![Event::Other]);
}

#[test]
fn acquire_and_scale_steps_behave() {
    let mut ctx = GraphicsContext::new();
    assert_eq!(ctx.handle_acquire(&AcquireOutcome::Ready(3)), Some(3));
    assert!(!ctx.rebuild_pending);
    assert_eq!(ctx.handle_acquire(&AcquireOutcome::OutOfDate), None);
    assert!(ctx.rebuild_pending);
    ctx.apply_rebuild(1600, 900);
    assert!(!ctx.rebuild_pending);
    assert_eq!(ctx.screen_maxes.x, 116508);
    assert_eq!(ctx.screen_maxes.y, 65536);
    let scale = ctx.uniform_scale();
    // 1 / (1600/900) in Q16.16
    assert_eq!(scale.0, 36864);
    assert_eq!(scale.1, 65536);
}

#[test]
fn close_during_rebuild_iteration_still_returns() {
    let mut ctx = GraphicsContext::new();
    let mut app = TestApp::new();
    // the close request arrives while the chain is out of date: no
    // frame is in progress, yet the events are still drained and the
    // loop returns without acquiring again
    let mut first = quiet_frame();
    first.acquire = AcquireOutcome::OutOfDate;
    first.events = vec![Event::CloseRequested];
    let script = vec![first, quiet_frame(), quiet_frame()];
    let report = ctx.run(&mut app, &script);
    assert_eq!(report.outcome, RunOutcome::Closed);
    assert_eq!(report.frames_presented, 0);
    assert_eq!(app.update_calls, 0);
    assert_eq!(app.events_seen, vec![Event::CloseRequested]);
}

#[test]
fn zero_extent_keeps_the_rebuild_pending() {
    let mut ctx = GraphicsContext::new();
    let mut app = TestApp::new();
    // a minimized window reports a zero extent: the rebuild (and the
    // acquire) wait until the window has a usable size again
    let mut first = quiet_frame();
    first.events = vec![Event::Resized(0, 0)];
    let mut minimized = quiet_frame();
    minimized.window_width = 0;
    minimized.window_height = 0;
    let mut restored = quiet_frame();
    restored.window_width = 800;
    restored.window_height = 600;
    let script = vec![first, minimized, restored];
    let report = ctx.run(&mut app, &script);
    assert_eq!(report.outcome, RunOutcome::ScriptEnded);
    // the minimized iteration presented nothing and rebuilt nothing
    assert_eq!(report.frames_presented, 2);
    assert_eq!(report.rebuilds, 1);
    assert_eq!(app.maxes_at_update[0], (65536, 65536));
    assert_eq!(app.maxes_at_update[1], (87381, 65536));
}

#[test]
fn pending_frame_chains_and_resets() {
    let p = PendingFrame::completed();
    assert_eq!(p.frame, 0);
    let p = p.chain(&FlushOutcome::Completed);
    let p = p.chain(&FlushOutcome::Completed);
    assert_eq!(p.frame, 2);
    // a failed flush resets the chain to the already-complete
    // sentinel so the loop keeps making progress
    let p = p.chain(&FlushOutcome::OutOfDate);
    assert_eq!(p.frame, 0);
    let p = p.chain(&FlushOutcome::Completed);
    let p = p.chain(&FlushOutcome::Failed);
    assert_eq!(p.frame, 0);
}

#[test]
fn clear_color_is_carried_for_the_submit_step() {
    let mut ctx = GraphicsContext::new();
    assert_eq!(ctx.clear_color, Color { r: 0, g: 0, b: 0, a: 65536 });
    let navy = Color { r: 0, g: 0, b: 32768, a: 65536 };
    ctx.clear_color = navy;
    ctx.new_circle(Point { x: 0, y: 0 }, 655, navy).unwrap();
    ctx.finish_frame(&FlushOutcome::Completed);
    // the engine's own steps never touch the configured clear color
    assert_eq!(ctx.clear_color, navy);
}

#[test]
fn swapchain_selectors_take_the_first_supported_entry() {
    assert_eq!(pumice::select_surface_format(&vec![50, 44, 37]), Some(50));
    assert_eq!(pumice::select_surface_format(&Vec::new()), None);
    assert_eq!(pumice::select_composite_alpha(&vec![1, 8]), Some(1));
    assert_eq!(pumice::select_composite_alpha(&Vec::new()), None);
}

#[test]
fn upload_copies_the_geometry_exactly() {
    let mut ctx = GraphicsContext::new();
    ctx.new_circle(Point { x: 0, y: 0 }, 6553, Color { r: 65536, g: 0, b: 0, a: 65536 }).unwrap();
    let (verts, idxs) = ctx.upload_data();
    assert_eq!(verts.len(), ctx.geometry.vertices.len());
    assert_eq!(idxs, ctx.geometry.indices);
    for i in 0..verts.len() {
        assert_eq!(verts[i], ctx.geometry.vertices[i]);
    }
}

#[test]
fn queue_family_selection_takes_the_first_graphics_family() {
    let families = vec![false, false, true, true];
    assert_eq!(pumice::select_graphics_queue_family(&families), Some(2));
    let none = vec![false, false];
    assert_eq!(pumice::select_graphics_queue_family(&none), None);
    assert_eq!(pumice::select_graphics_queue_family(&Vec::new()), None);
}

#[test]
fn demo_app_draws_and_moves() {
    let mut ctx = GraphicsContext::new();
    let mut demo = DemoApp::new();
    let script: Vec<FrameInputs> = (0..3).map(|_| quiet_frame()).collect();
    let report = ctx.run(&mut demo, &script);
    assert_eq!(report.outcome, RunOutcome::ScriptEnded);
    assert_eq!(report.frames_presented, 3);
    // three frames of drift to the right and slightly down
    assert_eq!(demo.x, 3 * 1638);
    assert_eq!(demo.y, 3 * -655);
}

#[test]
fn demo_app_bounces_off_the_walls() {
    let mut demo = DemoApp::new();
    demo.x = 65536 - 11469 - 100;
    demo.dx = 1638;
    let mut ctx = GraphicsContext::new();
    let script = vec![quiet_frame()];
    ctx.run(&mut demo, &script);
    // the circle crossed the right extent, so it turned around
    assert_eq!(demo.dx, -1638);
}
