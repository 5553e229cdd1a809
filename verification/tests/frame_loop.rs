use sound_galaxy::config::{AdapterInfo, PresentMode};
use sound_galaxy::frame::{
    AcquireResult, FrameAction, FrameLoop, LoopControl, RendererState, FRAME_INTERVAL_NANOS,
};

fn adapters() -> Vec<AdapterInfo> {
    vec![AdapterInfo { formats: vec![7] }]
}

fn active_loop() -> FrameLoop {
    let mut lp = FrameLoop::new(false);
    assert!(lp.handle_resumed(800, 600, &adapters()));
    lp
}

#[test]
fn startup_policy_is_resolved_once() {
    let immediate = FrameLoop::new(false);
    assert!(immediate.init_at_startup());
    assert!(matches!(immediate.state, RendererState::Uninitialized));
    assert_eq!(immediate.control, LoopControl::Wait);
    assert_eq!(immediate.frame_interval_nanos, FRAME_INTERVAL_NANOS);
    let deferred = FrameLoop::new(true);
    assert!(!deferred.init_at_startup());
}

#[test]
fn resume_initializes_the_context() {
    let mut lp = FrameLoop::new(true);
    assert!(lp.handle_resumed(800, 600, &adapters()));
    match lp.state {
        RendererState::Active(ren) => {
            assert_eq!(ren.config.width, 800);
            assert_eq!(ren.config.height, 600);
            assert_eq!(ren.config.format, 7);
        }
        RendererState::Uninitialized => panic!("resume must activate the context"),
    }
}

#[test]
fn resume_rebuilds_the_context_and_rederives_the_format() {
    let mut lp = active_loop();
    // A later resume sees a different adapter set; the format must come
    // from the adapters current at that resume, not the earlier ones.
    let newer = vec![AdapterInfo { formats: vec![] }, AdapterInfo { formats: vec![42, 7] }];
    assert!(lp.handle_resumed(1024, 768, &newer));
    match lp.state {
        RendererState::Active(ren) => {
            assert_eq!(ren.adapter_index, 1);
            assert_eq!(ren.config.format, 42);
            assert!(newer[ren.adapter_index].formats.contains(&ren.config.format));
            assert_eq!(ren.config.width, 1024);
        }
        RendererState::Uninitialized => panic!("resume must activate the context"),
    }
}

#[test]
fn resume_without_a_capable_adapter_fails_and_changes_nothing() {
    let mut lp = FrameLoop::new(true);
    let none = vec![AdapterInfo { formats: vec![] }];
    assert!(!lp.handle_resumed(800, 600, &none));
    assert!(matches!(lp.state, RendererState::Uninitialized));
}

#[test]
fn suspend_records_state_only() {
    let mut lp = active_loop();
    let state_before = lp.state;
    lp.handle_suspended();
    assert_eq!(lp.state, state_before);
    assert_eq!(lp.control, LoopControl::Wait);
}

#[test]
fn close_request_exits_the_loop() {
    let mut lp = active_loop();
    lp.handle_close_requested();
    assert_eq!(lp.control, LoopControl::Exit);
}

#[test]
fn resized_event_forwards_to_the_context() {
    let mut lp = active_loop();
    let apply = lp.handle_resized(400, 300).expect("a positive resize is applied");
    assert_eq!(apply.width, 400);
    assert_eq!(apply.height, 300);
    assert_eq!(apply.format, 7);
    assert_eq!(apply.present_mode, PresentMode::Immediate);
    assert!(lp.handle_resized(0, 300).is_none());
    assert!(lp.handle_resized(400, 0).is_none());
    match lp.state {
        RendererState::Active(ren) => assert_eq!((ren.config.width, ren.config.height), (400, 300)),
        RendererState::Uninitialized => panic!("context lost by a resize"),
    }
}

#[test]
fn scale_factor_change_is_treated_as_a_resize() {
    let mut lp = active_loop();
    let apply = lp.handle_scale_factor_changed(1600, 1200).unwrap();
    assert_eq!((apply.width, apply.height), (1600, 1200));
}

#[test]
fn successful_redraw_renders_one_clear_and_one_quad_draw() {
    let mut lp = active_loop();
    let state_before = lp.state;
    let out = lp.handle_redraw_requested(AcquireResult::Success);
    match out.action {
        FrameAction::Render(f) => {
            assert_eq!((f.clear.r, f.clear.g, f.clear.b, f.clear.a), (0, 0, 0, 255));
            assert_eq!(f.draw.first_vertex, 0);
            assert_eq!(f.draw.vertex_count, 6);
            assert_eq!(f.draw.first_instance, 0);
            assert_eq!(f.draw.instance_count, 1);
        }
        _ => panic!("a successful acquisition must render"),
    }
    assert_eq!(lp.control, LoopControl::Wait);
    assert_eq!(lp.state, state_before);
    assert_eq!(out.sleep_nanos, FRAME_INTERVAL_NANOS);
    assert!(out.request_redraw);
}

#[test]
fn lost_surface_reconfigures_once_and_keeps_the_loop_running() {
    let mut lp = active_loop();
    lp.handle_resized(400, 300);
    let out = lp.handle_redraw_requested(AcquireResult::Lost);
    assert_eq!(lp.control, LoopControl::Wait);
    match out.action {
        FrameAction::Reconfigure(c) => {
            assert_eq!((c.width, c.height), (400, 300));
            assert_eq!(c.format, 7);
        }
        _ => panic!("a lost surface must be reconfigured, nothing else"),
    }
    match lp.state {
        RendererState::Active(ren) => assert_eq!(ren.applied, ren.config),
        RendererState::Uninitialized => panic!("context lost by a reconfigure"),
    }
    assert_eq!(out.sleep_nanos, FRAME_INTERVAL_NANOS);
    assert!(out.request_redraw);
}

#[test]
fn out_of_memory_exits_and_draws_nothing() {
    let mut lp = active_loop();
    let state_before = lp.state;
    let out = lp.handle_redraw_requested(AcquireResult::OutOfMemory);
    assert_eq!(lp.control, LoopControl::Exit);
    assert!(matches!(out.action, FrameAction::Skip));
    assert_eq!(lp.state, state_before);
}

#[test]
fn other_acquisition_errors_skip_the_frame() {
    let mut lp = active_loop();
    let state_before = lp.state;
    let out = lp.handle_redraw_requested(AcquireResult::Other);
    assert_eq!(lp.control, LoopControl::Wait);
    assert!(matches!(out.action, FrameAction::Skip));
    assert_eq!(lp.state, state_before);
    assert!(out.request_redraw);
}

#[test]
fn end_to_end_scenario() {
    // Start with a window of 800x600.
    let mut lp = FrameLoop::new(false);
    assert!(lp.init_at_startup());
    assert!(lp.handle_resumed(800, 600, &adapters()));
    match lp.state {
        RendererState::Active(ren) => {
            assert_eq!(ren.config.width, 800);
            assert_eq!(ren.config.height, 600);
            assert_eq!(ren.config.present_mode, PresentMode::Immediate);
        }
        RendererState::Uninitialized => panic!("startup must activate the context"),
    }
    // Resized(400, 300) applies the new dimensions.
    let apply = lp.handle_resized(400, 300).unwrap();
    assert_eq!((apply.width, apply.height), (400, 300));
    // One redraw records one pass: clear to opaque black, draw 0..6 / 0..1.
    let out = lp.handle_redraw_requested(AcquireResult::Success);
    match out.action {
        FrameAction::Render(f) => {
            assert_eq!((f.clear.r, f.clear.g, f.clear.b, f.clear.a), (0, 0, 0, 255));
            assert_eq!((f.draw.first_vertex, f.draw.vertex_count), (0, 6));
            assert_eq!((f.draw.first_instance, f.draw.instance_count), (0, 1));
        }
        _ => panic!("a successful acquisition must render"),
    }
    assert!(out.request_redraw);
    // CloseRequested exits; once control is Exit the platform layer stops
    // requesting redraws.
    lp.handle_close_requested();
    assert_eq!(lp.control, LoopControl::Exit);
}
