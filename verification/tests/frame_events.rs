use ui_raster::frame::{
    frame_control, handle_event, EventResult, FrameEvent, ResizeRequest,
};

#[test]
fn resume_initializes_missing_state_and_repaints() {
    let d = handle_event(false, false, false, false, FrameEvent::Resumed);
    assert!(d.init_state);
    assert_eq!(d.result, EventResult::RepaintNow);

    let d2 = handle_event(true, false, false, false, FrameEvent::Resumed);
    assert!(!d2.init_state);
    assert_eq!(d2.result, EventResult::RepaintNow);
}

#[test]
fn suspend_waits() {
    let d = handle_event(true, false, false, false, FrameEvent::Suspended);
    assert_eq!(d.result, EventResult::Wait);
}

#[test]
fn window_events_before_state_exists_wait() {
    let d = handle_event(false, false, false, true, FrameEvent::CloseRequested);
    assert_eq!(d.result, EventResult::Wait);
    assert_eq!(d.resize_to, None);
}

#[test]
fn resize_applies_and_repaints_synchronously() {
    let d = handle_event(true, false, false, true, FrameEvent::Resized { width: 100, height: 50 });
    assert_eq!(d.resize_to, Some(ResizeRequest { width: 100, height: 50 }));
    assert_eq!(d.result, EventResult::RepaintNow);
}

#[test]
fn zero_size_resize_is_minimize_signal() {
    // A zero-size resize must not reach the surface.
    let d = handle_event(true, false, false, true, FrameEvent::Resized { width: 0, height: 0 });
    assert_eq!(d.resize_to, None);
    assert_eq!(d.result, EventResult::RepaintNow);
}

#[test]
fn scale_factor_change_always_resizes() {
    let d = handle_event(
        true,
        false,
        false,
        false,
        FrameEvent::ScaleFactorChanged { width: 200, height: 100 },
    );
    assert_eq!(d.resize_to, Some(ResizeRequest { width: 200, height: 100 }));
    assert_eq!(d.result, EventResult::Wait);
}

#[test]
fn close_requested_with_close_decided_exits() {
    let d = handle_event(true, true, true, false, FrameEvent::CloseRequested);
    assert_eq!(d.result, EventResult::Exit);
}

#[test]
fn close_decided_by_ui_exits() {
    let d = handle_event(true, false, true, true, FrameEvent::Other);
    assert_eq!(d.result, EventResult::Exit);
}

#[test]
fn focus_change_is_recorded() {
    let d = handle_event(true, false, false, false, FrameEvent::Focused(false));
    assert_eq!(d.set_focus, Some(false));
    assert_eq!(d.result, EventResult::Wait);
}

#[test]
fn ui_repaint_without_resize_repaints_next_turn() {
    let d = handle_event(true, false, false, true, FrameEvent::Other);
    assert_eq!(d.result, EventResult::RepaintNext);
}

#[test]
fn frame_control_orders_decisions() {
    assert_eq!(frame_control(true, true, true), EventResult::Exit);
    assert_eq!(frame_control(false, true, false), EventResult::RepaintNext);
    assert_eq!(frame_control(false, false, true), EventResult::RepaintAt);
    assert_eq!(frame_control(false, false, false), EventResult::Wait);
}
