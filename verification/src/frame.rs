//! Frame-driver decisions: what the event loop does next.
//!
//! The loop around this library performs platform work (window events,
//! painting, sleeping); every decision it takes is a pure function here,
//! from plain state and event to a next action, so the control logic is
//! verified while the loop stays thin.

use vstd::prelude::*;

verus! {

/// What the event loop does after handling an event or a repaint.
#[derive(Clone, Copy, PartialEq, Eq, Structural, Debug)]
pub enum EventResult {
    /// Nothing to do until the next event.
    Wait,
    /// Repaint synchronously, inside the handler.
    RepaintNow,
    /// Repaint on the next loop turn.
    RepaintNext,
    /// Repaint when the deadline the caller computed comes.
    RepaintAt,
    /// Tear the window down and leave the loop.
    Exit,
}

/// A window event, reduced to what the decisions read.
#[derive(Clone, Copy, PartialEq, Eq, Structural, Debug)]
pub enum FrameEvent {
    /// The platform resumed the application.
    Resumed,
    /// The platform suspended the application.
    Suspended,
    /// The window gained or lost focus.
    Focused(bool),
    /// The window was resized to a physical size.
    Resized { width: u32, height: u32 },
    /// The scale factor changed, with the new physical size.
    ScaleFactorChanged { width: u32, height: u32 },
    /// The user asked to close the window.
    CloseRequested,
    /// Any other window event.
    Other,
}

/// A physical size to resize the surface to.
#[derive(Clone, Copy, PartialEq, Eq, Structural, Debug)]
pub struct ResizeRequest {
    pub width: u32,
    pub height: u32,
}

/// Everything an event decides: the result for the loop, whether the
/// window's rendering state must be initialized first, the resize to apply,
/// and the new focus flag.
#[derive(Clone, Copy, PartialEq, Eq, Structural, Debug)]
pub struct EventDecision {
    pub result: EventResult,
    pub init_state: bool,
    pub resize_to: Option<ResizeRequest>,
    pub set_focus: Option<bool>,
}

/// The decision for one event.
///
/// `running` says whether the window's rendering state exists;
/// `close_before` is whether closing was already decided when the event
/// arrived, `close_after` whether it is decided once the UI layer saw the
/// event, and `ui_repaint` whether the UI layer asked for a repaint.
///
/// A resume initializes the state if it is missing and repaints at once. A
/// resize to a zero size is the platform's minimize signal and must not
/// reach the surface; a scale-factor change always carries a usable size.
/// After a resize or scale change a repaint happens synchronously, so no
/// frame is dropped while the user drags.
pub open spec fn spec_handle_event(
    running: bool,
    close_before: bool,
    close_after: bool,
    ui_repaint: bool,
    ev: FrameEvent,
) -> EventDecision {
    match ev {
        FrameEvent::Resumed => EventDecision {
            result: EventResult::RepaintNow,
            init_state: !running,
            resize_to: None,
            set_focus: None,
        },
        FrameEvent::Suspended => EventDecision {
            result: EventResult::Wait,
            init_state: false,
            resize_to: None,
            set_focus: None,
        },
        _ => {
            if !running {
                EventDecision {
                    result: EventResult::Wait,
                    init_state: false,
                    resize_to: None,
                    set_focus: None,
                }
            } else {
                let set_focus = match ev {
                    FrameEvent::Focused(f) => Some(f),
                    _ => None,
                };
                let resize_to = match ev {
                    FrameEvent::Resized { width, height } => if width > 0 && height > 0 {
                        Some(ResizeRequest { width, height })
                    } else {
                        None
                    },
                    FrameEvent::ScaleFactorChanged { width, height } => Some(ResizeRequest { width, height }),
                    _ => None,
                };
                let repaint_asap = ev is Resized || ev is ScaleFactorChanged;
                let result = if ev is CloseRequested && close_before {
                    EventResult::Exit
                } else if close_after {
                    EventResult::Exit
                } else if ui_repaint {
                    if repaint_asap {
                        EventResult::RepaintNow
                    } else {
                        EventResult::RepaintNext
                    }
                } else {
                    EventResult::Wait
                };
                EventDecision { result, init_state: false, resize_to, set_focus }
            }
        },
    }
}

/// Decides what one window event means for the loop.
pub fn handle_event(
    running: bool,
    close_before: bool,
    close_after: bool,
    ui_repaint: bool,
    ev: FrameEvent,
) -> (d: EventDecision)
    ensures
        d == spec_handle_event(running, close_before, close_after, ui_repaint, ev),
{
    match ev {
        FrameEvent::Resumed => EventDecision {
            result: EventResult::RepaintNow,
            init_state: !running,
            resize_to: None,
            set_focus: None,
        },
        FrameEvent::Suspended => EventDecision {
            result: EventResult::Wait,
            init_state: false,
            resize_to: None,
            set_focus: None,
        },
        _ => {
            if !running {
                EventDecision {
                    result: EventResult::Wait,
                    init_state: false,
                    resize_to: None,
                    set_focus: None,
                }
            } else {
                let set_focus = match ev {
                    FrameEvent::Focused(f) => Some(f),
                    _ => None,
                };
                let resize_to = match ev {
                    FrameEvent::Resized { width, height } => if width > 0 && height > 0 {
                        Some(ResizeRequest { width, height })
                    } else {
                        None
                    },
                    FrameEvent::ScaleFactorChanged { width, height } => Some(ResizeRequest { width, height }),
                    _ => None,
                };
                let repaint_asap = matches!(ev, FrameEvent::Resized { .. }) || matches!(
                    ev,
                    FrameEvent::ScaleFactorChanged { .. },
                );
                let result = if matches!(ev, FrameEvent::CloseRequested) && close_before {
                    EventResult::Exit
                } else if close_after {
                    EventResult::Exit
                } else if ui_repaint {
                    if repaint_asap {
                        EventResult::RepaintNow
                    } else {
                        EventResult::RepaintNext
                    }
                } else {
                    EventResult::Wait
                };
                EventDecision { result, init_state: false, resize_to, set_focus }
            }
        },
    }
}

/// What the loop does once a frame was painted and presented: leave when
/// closing was decided; repaint at once when the UI wants the next frame
/// now; otherwise wait until the repaint deadline, or indefinitely when
/// that deadline cannot be represented.
pub open spec fn spec_frame_control(
    should_close: bool,
    repaint_delay_zero: bool,
    deadline_representable: bool,
) -> EventResult {
    if should_close {
        EventResult::Exit
    } else if repaint_delay_zero {
        EventResult::RepaintNext
    } else if deadline_representable {
        EventResult::RepaintAt
    } else {
        EventResult::Wait
    }
}

/// Decides the loop's next step after a painted frame.
pub fn frame_control(
    should_close: bool,
    repaint_delay_zero: bool,
    deadline_representable: bool,
) -> (r: EventResult)
    ensures
        r == spec_frame_control(should_close, repaint_delay_zero, deadline_representable),
{
    if should_close {
        EventResult::Exit
    } else if repaint_delay_zero {
        EventResult::RepaintNext
    } else if deadline_representable {
        EventResult::RepaintAt
    } else {
        EventResult::Wait
    }
}

} // verus!
