//! The event-loop state machine.
//!
//! The viewer has two states, `Running` and `Terminated`. Every event keeps
//! it in `Running` except a close request and a press of the escape key,
//! which move it to `Terminated`; once terminated it stays terminated. Each
//! step also names the side effect the surrounding loop must perform:
//! render the current frame, resize the presentation surface, or nothing.

use vstd::prelude::*;

verus! {

/// A window-system event, reduced to what the viewer reacts to.
#[derive(Clone, Copy, Debug, PartialEq, Eq, Structural)]
pub enum ViewerEvent {
    /// The window system asked for the window contents to be redrawn.
    RedrawRequested,
    /// The window's inner size changed to the given pixel dimensions.
    Resized { width: u32, height: u32 },
    /// The monitor scale factor changed, with the window's new inner size.
    ScaleFactorChanged { width: u32, height: u32 },
    /// The user asked to close the window.
    CloseRequested,
    /// The escape key was pressed.
    EscapePressed,
    /// Any other event.
    Other,
}

/// Whether the event loop keeps running.
#[derive(Clone, Copy, Debug, PartialEq, Eq, Structural)]
pub enum LoopState {
    Running,
    Terminated,
}

/// The side effect the event loop must perform after a step.
#[derive(Clone, Copy, Debug, PartialEq, Eq, Structural)]
pub enum SurfaceAction {
    /// Present the current frame; a presentation failure is not fatal.
    Render,
    /// Resize the presentation surface to the given pixel dimensions.
    ResizeSurface { width: u32, height: u32 },
    /// Do nothing.
    NoOp,
}

/// The transition relation of the state machine, one step per event.
pub open spec fn spec_transition(state: LoopState, event: ViewerEvent) -> (LoopState,
    SurfaceAction) {
    if state is Terminated {
        (LoopState::Terminated, SurfaceAction::NoOp)
    } else {
        match event {
            ViewerEvent::RedrawRequested => (LoopState::Running, SurfaceAction::Render),
            ViewerEvent::Resized { width, height } => (
                LoopState::Running,
                SurfaceAction::ResizeSurface { width, height },
            ),
            ViewerEvent::ScaleFactorChanged { width, height } => (
                LoopState::Running,
                SurfaceAction::ResizeSurface { width, height },
            ),
            ViewerEvent::CloseRequested => (LoopState::Terminated, SurfaceAction::NoOp),
            ViewerEvent::EscapePressed => (LoopState::Terminated, SurfaceAction::NoOp),
            ViewerEvent::Other => (LoopState::Running, SurfaceAction::NoOp),
        }
    }
}

/// One step of the event loop: the next state and the side effect to
/// perform.
pub fn handle_event(state: LoopState, event: ViewerEvent) -> (r: (LoopState, SurfaceAction))
    ensures
        r == spec_transition(state, event),
        r.0 is Terminated <==> (state is Terminated || event is CloseRequested
            || event is EscapePressed),
{
    match state {
        LoopState::Terminated => (LoopState::Terminated, SurfaceAction::NoOp),
        LoopState::Running => match event {
            ViewerEvent::RedrawRequested => (LoopState::Running, SurfaceAction::Render),
            ViewerEvent::Resized { width, height } => (
                LoopState::Running,
                SurfaceAction::ResizeSurface { width, height },
            ),
            ViewerEvent::ScaleFactorChanged { width, height } => (
                LoopState::Running,
                SurfaceAction::ResizeSurface { width, height },
            ),
            ViewerEvent::CloseRequested => (LoopState::Terminated, SurfaceAction::NoOp),
            ViewerEvent::EscapePressed => (LoopState::Terminated, SurfaceAction::NoOp),
            ViewerEvent::Other => (LoopState::Running, SurfaceAction::NoOp),
        },
    }
}

} // verus!
