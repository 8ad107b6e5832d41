//! The event-loop driver's decisions: which events shut the application
//! down, which resize the swapchain, when a frame is recorded, and how a
//! frame-acquisition error is classified. The surrounding loop performs the
//! returned actions (set control flow, recreate the swapchain, record and
//! submit, log) and hands the next event back in.

use vstd::prelude::*;
use crate::input::{ElementState, Key, WindowEvent, input_step};
use crate::render::{FramePlan, SwapchainError, spec_frame_plan};
use crate::state::RenderState;
use crate::swapchain::resized;

verus! {

/// Why the application shuts down.
#[derive(Clone, Copy, Debug, PartialEq, Eq, Structural)]
pub enum ExitReason {
    Escape,
    CloseRequest,
    Oom,
}

/// The event loop's control flow.
#[derive(Clone, Copy, Debug, PartialEq, Eq, Structural)]
pub enum ControlFlow {
    Poll,
    Exit,
}

/// What a shutdown does: set this control flow and write these two log
/// lines, the reason at debug level and the farewell at info level.
#[derive(Clone, Copy, Debug)]
pub struct ExitLog {
    pub control_flow: ControlFlow,
    pub debug_line: &'static str,
    pub info_line: &'static str,
}

/// Turns a shutdown reason into the exit control flow and its log lines.
pub fn handle_exit(why: ExitReason) -> (r: ExitLog)
    ensures
        r.control_flow == ControlFlow::Exit,
        why == ExitReason::CloseRequest ==> r.debug_line@ == "Close request received."@,
        why == ExitReason::Escape ==> r.debug_line@ == "Escape received"@,
        why == ExitReason::Oom ==> r.debug_line@ == "System is OOM"@,
        r.info_line@ == "Bye"@,
{
    let debug_line: &'static str = match why {
        ExitReason::CloseRequest => "Close request received.",
        ExitReason::Escape => "Escape received",
        ExitReason::Oom => "System is OOM",
    };
    ExitLog { control_flow: ControlFlow::Exit, debug_line, info_line: "Bye" }
}

/// A fatal startup failure: the bootstrap aborts with its message.
#[derive(Clone, Copy, Debug, PartialEq, Eq, Structural)]
pub enum InitFailure {
    /// No adapter is compatible with the window's surface.
    NoAdapter,
    /// The adapter reports no preferred texture format for the surface.
    NoPreferredFormat,
}

/// The message a fatal startup failure aborts with.
pub fn init_failure_message(why: InitFailure) -> (r: &'static str)
    ensures
        why == InitFailure::NoAdapter ==> r@ == "Can't initialize adapter with the surface."@,
        why == InitFailure::NoPreferredFormat ==> r@
            == "Can't get surface prefered texture format."@,
{
    match why {
        InitFailure::NoAdapter => "Can't initialize adapter with the surface.",
        InitFailure::NoPreferredFormat => "Can't get surface prefered texture format.",
    }
}

/// What the driver does with a window event the input handler declined.
#[derive(Clone, Copy, Debug, PartialEq, Eq, Structural)]
pub enum WindowAction {
    /// Shut down for this reason.
    Exit(ExitReason),
    /// Resize to this physical size.
    Resize(u32, u32),
    /// Nothing.
    Ignore,
}

/// Classification of an unconsumed window event: a close request or an
/// `Escape` press shuts down, a size or scale change resizes, the rest is
/// ignored.
pub open spec fn spec_dispatch_window_event(e: WindowEvent) -> WindowAction {
    match e {
        WindowEvent::CloseRequested => WindowAction::Exit(ExitReason::CloseRequest),
        WindowEvent::Keyboard { state, key } => if state == ElementState::Pressed && key == Some(
            Key::Escape,
        ) {
            WindowAction::Exit(ExitReason::Escape)
        } else {
            WindowAction::Ignore
        },
        WindowEvent::Resized { width, height } => WindowAction::Resize(width, height),
        WindowEvent::ScaleFactorChanged { width, height } => WindowAction::Resize(width, height),
        _ => WindowAction::Ignore,
    }
}

/// Classifies a window event the input handler declined.
pub fn dispatch_window_event(e: &WindowEvent) -> (r: WindowAction)
    ensures
        r == spec_dispatch_window_event(*e),
{
    match e {
        WindowEvent::CloseRequested => WindowAction::Exit(ExitReason::CloseRequest),
        WindowEvent::Keyboard { state, key } => {
            if *state == ElementState::Pressed && *key == Some(Key::Escape) {
                WindowAction::Exit(ExitReason::Escape)
            } else {
                WindowAction::Ignore
            }
        },
        WindowEvent::Resized { width, height } => WindowAction::Resize(*width, *height),
        WindowEvent::ScaleFactorChanged { width, height } => WindowAction::Resize(*width, *height),
        _ => WindowAction::Ignore,
    }
}

/// An event as the loop sees it.
#[derive(Clone, Copy, Debug, PartialEq, Eq, Structural)]
pub enum Event {
    /// A window event for the owned window.
    Window(WindowEvent),
    /// The window should be redrawn now.
    RedrawRequested,
    /// All pending events were delivered.
    MainEventsCleared,
    /// Anything else; ignored.
    Other,
}

/// A physical size in pixels.
#[derive(Clone, Copy, Debug, PartialEq, Eq, Structural)]
pub struct PhysicalSize {
    pub width: u32,
    pub height: u32,
}

/// The actions one loop step asks of its surroundings. At most one of
/// `exit`, `resize_to`, `submit`, `log_error` is set, and `request_redraw`
/// only on `MainEventsCleared`.
#[derive(Clone, Copy, Debug, PartialEq, Eq, Structural)]
pub struct StepOutcome {
    /// Shut down for this reason: pass it to `handle_exit`, write the log
    /// lines, and set the exit control flow.
    pub exit: Option<ExitReason>,
    /// Recreate the swapchain from the state's descriptor, now holding this
    /// size.
    pub resize_to: Option<PhysicalSize>,
    /// Record one render pass as planned and submit it as one command
    /// buffer.
    pub submit: Option<FramePlan>,
    /// Request another redraw, for continuous rendering.
    pub request_redraw: bool,
    /// Log this acquisition error at error level; the next frame retries.
    pub log_error: Option<SwapchainError>,
}

/// The outcome that asks nothing.
pub open spec fn no_action() -> StepOutcome {
    StepOutcome {
        exit: None,
        resize_to: None,
        submit: None,
        request_redraw: false,
        log_error: None,
    }
}

/// One step of the event loop: the state after the event, and the actions
/// asked of the surroundings. `acquired` is the outcome of acquiring the
/// swapchain image and is read only on `RedrawRequested`.
pub open spec fn spec_step(
    s: RenderState,
    e: Event,
    acquired: Result<(), SwapchainError>,
) -> (RenderState, StepOutcome) {
    match e {
        Event::Window(we) => {
            let stepped = input_step(s.input, we);
            let s1 = RenderState { input: stepped.0, ..s };
            if stepped.1 {
                (s1, no_action())
            } else {
                match spec_dispatch_window_event(we) {
                    WindowAction::Exit(reason) => (
                        s1,
                        StepOutcome { exit: Some(reason), ..no_action() },
                    ),
                    WindowAction::Resize(w, h) => (
                        RenderState {
                            size_width: w,
                            size_height: h,
                            sc_desc: resized(s1.sc_desc, w, h),
                            ..s1
                        },
                        StepOutcome { resize_to: Some(PhysicalSize { width: w, height: h }), ..no_action() },
                    ),
                    WindowAction::Ignore => (s1, no_action()),
                }
            }
        },
        Event::RedrawRequested => match acquired {
            Ok(_) => (
                s,
                StepOutcome {
                    submit: Some(
                        spec_frame_plan(
                            s.input.levers,
                            s.primary.logical_count,
                            s.secondary.logical_count,
                        ),
                    ),
                    ..no_action()
                },
            ),
            Err(SwapchainError::Lost) => (
                RenderState { sc_desc: resized(s.sc_desc, s.size_width, s.size_height), ..s },
                StepOutcome {
                    resize_to: Some(PhysicalSize { width: s.size_width, height: s.size_height }),
                    ..no_action()
                },
            ),
            Err(SwapchainError::OutOfMemory) => (
                s,
                StepOutcome { exit: Some(ExitReason::Oom), ..no_action() },
            ),
            Err(other) => (s, StepOutcome { log_error: Some(other), ..no_action() }),
        },
        Event::MainEventsCleared => (s, StepOutcome { request_redraw: true, ..no_action() }),
        Event::Other => (s, no_action()),
    }
}

/// One loop step asks for at most one action: a shutdown, a swapchain
/// rebuild, a frame submission, an error log line, or a redraw request,
/// never two of them.
pub proof fn lemma_step_asks_one_action(
    s: RenderState,
    e: Event,
    acquired: Result<(), SwapchainError>,
)
    ensures
        ({
            let o = spec_step(s, e, acquired).1;
            &&& !(o.exit is Some && o.resize_to is Some)
            &&& !(o.exit is Some && o.submit is Some)
            &&& !(o.exit is Some && o.log_error is Some)
            &&& !(o.resize_to is Some && o.submit is Some)
            &&& !(o.resize_to is Some && o.log_error is Some)
            &&& !(o.submit is Some && o.log_error is Some)
            &&& o.request_redraw ==> o.exit is None && o.resize_to is None && o.submit is None
                && o.log_error is None
        }),
{
}

/// The two index buffers are created at startup and never change: no event
/// the loop can see touches them.
pub proof fn lemma_step_keeps_geometry(
    s: RenderState,
    e: Event,
    acquired: Result<(), SwapchainError>,
)
    ensures
        spec_step(s, e, acquired).0.primary == s.primary,
        spec_step(s, e, acquired).0.secondary == s.secondary,
{
}

/// Runs one step of the event loop on the state.
pub fn step(s: &mut RenderState, event: &Event, acquired: Result<(), SwapchainError>) -> (r:
    StepOutcome)
    ensures
        *final(s) == spec_step(*old(s), *event, acquired).0,
        r == spec_step(*old(s), *event, acquired).1,
        old(s).well_formed() ==> final(s).well_formed(),
{
    match event {
        Event::Window(we) => {
            let handled = s.input(we);
            if handled {
                StepOutcome {
                    exit: None,
                    resize_to: None,
                    submit: None,
                    request_redraw: false,
                    log_error: None,
                }
            } else {
                match dispatch_window_event(we) {
                    WindowAction::Exit(reason) => StepOutcome {
                        exit: Some(reason),
                        resize_to: None,
                        submit: None,
                        request_redraw: false,
                        log_error: None,
                    },
                    WindowAction::Resize(w, h) => {
                        s.resize(w, h);
                        StepOutcome {
                            exit: None,
                            resize_to: Some(PhysicalSize { width: w, height: h }),
                            submit: None,
                            request_redraw: false,
                            log_error: None,
                        }
                    },
                    WindowAction::Ignore => StepOutcome {
                        exit: None,
                        resize_to: None,
                        submit: None,
                        request_redraw: false,
                        log_error: None,
                    },
                }
            }
        },
        Event::RedrawRequested => {
            s.update();
            match s.render(acquired) {
                Ok(plan) => StepOutcome {
                    exit: None,
                    resize_to: None,
                    submit: Some(plan),
                    request_redraw: false,
                    log_error: None,
                },
                Err(SwapchainError::Lost) => {
                    let w = s.size_width;
                    let h = s.size_height;
                    s.resize(w, h);
                    StepOutcome {
                        exit: None,
                        resize_to: Some(PhysicalSize { width: w, height: h }),
                        submit: None,
                        request_redraw: false,
                        log_error: None,
                    }
                },
                Err(SwapchainError::OutOfMemory) => StepOutcome {
                    exit: Some(ExitReason::Oom),
                    resize_to: None,
                    submit: None,
                    request_redraw: false,
                    log_error: None,
                },
                Err(other) => StepOutcome {
                    exit: None,
                    resize_to: None,
                    submit: None,
                    request_redraw: false,
                    log_error: Some(other),
                },
            }
        },
        Event::MainEventsCleared => StepOutcome {
            exit: None,
            resize_to: None,
            submit: None,
            request_redraw: true,
            log_error: None,
        },
        Event::Other => StepOutcome {
            exit: None,
            resize_to: None,
            submit: None,
            request_redraw: false,
            log_error: None,
        },
    }
}

} // verus!
