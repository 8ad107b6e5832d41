use pentagon::driver::{
    ControlFlow, Event, ExitReason, InitFailure, PhysicalSize, handle_exit, init_failure_message,
    step,
};
use pentagon::input::{ElementState, InputState, Key, WindowEvent};
use pentagon::levers::{LEVER1, Levers};
use pentagon::render::{BufferChoice, IndexFormat, LoadOp, SwapchainError};
use pentagon::state::RenderState;
use pentagon::swapchain::TextureFormat;

fn space(state: ElementState) -> WindowEvent {
    WindowEvent::Keyboard { state, key: Some(Key::Space) }
}

fn fresh() -> RenderState {
    RenderState::new(TextureFormat::Bgra8UnormSrgb, 800, 600)
}

#[test]
fn levers_set_clear_test() {
    let other: u32 = 0b10;
    let mut l = Levers::empty();
    assert!(!l.contains(LEVER1));
    l.insert(LEVER1);
    assert!(l.contains(LEVER1));
    assert!(!l.contains(other));
    l.insert(other);
    assert!(l.contains(LEVER1));
    assert!(l.contains(other));
    l.remove(LEVER1);
    assert!(!l.contains(LEVER1));
    assert!(l.contains(other));
}

#[test]
fn lever_clear_after_press_release() {
    let mut s = InputState::new();
    assert!(s.input(&space(ElementState::Pressed)));
    assert!(s.input(&space(ElementState::Released)));
    assert!(!s.levers.contains(LEVER1));
}

#[test]
fn lever_set_after_press() {
    let mut s = InputState::new();
    assert!(s.input(&space(ElementState::Pressed)));
    assert!(s.levers.contains(LEVER1));
}

#[test]
fn unrelated_keys_leave_levers() {
    let mut s = InputState::new();
    s.input(&space(ElementState::Pressed));
    let before = s.levers;
    let handled = s.input(&WindowEvent::Keyboard {
        state: ElementState::Pressed,
        key: Some(Key::Other(17)),
    });
    assert!(!handled);
    assert_eq!(s.levers, before);
    let handled = s.input(&WindowEvent::Keyboard {
        state: ElementState::Released,
        key: None,
    });
    assert!(!handled);
    assert_eq!(s.levers, before);
    let handled = s.input(&WindowEvent::CursorMoved { x_bits: 1, y_bits: 2 });
    assert!(handled);
    assert_eq!(s.levers, before);
}

#[test]
fn exit_log_lines() {
    let close = handle_exit(ExitReason::CloseRequest);
    assert_eq!(close.control_flow, ControlFlow::Exit);
    assert_eq!(close.debug_line, "Close request received.");
    assert_eq!(close.info_line, "Bye");
    let escape = handle_exit(ExitReason::Escape);
    assert_eq!(escape.control_flow, ControlFlow::Exit);
    assert_eq!(escape.debug_line, "Escape received");
    assert_eq!(escape.info_line, "Bye");
    let oom = handle_exit(ExitReason::Oom);
    assert_eq!(oom.control_flow, ControlFlow::Exit);
    assert_eq!(oom.debug_line, "System is OOM");
    assert_eq!(oom.info_line, "Bye");
}

#[test]
fn init_failure_messages() {
    assert_eq!(
        init_failure_message(InitFailure::NoAdapter),
        "Can't initialize adapter with the surface."
    );
    assert_eq!(
        init_failure_message(InitFailure::NoPreferredFormat),
        "Can't get surface prefered texture format."
    );
}

#[test]
fn startup_draw_exit() {
    let mut s = fresh();
    let redraw = step(&mut s, &Event::RedrawRequested, Ok(()));
    let plan = redraw.submit.expect("one frame is submitted");
    assert_eq!(plan.draw.index_buffer, BufferChoice::Primary);
    assert_eq!(plan.draw.index_count, 9);
    assert_eq!(plan.draw.instance_count, 1);
    assert_eq!(plan.draw.index_format, IndexFormat::Uint16);
    assert!(redraw.exit.is_none());
    assert!(plan.attachment.ops.store);
    assert!(!plan.attachment.has_resolve_target);
    match plan.attachment.ops.load {
        LoadOp::Clear(c) => {
            assert_eq!(f64::from_bits(c.r_bits), 0.1);
            assert_eq!(f64::from_bits(c.g_bits), 0.2);
            assert_eq!(f64::from_bits(c.b_bits), 0.3);
            assert_eq!(f64::from_bits(c.a_bits), 1.0);
        }
        LoadOp::Load => panic!("the pass must clear"),
    }

    let close = step(&mut s, &Event::Window(WindowEvent::CloseRequested), Ok(()));
    assert_eq!(close.exit, Some(ExitReason::CloseRequest));
    let log = handle_exit(close.exit.unwrap());
    assert_eq!(log.control_flow, ControlFlow::Exit);
    assert_eq!(log.debug_line, "Close request received.");
    assert_eq!(log.info_line, "Bye");
}

#[test]
fn toggle_changes_drawn_count() {
    let mut s = fresh();
    step(&mut s, &Event::Window(space(ElementState::Pressed)), Ok(()));
    let pressed = step(&mut s, &Event::RedrawRequested, Ok(())).submit.unwrap();
    assert_eq!(pressed.draw.index_buffer, BufferChoice::Secondary);
    assert_eq!(pressed.draw.index_count, 6);

    step(&mut s, &Event::Window(space(ElementState::Released)), Ok(()));
    let released = step(&mut s, &Event::RedrawRequested, Ok(())).submit.unwrap();
    assert_eq!(released.draw.index_buffer, BufferChoice::Primary);
    assert_eq!(released.draw.index_count, 9);
}

#[test]
fn resize_updates_descriptor() {
    let mut s = fresh();
    let out = step(
        &mut s,
        &Event::Window(WindowEvent::Resized { width: 1024, height: 768 }),
        Ok(()),
    );
    assert_eq!(out.resize_to, Some(PhysicalSize { width: 1024, height: 768 }));
    assert_eq!(s.size_width, 1024);
    assert_eq!(s.size_height, 768);
    assert_eq!(s.sc_desc.width, 1024);
    assert_eq!(s.sc_desc.height, 768);
    let next = step(&mut s, &Event::RedrawRequested, Ok(()));
    assert!(next.submit.is_some());
    assert!(next.exit.is_none());
}

#[test]
fn lost_swapchain_is_recreated_at_current_size() {
    let mut s = fresh();
    let out = step(&mut s, &Event::RedrawRequested, Err(SwapchainError::Lost));
    assert!(out.submit.is_none());
    assert!(out.exit.is_none());
    assert_eq!(out.resize_to, Some(PhysicalSize { width: 800, height: 600 }));
    assert_eq!(s.sc_desc.width, 800);
    assert_eq!(s.sc_desc.height, 600);
    let next = step(&mut s, &Event::RedrawRequested, Ok(()));
    assert!(next.submit.is_some());
}

#[test]
fn out_of_memory_exits() {
    let mut s = fresh();
    let out = step(&mut s, &Event::RedrawRequested, Err(SwapchainError::OutOfMemory));
    assert_eq!(out.exit, Some(ExitReason::Oom));
    assert!(out.submit.is_none());
    assert!(out.resize_to.is_none());
    let log = handle_exit(out.exit.unwrap());
    assert_eq!(log.control_flow, ControlFlow::Exit);
    assert_eq!(log.info_line, "Bye");
}

#[test]
fn transient_errors_are_logged_and_skipped() {
    let mut s = fresh();
    for e in [SwapchainError::Timeout, SwapchainError::Outdated, SwapchainError::Other] {
        let out = step(&mut s, &Event::RedrawRequested, Err(e));
        assert_eq!(out.log_error, Some(e));
        assert!(out.exit.is_none());
        assert!(out.resize_to.is_none());
        assert!(out.submit.is_none());
    }
    let next = step(&mut s, &Event::RedrawRequested, Ok(()));
    assert!(next.submit.is_some());
}

#[test]
fn escape_exits_with_cursor_preserved() {
    let mut s = fresh();
    let moved = step(
        &mut s,
        &Event::Window(WindowEvent::CursorMoved {
            x_bits: 123.4f64.to_bits(),
            y_bits: 56.7f64.to_bits(),
        }),
        Ok(()),
    );
    assert!(moved.exit.is_none());
    let out = step(
        &mut s,
        &Event::Window(WindowEvent::Keyboard {
            state: ElementState::Pressed,
            key: Some(Key::Escape),
        }),
        Ok(()),
    );
    assert_eq!(out.exit, Some(ExitReason::Escape));
    assert_eq!(f64::from_bits(s.input.mouse_x_bits), 123.4);
    assert_eq!(f64::from_bits(s.input.mouse_y_bits), 56.7);
}

#[test]
fn main_events_cleared_requests_redraw() {
    let mut s = fresh();
    let out = step(&mut s, &Event::MainEventsCleared, Ok(()));
    assert!(out.request_redraw);
    assert!(out.exit.is_none());
    assert!(out.submit.is_none());
    let none = step(&mut s, &Event::Other, Ok(()));
    assert!(!none.request_redraw);
}

#[test]
fn escape_release_is_not_an_exit() {
    let mut s = fresh();
    let out = step(
        &mut s,
        &Event::Window(WindowEvent::Keyboard {
            state: ElementState::Released,
            key: Some(Key::Escape),
        }),
        Ok(()),
    );
    assert!(out.exit.is_none());
}
