use goshenite::channel::ChannelClosed;
use goshenite::command::{EngineCommand, EngineError};
use goshenite::config::RenderOptions;
use goshenite::cursor::{ButtonStates, CursorIconChange, CursorState, MouseButton, WindowButton};
use goshenite::engine::{
    frame_updates, Engine, EngineAction, EngineEvent, FrameUpdate, MainThread, MainThreadChannels,
    WindowInput,
};
use goshenite::lifecycle::ThreadState;

#[test]
fn render_options_default_to_no_wire_display() {
    assert_eq!(RenderOptions::default(), RenderOptions { enable_aabb_wire_display: false });
}

#[test]
fn button_states_set_and_get_one_button() {
    let mut states = ButtonStates::released();
    for button in [MouseButton::Left, MouseButton::Right, MouseButton::Middle] {
        assert!(!states.get(button));
    }
    states.set(MouseButton::Right, true);
    assert_eq!(states, ButtonStates { left: false, right: true, middle: false });
    assert!(states.get(MouseButton::Right));
    assert!(!states.get(MouseButton::Left));
    states.set(MouseButton::Middle, true);
    states.set(MouseButton::Right, false);
    assert_eq!(states, ButtonStates { left: false, right: false, middle: true });
}

#[test]
fn supported_buttons_map_to_the_engine() {
    assert_eq!(MouseButton::from_winit(WindowButton::Left), Ok(MouseButton::Left));
    assert_eq!(MouseButton::from_winit(WindowButton::Right), Ok(MouseButton::Right));
    assert_eq!(MouseButton::from_winit(WindowButton::Middle), Ok(MouseButton::Middle));
}

#[test]
fn unsupported_buttons_are_reported() {
    assert_eq!(
        MouseButton::from_winit(WindowButton::Other(7)),
        Err("attempted to index unsupported mouse button code: 7".to_string())
    );
    assert_eq!(
        MouseButton::from_winit(WindowButton::Other(65535)),
        Err("attempted to index unsupported mouse button code: 65535".to_string())
    );
    assert_eq!(
        MouseButton::from_winit(WindowButton::Other(0)),
        Err("attempted to index unsupported mouse button code: 0".to_string())
    );
    assert_eq!(
        MouseButton::from_winit(WindowButton::Other(1040)),
        Err("attempted to index unsupported mouse button code: 1040".to_string())
    );
    assert_eq!(
        MouseButton::from_winit(WindowButton::Back),
        Err("attempted to index unsupported mouse button: back".to_string())
    );
    assert_eq!(
        MouseButton::from_winit(WindowButton::Forward),
        Err("attempted to index unsupported mouse button: forward".to_string())
    );
}

#[test]
fn captured_press_does_not_count() {
    let mut cursor = CursorState::new();
    assert_eq!(cursor.set_click_state(WindowButton::Left, true, true), Ok(()));
    assert!(!cursor.is_pressed.left);
    assert_eq!(cursor.set_click_state(WindowButton::Left, true, false), Ok(()));
    assert!(cursor.is_pressed.left);
    assert_eq!(cursor.set_click_state(WindowButton::Left, false, false), Ok(()));
    assert!(!cursor.is_pressed.left);
    assert!(cursor.set_click_state(WindowButton::Other(9), true, false).is_err());
    assert_eq!(cursor, CursorState::new());
}

#[test]
fn drag_starts_when_held_over_two_frames_and_moved_on_both_axes() {
    let mut cursor = CursorState::new();
    cursor.set_click_state(WindowButton::Left, true, false).unwrap();
    // pressed since this frame only
    assert_eq!(cursor.process_frame(true, true), CursorIconChange::Keep);
    assert_eq!(cursor.which_dragging(), None);
    // held, but moved on one axis only
    assert_eq!(cursor.process_frame(true, false), CursorIconChange::Keep);
    assert_eq!(cursor.process_frame(false, true), CursorIconChange::Keep);
    assert_eq!(cursor.which_dragging(), None);
    assert_eq!(cursor.process_frame(true, true), CursorIconChange::Grabbing);
    assert_eq!(cursor.which_dragging(), Some(MouseButton::Left));
    // the drag goes on without movement
    assert_eq!(cursor.process_frame(false, false), CursorIconChange::Keep);
    assert_eq!(cursor.which_dragging(), Some(MouseButton::Left));
    cursor.set_click_state(WindowButton::Left, false, false).unwrap();
    assert_eq!(cursor.process_frame(true, true), CursorIconChange::Default);
    assert_eq!(cursor.which_dragging(), None);
}

#[test]
fn drag_goes_to_the_first_button_in_order() {
    let mut cursor = CursorState::new();
    cursor.set_click_state(WindowButton::Middle, true, false).unwrap();
    cursor.set_click_state(WindowButton::Right, true, false).unwrap();
    cursor.process_frame(false, false);
    assert_eq!(cursor.process_frame(true, true), CursorIconChange::Grabbing);
    assert_eq!(cursor.which_dragging(), Some(MouseButton::Right));
    // a button pressed later does not take the drag over
    cursor.set_click_state(WindowButton::Left, true, false).unwrap();
    cursor.process_frame(true, true);
    cursor.process_frame(true, true);
    assert_eq!(cursor.which_dragging(), Some(MouseButton::Right));
}

#[test]
fn in_window_state_is_recorded() {
    let mut cursor = CursorState::new();
    assert!(!cursor.in_window);
    cursor.set_in_window_state(true);
    assert!(cursor.in_window);
    cursor.set_in_window_state(false);
    assert!(!cursor.in_window);
}

#[test]
fn frame_updates_end_with_the_render_command() {
    let camera = FrameUpdate::Camera;
    let textures = FrameUpdate::GuiTextures;
    let primitives = FrameUpdate::GuiPrimitives;
    let command = FrameUpdate::RenderCommand;
    assert_eq!(frame_updates(false, false), vec![camera, command]);
    assert_eq!(frame_updates(true, false), vec![camera, textures, command]);
    assert_eq!(frame_updates(false, true), vec![camera, primitives, command]);
    assert_eq!(frame_updates(true, true), vec![camera, textures, primitives, command]);
}

#[test]
fn engine_starts_with_a_running_render_thread() {
    let engine = Engine::new(2_000);
    assert!(!engine.exiting);
    assert_eq!(engine.main_thread_frame_number, 0);
    assert_eq!(engine.render_thread.state, ThreadState::Running);
    assert_eq!(engine.render_thread.timeout_millis, 2_000);
}

#[test]
fn close_request_shuts_the_engine_down() {
    let mut engine = Engine::new(2_000);
    let close = EngineEvent::Window { input: WindowInput::CloseRequested, captured_by_gui: false };
    assert_eq!(engine.control_flow(close), EngineAction::Shutdown);
    assert!(engine.exiting);
    assert_eq!(engine.render_thread.state, ThreadState::QuitSignaled);
    // nothing is processed any more
    let frame = EngineEvent::MainEventsCleared { moved_x: true, moved_y: true };
    assert_eq!(engine.control_flow(frame), EngineAction::Nothing);
    assert_eq!(engine.control_flow(close), EngineAction::Nothing);
}

#[test]
fn window_events_reach_the_cursor_and_the_caller() {
    let mut engine = Engine::new(2_000);
    let window = |input| EngineEvent::Window { input, captured_by_gui: false };
    assert_eq!(engine.control_flow(EngineEvent::Init), EngineAction::Nothing);
    assert_eq!(engine.control_flow(EngineEvent::Other), EngineAction::Nothing);
    assert_eq!(engine.control_flow(window(WindowInput::CursorEntered)), EngineAction::Nothing);
    assert!(engine.cursor_state.in_window);
    assert_eq!(engine.control_flow(window(WindowInput::CursorLeft)), EngineAction::Nothing);
    assert!(!engine.cursor_state.in_window);
    assert_eq!(
        engine.control_flow(window(WindowInput::CursorMoved)),
        EngineAction::Apply { input: WindowInput::CursorMoved }
    );
    assert_eq!(engine.control_flow(window(WindowInput::Resized)), EngineAction::PublishResize);
    assert_eq!(
        engine.control_flow(window(WindowInput::ScaleFactorChanged)),
        EngineAction::PublishScaleFactorAndResize
    );
    let press = WindowInput::MouseInput { button: WindowButton::Left, pressed: true };
    assert_eq!(engine.control_flow(window(press)), EngineAction::Nothing);
    assert!(engine.cursor_state.is_pressed.left);
    let odd = WindowInput::MouseInput { button: WindowButton::Other(12), pressed: true };
    assert_eq!(engine.control_flow(window(odd)), EngineAction::ReportUnsupportedButton);
    assert_eq!(engine.control_flow(window(WindowInput::Other)), EngineAction::Nothing);
}

#[test]
fn frames_are_counted_when_published() {
    let mut engine = Engine::new(2_000);
    let frame = EngineEvent::MainEventsCleared { moved_x: false, moved_y: false };
    assert_eq!(
        engine.control_flow(frame),
        EngineAction::PublishFrame { icon: CursorIconChange::Keep }
    );
    assert_eq!(engine.on_published(Ok(()), true), EngineAction::Nothing);
    assert_eq!(engine.main_thread_frame_number, 1);
    assert_eq!(engine.on_published(Ok(()), false), EngineAction::Nothing);
    assert_eq!(engine.main_thread_frame_number, 1);
}

#[test]
fn closed_channel_shuts_the_engine_down() {
    let mut engine = Engine::new(2_000);
    assert_eq!(
        engine.on_published(Err(EngineError::RenderThreadClosedPrematurely), true),
        EngineAction::Shutdown
    );
    assert!(engine.exiting);
    assert_eq!(engine.main_thread_frame_number, 0);
    assert_eq!(engine.render_thread.state, ThreadState::QuitSignaled);
}

#[test]
fn main_thread_channels_start_with_run() {
    let mut channels = MainThreadChannels::new();
    assert_eq!(channels.latest_command(), Ok(Some(EngineCommand::Run)));
    assert_eq!(channels.get_events(), Ok(vec![]));
}

#[test]
fn window_thread_forwards_events_in_order() {
    let mut channels = MainThreadChannels::new();
    let mut main_thread = MainThread { exiting: false };
    let press = WindowInput::MouseInput { button: WindowButton::Left, pressed: true };
    let release = WindowInput::MouseInput { button: WindowButton::Left, pressed: false };
    for event in [press, WindowInput::CursorMoved, release] {
        assert!(!main_thread.window_event(&mut channels, true, event));
    }
    // a close request for another window is an event like any other
    assert!(!main_thread.window_event(&mut channels, false, WindowInput::CloseRequested));
    assert_eq!(
        channels.get_events(),
        Ok(vec![press, WindowInput::CursorMoved, release, WindowInput::CloseRequested])
    );
    assert_eq!(channels.latest_command(), Ok(Some(EngineCommand::Run)));
}

#[test]
fn close_request_publishes_quit_and_ends_the_loop() {
    let mut channels = MainThreadChannels::new();
    let mut main_thread = MainThread { exiting: false };
    assert!(main_thread.window_event(&mut channels, true, WindowInput::CloseRequested));
    assert!(main_thread.exiting);
    assert_eq!(channels.latest_command(), Ok(Some(EngineCommand::Quit)));
    assert_eq!(channels.get_events(), Ok(vec![]));
}

#[test]
fn window_thread_stops_when_the_engine_is_gone() {
    let mut channels = MainThreadChannels::new();
    let mut main_thread = MainThread { exiting: false };
    channels.window_events.drop_receiver();
    assert!(main_thread.window_event(&mut channels, true, WindowInput::CursorMoved));
    assert!(main_thread.exiting);
}

#[test]
fn engine_learns_that_the_window_thread_is_gone() {
    let mut channels = MainThreadChannels::new();
    channels.window_events.drop_sender();
    channels.engine_command.drop_updater();
    assert_eq!(channels.get_events(), Err(ChannelClosed));
    assert_eq!(channels.latest_command(), Err(ChannelClosed));
}
