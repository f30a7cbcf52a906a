//! The engine thread's decisions: which window events end the program,
//! what each does to the engine's state, and what is published to the
//! render thread every frame. Also the window thread's one decision:
//! whether an event is forwarded or ends the event loop.

use vstd::prelude::*;
use crate::channel::{ChannelClosed, QueueChannel, QueueState, ValueChannel};
use crate::command::{EngineCommand, EngineError};
use crate::cursor::{ButtonStates, CursorIconChange, CursorState, MouseButton, WindowButton};
use crate::lifecycle::ThreadHandle;

verus! {

/// A window event, reduced to what the engine's decisions read.
#[derive(Clone, Copy, Debug, PartialEq, Eq, Structural)]
pub enum WindowInput {
    CloseRequested,
    CursorMoved,
    MouseInput { button: WindowButton, pressed: bool },
    MouseWheel,
    CursorEntered,
    CursorLeft,
    Resized,
    ScaleFactorChanged,
    ThemeChanged,
    Other,
}

/// What the event loop hands to the engine.
#[derive(Clone, Copy, Debug, PartialEq, Eq, Structural)]
pub enum EngineEvent {
    /// The loop has started.
    Init,
    /// A window event; `captured_by_gui` tells whether the GUI consumed
    /// it.
    Window { input: WindowInput, captured_by_gui: bool },
    /// All pending events were handled: time for a frame. The flags tell
    /// on which axes the cursor moved since the last frame.
    MainEventsCleared { moved_x: bool, moved_y: bool },
    Other,
}

/// What the caller does for the engine after an event.
#[derive(Clone, Copy, Debug, PartialEq, Eq, Structural)]
pub enum EngineAction {
    Nothing,
    /// Leave the event loop and stop the render thread.
    Shutdown,
    /// Apply the event to the state the caller keeps: cursor position,
    /// scroll, theme.
    Apply { input: WindowInput },
    /// Log that a button of the window system is not supported.
    ReportUnsupportedButton,
    /// Update the camera's aspect ratio and publish the resize flag.
    PublishResize,
    /// Publish the new scale factor, then do as for a resize.
    PublishScaleFactorAndResize,
    /// Update GUI and camera, set the cursor icon as told, and publish
    /// the frame's state.
    PublishFrame { icon: CursorIconChange },
}

/// One publication of a frame's state to the render thread.
#[derive(Clone, Copy, Debug, PartialEq, Eq, Structural)]
pub enum FrameUpdate {
    /// The camera, over a value channel.
    Camera,
    /// The GUI's texture changes, over a queue channel.
    GuiTextures,
    /// The GUI's geometry, over a value channel.
    GuiPrimitives,
    /// The command to render a frame, over a value channel.
    RenderCommand,
}

/// What is published for a frame, in order: the camera, the texture
/// changes if there are any, the GUI geometry if there is any, and last
/// the command to render.
pub open spec fn spec_frame_updates(has_textures: bool, has_primitives: bool) -> Seq<FrameUpdate> {
    seq![FrameUpdate::Camera] + (if has_textures {
        seq![FrameUpdate::GuiTextures]
    } else {
        Seq::<FrameUpdate>::empty()
    }) + (if has_primitives {
        seq![FrameUpdate::GuiPrimitives]
    } else {
        Seq::<FrameUpdate>::empty()
    }) + seq![FrameUpdate::RenderCommand]
}

/// What is published for a frame, in order.
pub fn frame_updates(has_textures: bool, has_primitives: bool) -> (updates: Vec<FrameUpdate>)
    ensures
        updates@ == spec_frame_updates(has_textures, has_primitives),
        updates@.len() >= 2,
        updates@.first() == FrameUpdate::Camera,
        updates@.last() == FrameUpdate::RenderCommand,
{
    let mut updates: Vec<FrameUpdate> = Vec::new();
    updates.push(FrameUpdate::Camera);
    if has_textures {
        updates.push(FrameUpdate::GuiTextures);
    }
    if has_primitives {
        updates.push(FrameUpdate::GuiPrimitives);
    }
    updates.push(FrameUpdate::RenderCommand);
    assert(updates@ =~= spec_frame_updates(has_textures, has_primitives));
    updates
}

/// The engine's own state.
#[derive(Clone, Copy, Debug, PartialEq, Eq, Structural)]
pub struct Engine {
    pub cursor_state: CursorState,
    /// Frames published so far.
    pub main_thread_frame_number: u64,
    /// The event loop was told to exit; nothing is processed any more.
    pub exiting: bool,
    pub render_thread: ThreadHandle,
}

impl Engine {
    /// The engine at start: a released cursor, no frame yet, and a render
    /// thread that was spawned and sent its first run command.
    pub fn new(render_thread_timeout_millis: u64) -> (engine: Self)
        ensures
            engine.cursor_state == (CursorState {
                in_window: false,
                is_pressed: ButtonStates { left: false, right: false, middle: false },
                is_pressed_previous: ButtonStates { left: false, right: false, middle: false },
                which_dragging: None,
            }),
            engine.main_thread_frame_number == 0,
            !engine.exiting,
            engine.render_thread == (ThreadHandle {
                state: crate::lifecycle::ThreadState::Running,
                timeout_millis: render_thread_timeout_millis,
            }),
    {
        let mut render_thread = ThreadHandle::spawned(render_thread_timeout_millis);
        render_thread.started();
        Engine {
            cursor_state: CursorState::new(),
            main_thread_frame_number: 0,
            exiting: false,
            render_thread,
        }
    }

    /// The engine after it decided to shut down.
    pub open spec fn shut_down(self) -> Engine {
        Engine { exiting: true, render_thread: self.render_thread.after_quit_signal(), ..self }
    }

    /// The engine after a window event, with what the caller does.
    pub open spec fn spec_process_input(self, input: WindowInput, captured_by_gui: bool) -> (
        Engine,
        EngineAction,
    ) {
        match input {
            WindowInput::CloseRequested => (self.shut_down(), EngineAction::Shutdown),
            WindowInput::MouseInput { button, pressed } => match MouseButton::spec_from_winit(button) {
                Some(supported) => (
                    Engine {
                        cursor_state: CursorState {
                            is_pressed: self.cursor_state.is_pressed.spec_set(
                                supported,
                                !captured_by_gui && pressed,
                            ),
                            ..self.cursor_state
                        },
                        ..self
                    },
                    EngineAction::Nothing,
                ),
                None => (self, EngineAction::ReportUnsupportedButton),
            },
            WindowInput::CursorEntered => (
                Engine {
                    cursor_state: CursorState { in_window: true, ..self.cursor_state },
                    ..self
                },
                EngineAction::Nothing,
            ),
            WindowInput::CursorLeft => (
                Engine {
                    cursor_state: CursorState { in_window: false, ..self.cursor_state },
                    ..self
                },
                EngineAction::Nothing,
            ),
            WindowInput::Resized => (self, EngineAction::PublishResize),
            WindowInput::ScaleFactorChanged => (self, EngineAction::PublishScaleFactorAndResize),
            WindowInput::CursorMoved | WindowInput::MouseWheel | WindowInput::ThemeChanged => (
                self,
                EngineAction::Apply { input },
            ),
            WindowInput::Other => (self, EngineAction::Nothing),
        }
    }

    /// The engine after the cursor's frame was closed, with the request
    /// to publish the frame's state.
    pub open spec fn spec_process_frame(self, moved_x: bool, moved_y: bool) -> (Engine, EngineAction) {
        (
            Engine {
                cursor_state: CursorState {
                    which_dragging: self.cursor_state.dragging_after_frame(moved_x && moved_y),
                    is_pressed_previous: self.cursor_state.is_pressed,
                    ..self.cursor_state
                },
                ..self
            },
            EngineAction::PublishFrame {
                icon: self.cursor_state.icon_after_frame(moved_x && moved_y),
            },
        )
    }

    /// The engine after an event of the loop, with what the caller does.
    /// An engine that is exiting ignores every event.
    pub open spec fn spec_control_flow(self, event: EngineEvent) -> (Engine, EngineAction) {
        if self.exiting {
            (self, EngineAction::Nothing)
        } else {
            match event {
                EngineEvent::Window { input, captured_by_gui } => self.spec_process_input(
                    input,
                    captured_by_gui,
                ),
                EngineEvent::MainEventsCleared { moved_x, moved_y } => self.spec_process_frame(
                    moved_x,
                    moved_y,
                ),
                _ => (self, EngineAction::Nothing),
            }
        }
    }

    /// Takes one event of the loop.
    pub fn control_flow(&mut self, event: EngineEvent) -> (action: EngineAction)
        ensures
            (*final(self), action) == old(self).spec_control_flow(event),
    {
        if self.exiting {
            return EngineAction::Nothing;
        }
        match event {
            EngineEvent::Window { input, captured_by_gui } => self.process_input(
                input,
                captured_by_gui,
            ),
            EngineEvent::MainEventsCleared { moved_x, moved_y } => self.process_frame(
                moved_x,
                moved_y,
            ),
            _ => EngineAction::Nothing,
        }
    }

    /// Takes one window event.
    pub fn process_input(&mut self, input: WindowInput, captured_by_gui: bool) -> (action:
        EngineAction)
        ensures
            (*final(self), action) == old(self).spec_process_input(input, captured_by_gui),
    {
        match input {
            WindowInput::CloseRequested => {
                self.stop_render_thread();
                EngineAction::Shutdown
            },
            WindowInput::MouseInput { button, pressed } => {
                match self.cursor_state.set_click_state(button, pressed, captured_by_gui) {
                    Ok(_) => EngineAction::Nothing,
                    Err(_) => EngineAction::ReportUnsupportedButton,
                }
            },
            WindowInput::CursorEntered => {
                self.cursor_state.set_in_window_state(true);
                EngineAction::Nothing
            },
            WindowInput::CursorLeft => {
                self.cursor_state.set_in_window_state(false);
                EngineAction::Nothing
            },
            WindowInput::Resized => EngineAction::PublishResize,
            WindowInput::ScaleFactorChanged => EngineAction::PublishScaleFactorAndResize,
            WindowInput::CursorMoved | WindowInput::MouseWheel | WindowInput::ThemeChanged => {
                EngineAction::Apply { input }
            },
            WindowInput::Other => EngineAction::Nothing,
        }
    }

    /// Closes the cursor's frame and asks for the frame's state to be
    /// published.
    pub fn process_frame(&mut self, moved_x: bool, moved_y: bool) -> (action: EngineAction)
        ensures
            (*final(self), action) == old(self).spec_process_frame(moved_x, moved_y),
    {
        let icon = self.cursor_state.process_frame(moved_x, moved_y);
        EngineAction::PublishFrame { icon }
    }

    /// Takes the outcome of what was published for an event. A success
    /// after a frame's publications counts the frame; a closed channel
    /// shuts the engine down.
    pub fn on_published(&mut self, published: Result<(), EngineError>, frame: bool) -> (action:
        EngineAction)
        ensures
            published is Ok ==> action == EngineAction::Nothing && *final(self) == (Engine {
                main_thread_frame_number: if frame && old(self).main_thread_frame_number
                    < u64::MAX {
                    (old(self).main_thread_frame_number + 1) as u64
                } else {
                    old(self).main_thread_frame_number
                },
                ..*old(self)
            }),
            published is Err ==> action == EngineAction::Shutdown && *final(self) == old(
                self,
            ).shut_down(),
    {
        match published {
            Ok(_) => {
                if frame && self.main_thread_frame_number < u64::MAX {
                    self.main_thread_frame_number = self.main_thread_frame_number + 1;
                }
                EngineAction::Nothing
            },
            Err(_) => {
                self.stop_render_thread();
                EngineAction::Shutdown
            },
        }
    }

    /// Decides the shutdown: the engine is exiting and the render thread
    /// is to be told to quit and waited for.
    pub fn stop_render_thread(&mut self)
        ensures
            *final(self) == old(self).shut_down(),
    {
        self.exiting = true;
        let _ = self.render_thread.signal_quit();
    }
}

/// An exiting engine stays as it is whatever event comes.
pub proof fn lemma_exiting_engine_ignores_events(engine: Engine, event: EngineEvent)
    requires
        engine.exiting,
    ensures
        engine.spec_control_flow(event) == (engine, EngineAction::Nothing),
{
}

/// The channels from the window thread to the engine thread.
pub struct MainThreadChannels {
    /// The latest command for the engine.
    pub engine_command: ValueChannel<Option<EngineCommand>>,
    /// The window events, oldest first.
    pub window_events: QueueChannel<WindowInput>,
}

impl MainThreadChannels {
    /// Both channels open, with the command to run already published.
    pub fn new() -> (channels: Self)
        ensures
            channels.engine_command.observable() == Some(EngineCommand::Run),
            channels.engine_command.pending() == Some(Some(EngineCommand::Run)),
            channels.engine_command.cached() == None::<EngineCommand>,
            channels.engine_command.updater_alive(),
            channels.engine_command.receiver_alive(),
            channels.window_events@ == (QueueState {
                pending: Seq::<WindowInput>::empty(),
                sender_alive: true,
                receiver_alive: true,
            }),
    {
        let mut engine_command = ValueChannel::starting_with(None);
        let _ = engine_command.publish(Some(EngineCommand::Run));
        MainThreadChannels { engine_command, window_events: QueueChannel::new() }
    }

    /// The window events received so far, the first received at index 0.
    /// Fails when the window thread is gone.
    pub fn get_events(&mut self) -> (events: Result<Vec<WindowInput>, ChannelClosed>)
        ensures
            old(self).window_events@.sender_alive ==> events is Ok && events->Ok_0@ == old(
                self,
            ).window_events@.pending,
            !old(self).window_events@.sender_alive ==> events is Err,
            final(self).window_events@ == (QueueState {
                pending: Seq::<WindowInput>::empty(),
                ..old(self).window_events@
            }),
            final(self).engine_command == old(self).engine_command,
    {
        self.window_events.drain()
    }

    /// The latest command for the engine. Fails when the window thread is
    /// gone.
    pub fn latest_command(&mut self) -> (command: Result<Option<EngineCommand>, ChannelClosed>)
        ensures
            old(self).engine_command.updater_alive() ==> command == Ok::<
                Option<EngineCommand>,
                ChannelClosed,
            >(old(self).engine_command.observable()),
            old(self).engine_command.updater_alive() ==> final(self).engine_command.cached() == old(
                self,
            ).engine_command.observable() && final(self).engine_command.pending() is None,
            !old(self).engine_command.updater_alive() ==> command is Err
                && final(self).engine_command == old(self).engine_command,
            final(self).engine_command.updater_alive() == old(self).engine_command.updater_alive(),
            final(self).engine_command.receiver_alive() == old(
                self,
            ).engine_command.receiver_alive(),
            final(self).window_events@ == old(self).window_events@,
    {
        self.engine_command.latest()
    }
}

/// What the window thread does with an event.
#[derive(Clone, Copy, Debug, PartialEq, Eq, Structural)]
pub enum WindowThreadStep {
    /// Publish the quit command and end the event loop.
    QuitAndExit,
    /// Queue the event for the engine.
    Forward,
}

/// The window thread: it pumps the window system's events and hands them
/// on.
#[derive(Clone, Copy, Debug, PartialEq, Eq, Structural)]
pub struct MainThread {
    /// The event loop was told to exit.
    pub exiting: bool,
}

impl MainThread {
    /// What becomes of an event: a close request for the primary window
    /// ends the program, everything else is forwarded.
    pub open spec fn spec_route(for_primary_window: bool, event: WindowInput) -> WindowThreadStep {
        if event is CloseRequested && for_primary_window {
            WindowThreadStep::QuitAndExit
        } else {
            WindowThreadStep::Forward
        }
    }

    /// Decides what becomes of an event.
    pub fn route(for_primary_window: bool, event: WindowInput) -> (step: WindowThreadStep)
        ensures
            step == Self::spec_route(for_primary_window, event),
    {
        match event {
            WindowInput::CloseRequested => if for_primary_window {
                WindowThreadStep::QuitAndExit
            } else {
                WindowThreadStep::Forward
            },
            _ => WindowThreadStep::Forward,
        }
    }

    /// The quit command was published: the event loop is to end.
    pub fn quit_published(&mut self)
        ensures
            final(self).exiting,
    {
        self.exiting = true;
    }

    /// Takes the outcome of forwarding an event. Returns whether the
    /// event loop is to end, which it is when the engine is gone.
    pub fn forwarded(&mut self, sent: Result<(), ChannelClosed>) -> (exit: bool)
        ensures
            exit == sent is Err,
            final(self).exiting == (old(self).exiting || exit),
    {
        match sent {
            Ok(_) => false,
            Err(_) => {
                self.exiting = true;
                true
            },
        }
    }

    /// Takes one window event. A close request for the primary window
    /// publishes the quit command and ends the event loop; any other
    /// event is queued for the engine, and the loop ends if the engine
    /// is gone. Returns whether the loop is to end.
    pub fn window_event(
        &mut self,
        channels: &mut MainThreadChannels,
        for_primary_window: bool,
        event: WindowInput,
    ) -> (exit: bool)
        ensures
            final(self).exiting == (old(self).exiting || exit),
            Self::spec_route(for_primary_window, event) is QuitAndExit ==> ({
                &&& exit
                &&& final(channels).engine_command == old(channels).engine_command.after_publish(
                    Some(EngineCommand::Quit),
                )
                &&& final(channels).window_events@ == old(channels).window_events@
            }),
            Self::spec_route(for_primary_window, event) is Forward ==> ({
                &&& exit == !old(channels).window_events@.receiver_alive
                &&& final(channels).window_events@ == old(channels).window_events@.after_send(event)
                &&& final(channels).engine_command == old(channels).engine_command
            }),
    {
        match Self::route(for_primary_window, event) {
            WindowThreadStep::QuitAndExit => {
                let _ = channels.engine_command.publish(Some(EngineCommand::Quit));
                self.quit_published();
                true
            },
            WindowThreadStep::Forward => {
                let sent = channels.window_events.send(event);
                self.forwarded(sent)
            },
        }
    }
}

} // verus!
