//! Mouse buttons and the dragging state derived from them frame by frame.

use vstd::prelude::*;

verus! {

/// Mouse buttons the engine reacts to.
#[derive(Clone, Copy, Debug, PartialEq, Eq, Structural)]
pub enum MouseButton {
    Left,
    Right,
    Middle,
}

/// A mouse button as the window system names it.
#[derive(Clone, Copy, Debug, PartialEq, Eq, Structural)]
pub enum WindowButton {
    Left,
    Right,
    Middle,
    Back,
    Forward,
    Other(u16),
}

/// The character of a decimal digit.
pub open spec fn digit_char(digit: nat) -> char {
    if digit == 0 {
        '0'
    } else if digit == 1 {
        '1'
    } else if digit == 2 {
        '2'
    } else if digit == 3 {
        '3'
    } else if digit == 4 {
        '4'
    } else if digit == 5 {
        '5'
    } else if digit == 6 {
        '6'
    } else if digit == 7 {
        '7'
    } else if digit == 8 {
        '8'
    } else {
        '9'
    }
}

/// A number written in decimal, without leading zeros.
pub open spec fn decimal_digits(number: nat) -> Seq<char>
    decreases number,
{
    if number < 10 {
        seq![digit_char(number)]
    } else {
        decimal_digits(number / 10).push(digit_char(number % 10))
    }
}

/// The text that reports the unsupported button with this code: a fixed
/// sentence, then the code in decimal.
pub open spec fn unsupported_code_text(code: u16) -> Seq<char> {
    "attempted to index unsupported mouse button code: "@ + decimal_digits(code as nat)
}

/// Formats the report of an unsupported button code with std's `format!`.
/// Believed, not proved: the text is the fixed sentence followed by the
/// code as `Display` writes an integer, which is in decimal without
/// leading zeros.
#[verifier::external_body]
fn unsupported_code_message(code: u16) -> (message: String)
    ensures
        message@ == unsupported_code_text(code),
{
    format!("attempted to index unsupported mouse button code: {}", code)
}

impl MouseButton {
    /// The engine's button for a window system button, where there is
    /// one.
    pub open spec fn spec_from_winit(button: WindowButton) -> Option<MouseButton> {
        match button {
            WindowButton::Left => Some(MouseButton::Left),
            WindowButton::Right => Some(MouseButton::Right),
            WindowButton::Middle => Some(MouseButton::Middle),
            _ => None,
        }
    }

    /// Maps a window system button to the engine's, or reports which
    /// button is not supported.
    pub fn from_winit(button: WindowButton) -> (mapped: Result<MouseButton, String>)
        ensures
            match Self::spec_from_winit(button) {
                Some(supported) => mapped == Ok::<MouseButton, String>(supported),
                None => mapped is Err,
            },
            button matches WindowButton::Other(code) ==> mapped->Err_0@ == unsupported_code_text(
                code,
            ),
            button is Back ==> mapped->Err_0@ == "attempted to index unsupported mouse button: back"@,
            button is Forward ==> mapped->Err_0@
                == "attempted to index unsupported mouse button: forward"@,
    {
        match button {
            WindowButton::Left => Ok(MouseButton::Left),
            WindowButton::Right => Ok(MouseButton::Right),
            WindowButton::Middle => Ok(MouseButton::Middle),
            WindowButton::Back => Err(
                "attempted to index unsupported mouse button: back".to_owned(),
            ),
            WindowButton::Forward => Err(
                "attempted to index unsupported mouse button: forward".to_owned(),
            ),
            WindowButton::Other(code) => Err(unsupported_code_message(code)),
        }
    }
}

/// The buttons in the order in which they are considered for dragging.
pub open spec fn mouse_buttons() -> Seq<MouseButton> {
    seq![MouseButton::Left, MouseButton::Right, MouseButton::Middle]
}

/// One flag per supported mouse button.
#[derive(Clone, Copy, Debug, PartialEq, Eq, Structural)]
pub struct ButtonStates {
    pub left: bool,
    pub right: bool,
    pub middle: bool,
}

impl ButtonStates {
    /// The flag of `button`.
    pub open spec fn spec_get(self, button: MouseButton) -> bool {
        match button {
            MouseButton::Left => self.left,
            MouseButton::Right => self.right,
            MouseButton::Middle => self.middle,
        }
    }

    /// These flags with the one of `button` replaced by `state`.
    pub open spec fn spec_set(self, button: MouseButton, state: bool) -> ButtonStates {
        match button {
            MouseButton::Left => ButtonStates { left: state, ..self },
            MouseButton::Right => ButtonStates { right: state, ..self },
            MouseButton::Middle => ButtonStates { middle: state, ..self },
        }
    }

    /// No button pressed.
    pub fn released() -> (states: Self)
        ensures
            states == (ButtonStates { left: false, right: false, middle: false }),
    {
        ButtonStates { left: false, right: false, middle: false }
    }

    /// Sets the flag of `button` and leaves the others.
    pub fn set(&mut self, button: MouseButton, state: bool)
        ensures
            *final(self) == old(self).spec_set(button, state),
            final(self).spec_get(button) == state,
            forall|other: MouseButton| other != button ==> final(self).spec_get(other) == old(
                self,
            ).spec_get(other),
    {
        match button {
            MouseButton::Left => self.left = state,
            MouseButton::Right => self.right = state,
            MouseButton::Middle => self.middle = state,
        }
    }

    /// The flag of `button`.
    pub fn get(&self, button: MouseButton) -> (state: bool)
        ensures
            state == self.spec_get(button),
    {
        match button {
            MouseButton::Left => self.left,
            MouseButton::Right => self.right,
            MouseButton::Middle => self.middle,
        }
    }
}

/// What the window's cursor icon is to become.
#[derive(Clone, Copy, Debug, PartialEq, Eq, Structural)]
pub enum CursorIconChange {
    Keep,
    Default,
    Grabbing,
}

/// The cursor as the engine tracks it between frames. Positions are kept
/// by the caller; per frame it says on which axes the cursor moved.
#[derive(Clone, Copy, Debug, PartialEq, Eq, Structural)]
pub struct CursorState {
    /// Whether the cursor is within the window.
    pub in_window: bool,
    /// Which buttons are pressed.
    pub is_pressed: ButtonStates,
    /// Which buttons were pressed at the previous frame.
    pub is_pressed_previous: ButtonStates,
    /// The button that is dragging, if any.
    pub which_dragging: Option<MouseButton>,
}

impl CursorState {
    /// Whether `button` starts a drag: held now and at the previous
    /// frame, with the cursor moved.
    pub open spec fn starts_drag(self, button: MouseButton, has_moved: bool) -> bool {
        self.is_pressed.spec_get(button) && self.is_pressed_previous.spec_get(button) && has_moved
    }

    /// The dragging button after a frame. A drag ends when its button is
    /// released; with no drag under way, the first button in the order
    /// left, right, middle that starts one is dragging.
    pub open spec fn dragging_after_frame(self, has_moved: bool) -> Option<MouseButton> {
        match self.which_dragging {
            Some(button) => if self.is_pressed.spec_get(button) {
                Some(button)
            } else {
                None
            },
            None => if self.starts_drag(MouseButton::Left, has_moved) {
                Some(MouseButton::Left)
            } else if self.starts_drag(MouseButton::Right, has_moved) {
                Some(MouseButton::Right)
            } else if self.starts_drag(MouseButton::Middle, has_moved) {
                Some(MouseButton::Middle)
            } else {
                None
            },
        }
    }

    /// The icon change a frame asks for: the default icon when a drag
    /// ends, the grabbing icon when one starts.
    pub open spec fn icon_after_frame(self, has_moved: bool) -> CursorIconChange {
        match (self.which_dragging, self.dragging_after_frame(has_moved)) {
            (Some(_), None) => CursorIconChange::Default,
            (None, Some(_)) => CursorIconChange::Grabbing,
            _ => CursorIconChange::Keep,
        }
    }

    /// A cursor outside the window with nothing pressed.
    pub fn new() -> (cursor: Self)
        ensures
            !cursor.in_window,
            cursor.is_pressed == (ButtonStates { left: false, right: false, middle: false }),
            cursor.is_pressed_previous == cursor.is_pressed,
            cursor.which_dragging is None,
    {
        CursorState {
            in_window: false,
            is_pressed: ButtonStates::released(),
            is_pressed_previous: ButtonStates::released(),
            which_dragging: None,
        }
    }

    /// Records a button event. A supported button counts as pressed only
    /// when the event is a press that nothing else captured; an
    /// unsupported one changes nothing and is reported.
    pub fn set_click_state(&mut self, button: WindowButton, pressed: bool, cursor_captured: bool) -> (recorded:
        Result<(), String>)
        ensures
            match MouseButton::spec_from_winit(button) {
                Some(supported) => recorded is Ok && *final(self) == (CursorState {
                    is_pressed: old(self).is_pressed.spec_set(supported, !cursor_captured && pressed),
                    ..*old(self)
                }),
                None => recorded is Err && *final(self) == *old(self),
            },
            button matches WindowButton::Other(code) ==> recorded->Err_0@ == unsupported_code_text(
                code,
            ),
            button is Back ==> recorded->Err_0@
                == "attempted to index unsupported mouse button: back"@,
            button is Forward ==> recorded->Err_0@
                == "attempted to index unsupported mouse button: forward"@,
    {
        match MouseButton::from_winit(button) {
            Ok(supported) => {
                self.is_pressed.set(supported, !cursor_captured && pressed);
                Ok(())
            },
            Err(message) => Err(message),
        }
    }

    /// Records whether the cursor is within the window.
    pub fn set_in_window_state(&mut self, is_in_window: bool)
        ensures
            *final(self) == (CursorState { in_window: is_in_window, ..*old(self) }),
    {
        self.in_window = is_in_window;
    }

    /// Closes a frame: updates the drag and remembers the pressed
    /// buttons. The cursor counts as moved only if it moved on both axes.
    pub fn process_frame(&mut self, moved_x: bool, moved_y: bool) -> (icon: CursorIconChange)
        ensures
            final(self).which_dragging == old(self).dragging_after_frame(moved_x && moved_y),
            icon == old(self).icon_after_frame(moved_x && moved_y),
            final(self).is_pressed_previous == old(self).is_pressed,
            final(self).is_pressed == old(self).is_pressed,
            final(self).in_window == old(self).in_window,
    {
        let has_moved = moved_x && moved_y;
        let mut icon = CursorIconChange::Keep;
        match self.which_dragging {
            Some(dragging_button) => {
                if !self.is_pressed.get(dragging_button) {
                    self.which_dragging = None;
                    icon = CursorIconChange::Default;
                }
            },
            None => {
                if self.held_and_moved(MouseButton::Left, has_moved) {
                    self.which_dragging = Some(MouseButton::Left);
                    icon = CursorIconChange::Grabbing;
                } else if self.held_and_moved(MouseButton::Right, has_moved) {
                    self.which_dragging = Some(MouseButton::Right);
                    icon = CursorIconChange::Grabbing;
                } else if self.held_and_moved(MouseButton::Middle, has_moved) {
                    self.which_dragging = Some(MouseButton::Middle);
                    icon = CursorIconChange::Grabbing;
                }
            },
        }
        self.is_pressed_previous = self.is_pressed;
        icon
    }

    fn held_and_moved(&self, button: MouseButton, has_moved: bool) -> (starts: bool)
        ensures
            starts == self.starts_drag(button, has_moved),
    {
        self.is_pressed.get(button) && self.is_pressed_previous.get(button) && has_moved
    }

    /// The button that is dragging, if any.
    pub fn which_dragging(&self) -> (dragging: Option<MouseButton>)
        ensures
            dragging == self.which_dragging,
    {
        self.which_dragging
    }
}

/// A drag is given to the first button, in the order left, right, middle,
/// that starts one; an earlier button that does not start one is passed
/// over.
pub proof fn lemma_drag_priority(cursor: CursorState, has_moved: bool)
    requires
        cursor.which_dragging is None,
    ensures
        match cursor.dragging_after_frame(has_moved) {
            Some(button) => exists|rank: int|
                0 <= rank < mouse_buttons().len() && mouse_buttons()[rank] == button
                    && cursor.starts_drag(button, has_moved) && forall|earlier: int|
                    0 <= earlier < rank ==> !cursor.starts_drag(
                        #[trigger] mouse_buttons()[earlier],
                        has_moved,
                    ),
            None => forall|rank: int|
                0 <= rank < mouse_buttons().len() ==> !cursor.starts_drag(
                    #[trigger] mouse_buttons()[rank],
                    has_moved,
                ),
        },
{
    let buttons = mouse_buttons();
    assert(buttons[0] == MouseButton::Left);
    assert(buttons[1] == MouseButton::Right);
    assert(buttons[2] == MouseButton::Middle);
    match cursor.dragging_after_frame(has_moved) {
        Some(button) => {
            let rank: int = match button {
                MouseButton::Left => 0,
                MouseButton::Right => 1,
                MouseButton::Middle => 2,
            };
            assert(buttons[rank] == button);
        },
        None => {},
    }
}

} // verus!
