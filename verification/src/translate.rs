//! Raw captured events, synthetic output actions, and the fixed tables
//! that translate one into the other.

use vstd::prelude::*;

use crate::codes::is_gamepad_button_code;
use crate::codes::is_mouse_button_code;
use crate::codes::BTN_EAST;
use crate::codes::BTN_LEFT;
use crate::codes::BTN_NORTH;
use crate::codes::BTN_RIGHT;
use crate::codes::BTN_SELECT;
use crate::codes::BTN_SOUTH;
use crate::codes::BTN_START;
use crate::codes::BTN_THUMBL;
use crate::codes::BTN_THUMBR;
use crate::codes::BTN_TL;
use crate::codes::BTN_TL2;
use crate::codes::BTN_TR;
use crate::codes::BTN_TR2;
use crate::codes::BTN_WEST;

verus! {

/// The relative axes the engine understands. Every other relative axis is
/// captured but not forwarded.
#[derive(Clone, Copy, PartialEq, Eq, Structural, Debug)]
pub enum RelAxisKind {
    X,
    Y,
    Wheel,
    Other,
}

/// The absolute axes the engine understands: the two sticks of a game
/// controller. Every other absolute axis is captured but not forwarded.
#[derive(Clone, Copy, PartialEq, Eq, Structural, Debug)]
pub enum AbsAxisKind {
    X,
    Y,
    RX,
    RY,
    Other,
}

/// One raw event captured from a kernel input device, reduced to the
/// structure the engine translates: kind, code, and value.
#[derive(Clone, Copy, PartialEq, Eq, Structural, Debug)]
pub enum InputEvent {
    /// A digital key or button; `value` is 1 for press, 0 for release,
    /// and 2 for kernel autorepeat.
    Key { code: u16, value: i32 },
    /// Relative motion on one axis by `value`.
    Relative { axis: RelAxisKind, value: i32 },
    /// An absolute position report on one axis.
    Absolute { axis: AbsAxisKind, value: i32 },
    /// Any event kind the engine does not translate.
    Other,
}

/// A pointer button of the destination display.
#[derive(Clone, Copy, PartialEq, Eq, Structural, Debug)]
pub enum MouseButton {
    Left,
    Right,
    Middle,
    ScrollUp,
    ScrollDown,
}

/// A digital button of the virtual game controller.
#[derive(Clone, Copy, PartialEq, Eq, Structural, Debug)]
pub enum GamepadButton {
    A,
    B,
    X,
    Y,
    TL,
    TR,
    TL2,
    TR2,
    Select,
    Start,
    Mode,
    ThumbL,
    ThumbR,
}

/// An absolute stick axis of the virtual game controller.
#[derive(Clone, Copy, PartialEq, Eq, Structural, Debug)]
pub enum StickAxis {
    X,
    Y,
    RX,
    RY,
}

/// One synthetic-input primitive, ready to be performed against an output
/// sink.
#[derive(Clone, Copy, PartialEq, Eq, Structural, Debug)]
pub enum SyntheticAction {
    /// Press a pointer button on the display.
    ButtonPress { button: MouseButton },
    /// Release a pointer button on the display.
    ButtonRelease { button: MouseButton },
    /// Press a key on the display, by display key code.
    KeyPress { keycode: u8 },
    /// Release a key on the display, by display key code.
    KeyRelease { keycode: u8 },
    /// Move the pointer by a relative offset.
    RelativeMove { dx: i32, dy: i32 },
    /// Press or release a digital button of the virtual controller.
    ControllerButton { button: GamepadButton, pressed: bool },
    /// Update one absolute stick position of the virtual controller.
    StickPosition { axis: StickAxis, value: i32 },
}

/// The fixed mapping from the three mouse-button key codes to pointer
/// buttons.
pub open spec fn spec_mouse_button_of(code: u16) -> MouseButton {
    if code == BTN_LEFT {
        MouseButton::Left
    } else if code == BTN_RIGHT {
        MouseButton::Right
    } else {
        MouseButton::Middle
    }
}

/// Map a mouse-button key code to its pointer button.
pub fn mouse_button_of(code: u16) -> (b: MouseButton)
    requires
        is_mouse_button_code(code),
    ensures
        b == spec_mouse_button_of(code),
{
    if code == BTN_LEFT {
        MouseButton::Left
    } else if code == BTN_RIGHT {
        MouseButton::Right
    } else {
        MouseButton::Middle
    }
}

/// The display's numeric index for each pointer button: left 1, middle 2,
/// right 3, scroll up 4, scroll down 5.
pub open spec fn spec_display_button_index(b: MouseButton) -> u8 {
    match b {
        MouseButton::Left => 1,
        MouseButton::Middle => 2,
        MouseButton::Right => 3,
        MouseButton::ScrollUp => 4,
        MouseButton::ScrollDown => 5,
    }
}

/// The display's numeric index for a pointer button.
pub fn display_button_index(b: MouseButton) -> (r: u8)
    ensures
        r == spec_display_button_index(b),
{
    match b {
        MouseButton::Left => 1,
        MouseButton::Middle => 2,
        MouseButton::Right => 3,
        MouseButton::ScrollUp => 4,
        MouseButton::ScrollDown => 5,
    }
}

/// The fixed mapping from gamepad-button key codes to virtual-controller
/// buttons. The two codes inside the block that name no standard button
/// fall back to `Mode`.
pub open spec fn spec_gamepad_button_of(code: u16) -> GamepadButton {
    if code == BTN_SOUTH {
        GamepadButton::A
    } else if code == BTN_EAST {
        GamepadButton::B
    } else if code == BTN_NORTH {
        GamepadButton::X
    } else if code == BTN_WEST {
        GamepadButton::Y
    } else if code == BTN_TL {
        GamepadButton::TL
    } else if code == BTN_TR {
        GamepadButton::TR
    } else if code == BTN_TL2 {
        GamepadButton::TL2
    } else if code == BTN_TR2 {
        GamepadButton::TR2
    } else if code == BTN_THUMBL {
        GamepadButton::ThumbL
    } else if code == BTN_THUMBR {
        GamepadButton::ThumbR
    } else if code == BTN_SELECT {
        GamepadButton::Select
    } else if code == BTN_START {
        GamepadButton::Start
    } else {
        GamepadButton::Mode
    }
}

/// Map a gamepad-button key code to its virtual-controller button.
pub fn gamepad_button_of(code: u16) -> (b: GamepadButton)
    requires
        is_gamepad_button_code(code),
    ensures
        b == spec_gamepad_button_of(code),
{
    if code == BTN_SOUTH {
        GamepadButton::A
    } else if code == BTN_EAST {
        GamepadButton::B
    } else if code == BTN_NORTH {
        GamepadButton::X
    } else if code == BTN_WEST {
        GamepadButton::Y
    } else if code == BTN_TL {
        GamepadButton::TL
    } else if code == BTN_TR {
        GamepadButton::TR
    } else if code == BTN_TL2 {
        GamepadButton::TL2
    } else if code == BTN_TR2 {
        GamepadButton::TR2
    } else if code == BTN_THUMBL {
        GamepadButton::ThumbL
    } else if code == BTN_THUMBR {
        GamepadButton::ThumbR
    } else if code == BTN_SELECT {
        GamepadButton::Select
    } else if code == BTN_START {
        GamepadButton::Start
    } else {
        GamepadButton::Mode
    }
}

/// The fixed linear offset from a captured key code to the display's key
/// code, reduced to the display's one-byte code space.
pub open spec fn spec_display_keycode(code: u16) -> u8 {
    (((code % 256) + 8) % 256) as u8
}

/// Map a captured key code to the display's key code.
pub fn display_keycode(code: u16) -> (r: u8)
    ensures
        r == spec_display_keycode(code),
{
    let low: u16 = code % 256;
    let shifted: u16 = (low + 8) % 256;
    shifted as u8
}

/// The scroll button for a wheel delta: up for positive deltas, down for
/// negative ones.
pub open spec fn spec_wheel_button(value: i32) -> MouseButton {
    if value >= 1 {
        MouseButton::ScrollUp
    } else {
        MouseButton::ScrollDown
    }
}

/// The scroll button for a wheel delta.
pub fn wheel_button(value: i32) -> (b: MouseButton)
    ensures
        b == spec_wheel_button(value),
{
    if value >= 1 {
        MouseButton::ScrollUp
    } else {
        MouseButton::ScrollDown
    }
}

} // verus!
