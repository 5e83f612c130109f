//! Kernel input key codes that the engine treats specially: the mouse
//! button block and the gamepad button block, plus the named gamepad
//! buttons inside that block.

use vstd::prelude::*;

verus! {

// Mouse buttons
pub const BTN_LEFT: u16 = 272;
pub const BTN_RIGHT: u16 = 273;
pub const BTN_MIDDLE: u16 = 274;

// Gamepad buttons
pub const BTN_SOUTH: u16 = 304; // A
pub const BTN_EAST: u16 = 305; // B
pub const BTN_NORTH: u16 = 307; // X
pub const BTN_WEST: u16 = 308; // Y

pub const BTN_TL: u16 = 310; // LB
pub const BTN_TR: u16 = 311; // RB

pub const BTN_TL2: u16 = 312; // LT
pub const BTN_TR2: u16 = 313; // RT

pub const BTN_SELECT: u16 = 314; // Select
pub const BTN_START: u16 = 315; // Start
pub const BTN_MODE: u16 = 316; // Guide

pub const BTN_THUMBL: u16 = 317; // LS
pub const BTN_THUMBR: u16 = 318; // RS

/// Key codes that a pointing device reports for its buttons.
pub open spec fn is_mouse_button_code(code: u16) -> bool {
    BTN_LEFT <= code <= BTN_MIDDLE
}

/// Key codes that a game controller reports for its digital buttons.
pub open spec fn is_gamepad_button_code(code: u16) -> bool {
    BTN_SOUTH <= code <= BTN_THUMBR
}

/// Exec mirror of [`is_mouse_button_code`].
pub fn mouse_button_code(code: u16) -> (r: bool)
    ensures
        r == is_mouse_button_code(code),
{
    BTN_LEFT <= code && code <= BTN_MIDDLE
}

/// Exec mirror of [`is_gamepad_button_code`].
pub fn gamepad_button_code(code: u16) -> (r: bool)
    ensures
        r == is_gamepad_button_code(code),
{
    BTN_SOUTH <= code && code <= BTN_THUMBR
}

} // verus!
