//! Device classification from capability bits.
//!
//! A device is classified once, by testing three disjoint signature
//! capabilities: a canonical gamepad face button, a canonical mouse
//! button, and a canonical keyboard key. Exactly one match gives that
//! type; zero matches (a pure sensor) or two or more matches (a combo
//! device) give `Unknown`, which is terminal: such a device is observed
//! but never forwarded.

use vstd::prelude::*;

use crate::types::DeviceType;

verus! {

/// How many of the three signature capabilities are present.
pub open spec fn signature_count(gamepad: bool, mouse: bool, keyboard: bool) -> nat {
    (if gamepad {
        1nat
    } else {
        0nat
    }) + (if mouse {
        1nat
    } else {
        0nat
    }) + (if keyboard {
        1nat
    } else {
        0nat
    })
}

/// The classification assigned to a capability set.
pub open spec fn spec_classify(gamepad: bool, mouse: bool, keyboard: bool) -> DeviceType {
    if signature_count(gamepad, mouse, keyboard) != 1 {
        DeviceType::Unknown
    } else if gamepad {
        DeviceType::Gamepad
    } else if mouse {
        DeviceType::Mouse
    } else {
        DeviceType::Keyboard
    }
}

/// Classify a device from its signature capabilities: presence of a
/// canonical gamepad button, a canonical mouse button, and a canonical
/// keyboard key.
pub fn classify(gamepad: bool, mouse: bool, keyboard: bool) -> (t: DeviceType)
    ensures
        t == spec_classify(gamepad, mouse, keyboard),
        t is Unknown <==> signature_count(gamepad, mouse, keyboard) != 1,
{
    let count: u8 = (if gamepad {
        1u8
    } else {
        0u8
    }) + (if mouse {
        1u8
    } else {
        0u8
    }) + (if keyboard {
        1u8
    } else {
        0u8
    });
    if count != 1 {
        DeviceType::Unknown
    } else if gamepad {
        DeviceType::Gamepad
    } else if mouse {
        DeviceType::Mouse
    } else {
        DeviceType::Keyboard
    }
}

/// Whether a device is worth listing at all: it must support at least one
/// of the absolute-axis, force-feedback, key, or relative-axis event
/// kinds.
pub fn is_input_candidate(has_abs: bool, has_ff: bool, has_key: bool, has_rel: bool) -> (r: bool)
    ensures
        r == (has_abs || has_ff || has_key || has_rel),
{
    has_abs || has_ff || has_key || has_rel
}

/// A device matching two or more signatures is never assigned a usable
/// type, whatever the combination.
pub proof fn lemma_ambiguous_capabilities_unclassified(gamepad: bool, mouse: bool, keyboard: bool)
    requires
        signature_count(gamepad, mouse, keyboard) >= 2,
    ensures
        spec_classify(gamepad, mouse, keyboard) is Unknown,
{
}

} // verus!
