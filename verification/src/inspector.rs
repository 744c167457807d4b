//! Visibility of the debug inspector overlay.
//!
//! The overlay is shown or hidden. The grave key flips it: once per frame in
//! which the key went down, however long the key is then held.

use bevy::input::keyboard::KeyCode;
use bevy::input::Input;
use vstd::prelude::*;

use crate::keyboard::{just_pressed, just_pressed_keys};

verus! {

/// The overlay's visibility after a frame, given its visibility before the
/// frame and whether the toggle key went down during it.
pub open spec fn visibility_after(enabled: bool, toggle_pressed: bool) -> bool {
    enabled != toggle_pressed
}

/// Flips the visibility on a frame in which the toggle key went down, and
/// keeps it on every other frame.
pub fn next_visibility(enabled: bool, toggle_pressed: bool) -> (next: bool)
    ensures
        next == visibility_after(enabled, toggle_pressed),
{
    if toggle_pressed {
        !enabled
    } else {
        enabled
    }
}

/// The overlay's visibility after the frame whose keyboard state is `input`:
/// flipped when the grave key is among the keys that went down, unchanged
/// otherwise. No other key matters.
pub fn toggle_inspector(input: &Input<KeyCode>, enabled: bool) -> (next: bool)
    ensures
        next == visibility_after(enabled, just_pressed_keys(*input).contains(KeyCode::Grave)),
{
    next_visibility(enabled, just_pressed(input, KeyCode::Grave))
}

} // verus!
