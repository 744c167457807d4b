//! The engine's keyboard state, as far as this library reads it.
//!
//! Nothing in this file is proved: it declares two types of the engine and
//! states what one of its methods returns.

use bevy::input::keyboard::KeyCode;
use bevy::input::Input;
use std::hash::Hash;
use vstd::prelude::*;

verus! {

/// `bevy::input::Input`, the engine's record of the buttons of one device.
/// Its contents are hidden; `just_pressed_keys` names the part that is read.
#[verifier::external_type_specification]
#[verifier::external_body]
#[verifier::reject_recursive_types(T)]
pub struct ExInput<T: Eq + Hash>(Input<T>);

/// `bevy::input::keyboard::KeyCode`, the engine's enumeration of keys. Its
/// variants are visible, so that a contract can name a key.
#[verifier::external_type_specification]
pub struct ExKeyCode(KeyCode);

/// The keys that `input` records as having gone down since the engine last
/// cleared it, which it does once per frame.
pub uninterp spec fn just_pressed_keys(input: Input<KeyCode>) -> Set<KeyCode>;

/// `Input::just_pressed`, a lookup of `key` in the set of keys that went
/// down during the frame. The engine's source shows no other effect and no
/// panic.
#[verifier::external_body]
pub(crate) fn just_pressed(input: &Input<KeyCode>, key: KeyCode) -> (pressed: bool)
    ensures
        pressed == just_pressed_keys(*input).contains(key),
{
    input.just_pressed(key)
}

} // verus!
