//! What the host reports about a button, and whether the button accepts it.

use vstd::prelude::*;

verus! {

/// The pointer's relation to a button, as the host's input system last
/// reported it. The library only reads it.
#[derive(Clone, Copy, Debug, PartialEq, Eq, Structural)]
pub enum InteractionState {
    /// The pointer is down on the button.
    Pressed,
    /// The pointer is over the button.
    Hovered,
    /// Nothing is happening to the button.
    Idle,
}

impl Default for InteractionState {
    /// Nothing has happened to a button that the host has not reported on.
    fn default() -> (state: Self)
        ensures
            state == InteractionState::Idle,
    {
        InteractionState::Idle
    }
}

/// Whether a button can be pressed.
///
/// The flag belongs to the application: it sets it, and asks for it when it
/// handles a press. Resolving a button's look reads it and never writes it.
#[derive(Clone, Copy, Debug, PartialEq, Eq, Structural)]
pub struct Interactable(pub bool);

impl Default for Interactable {
    /// A button can be pressed until the application says otherwise.
    fn default() -> (flag: Self)
        ensures
            flag == Interactable(true),
    {
        Interactable(true)
    }
}

} // verus!
