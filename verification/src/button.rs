//! A button as one value: its transition, its flag, its interaction state and
//! the two properties of its image that a transition writes.

use crate::host::ImageHandle;
use crate::interaction::Interactable;
use crate::interaction::InteractionState;
use crate::resolver::overlay_of;
use crate::resolver::resolve;
use crate::resolver::resolve_interaction;
use crate::resolver::resolve_overlay;
use crate::transition::ButtonTransition;
use crate::transition::ResolvedVisual;
use bevy_color::Color;
use vstd::prelude::*;

verus! {

/// What a transition writes to: the tint of the button's image, and the
/// image itself.
pub struct RenderTarget {
    pub color: Color,
    pub image: ImageHandle,
}

impl RenderTarget {
    /// The target with a look written onto it. A color replaces the tint and
    /// leaves the image; an image replaces the image and leaves the tint.
    pub open spec fn with(self, visual: ResolvedVisual) -> RenderTarget {
        match visual {
            ResolvedVisual::Color(color) => RenderTarget { color, image: self.image },
            ResolvedVisual::Image(image) => RenderTarget { color: self.color, image },
        }
    }

    /// The target with an overlay written onto it, if there is one.
    pub open spec fn with_overlay(self, overlay: Option<ResolvedVisual>) -> RenderTarget {
        match overlay {
            Some(visual) => self.with(visual),
            None => self,
        }
    }

    /// Writes a look onto the target.
    pub fn apply(&mut self, visual: ResolvedVisual)
        ensures
            *final(self) == old(self).with(visual),
    {
        match visual {
            ResolvedVisual::Color(color) => {
                self.color = color;
            },
            ResolvedVisual::Image(image) => {
                self.image = image;
            },
        }
    }
}

/// A button with all that resolving its look needs. Built in one step, so
/// that no pass finds a transition without its flag or its target.
pub struct TransitionButton {
    pub transition: ButtonTransition,
    pub interactable: Interactable,
    pub interaction: InteractionState,
    pub target: RenderTarget,
}

impl TransitionButton {
    /// The button after the look of its interaction state was written onto
    /// its target.
    pub open spec fn after_interaction(self) -> TransitionButton {
        TransitionButton {
            target: self.target.with(self.transition.interaction_visual(self.interaction)),
            ..self
        }
    }

    /// The button after the overlay of its flag was written onto its target.
    pub open spec fn after_interactable(self) -> TransitionButton {
        TransitionButton {
            target: self.target.with_overlay(overlay_of(self.transition, self.interactable.0)),
            ..self
        }
    }

    /// The button after its look was resolved and written onto its target.
    pub open spec fn updated(self) -> TransitionButton {
        TransitionButton {
            target: self.target.with(
                self.transition.resolved(self.interactable.0, self.interaction),
            ),
            ..self
        }
    }

    /// A button that can be pressed and to which nothing has happened yet.
    /// The target is as given: nothing is written onto it before the first
    /// pass.
    pub fn new(transition: ButtonTransition, target: RenderTarget) -> (button: Self)
        ensures
            button == (TransitionButton {
                transition,
                interactable: Interactable(true),
                interaction: InteractionState::Idle,
                target,
            }),
    {
        TransitionButton {
            transition,
            interactable: Interactable(true),
            interaction: InteractionState::Idle,
            target,
        }
    }

    /// Writes the look of the interaction state onto the target, whether or
    /// not the button can be pressed.
    pub fn show_interaction(&mut self)
        ensures
            *final(self) == old(self).after_interaction(),
    {
        let visual = resolve_interaction(&self.transition, self.interaction);
        self.target.apply(visual);
    }

    /// Writes the disabled look onto the target if the button cannot be
    /// pressed, and nothing if it can.
    pub fn show_interactable(&mut self)
        ensures
            *final(self) == old(self).after_interactable(),
    {
        match resolve_overlay(&self.transition, &self.interactable) {
            Some(visual) => {
                self.target.apply(visual);
            },
            None => {},
        }
    }

    /// Resolves the button's look and writes it onto the target. Nothing but
    /// the target changes.
    pub fn update(&mut self)
        ensures
            *final(self) == old(self).updated(),
            final(self).transition == old(self).transition,
            final(self).interactable == old(self).interactable,
            final(self).interaction == old(self).interaction,
    {
        let visual = resolve(&self.transition, self.interactable.0, self.interaction);
        self.target.apply(visual);
    }
}

/// Writing the look of the interaction state and then the overlay of the
/// flag leaves the button as resolving its look at once does.
pub proof fn lemma_two_steps_update(button: TransitionButton)
    ensures
        button.after_interaction().after_interactable() == button.updated(),
{
}

/// Updating a button a second time, with nothing changed in between, changes
/// nothing: a pass may be skipped for a button whose flag and interaction
/// state are as they were.
pub proof fn lemma_update_idempotent(button: TransitionButton)
    ensures
        button.updated().updated() == button.updated(),
{
}

} // verus!
