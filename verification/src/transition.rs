//! What a button looks like in each of its four conditions, and the choice
//! among them.

use crate::host::ImageHandle;
use crate::interaction::InteractionState;
use bevy_color::Color;
use vstd::prelude::*;

verus! {

/// The tints of a [`ButtonTransition::ColorTint`], one for each condition of
/// the button. The tint multiplies the button's image, so the button needs an
/// image for the tint to show. A tint is taken as it is given: any four
/// colors will do.
pub struct ColorTint {
    pub normal_color: Color,
    pub hovered_color: Color,
    pub pressed_color: Color,
    pub disabled_color: Color,
}

/// The images of a [`ButtonTransition::ImageSwap`], one for each condition of
/// the button. There is no default: all four are given.
pub struct ImageSwap {
    pub normal_image: ImageHandle,
    pub hovered_image: ImageHandle,
    pub pressed_image: ImageHandle,
    pub disabled_image: ImageHandle,
}

/// How a button shows its condition: by tinting its image, or by swapping it.
pub enum ButtonTransition {
    ColorTint(ColorTint),
    ImageSwap(ImageSwap),
}

/// The look chosen for a button: a color for the tint of its image, or an
/// image to show. It is worked out afresh on every pass and keeps nothing
/// from the pass before.
pub enum ResolvedVisual {
    Color(Color),
    Image(ImageHandle),
}

impl ColorTint {
    /// The tint for an interaction state of a button that can be pressed.
    pub open spec fn color_for(self, interaction: InteractionState) -> Color {
        match interaction {
            InteractionState::Hovered => self.hovered_color,
            InteractionState::Pressed => self.pressed_color,
            InteractionState::Idle => self.normal_color,
        }
    }

    /// The tint for an interaction state of a button that can be pressed.
    pub fn interaction_color(&self, interaction: InteractionState) -> (color: Color)
        ensures
            color == self.color_for(interaction),
    {
        match interaction {
            InteractionState::Hovered => self.hovered_color,
            InteractionState::Pressed => self.pressed_color,
            InteractionState::Idle => self.normal_color,
        }
    }
}

impl ImageSwap {
    /// The image for an interaction state of a button that can be pressed.
    pub open spec fn image_for(self, interaction: InteractionState) -> ImageHandle {
        match interaction {
            InteractionState::Hovered => self.hovered_image,
            InteractionState::Pressed => self.pressed_image,
            InteractionState::Idle => self.normal_image,
        }
    }

    /// A handle to the image for an interaction state of a button that can be
    /// pressed.
    pub fn interaction_image(&self, interaction: InteractionState) -> (image: ImageHandle)
        ensures
            image == self.image_for(interaction),
    {
        match interaction {
            InteractionState::Hovered => self.hovered_image.clone(),
            InteractionState::Pressed => self.pressed_image.clone(),
            InteractionState::Idle => self.normal_image.clone(),
        }
    }
}

impl ButtonTransition {
    /// The look when nothing happens to the button.
    pub open spec fn normal(self) -> ResolvedVisual {
        self.interaction_visual(InteractionState::Idle)
    }

    /// The look while the pointer is over the button.
    pub open spec fn hovered(self) -> ResolvedVisual {
        self.interaction_visual(InteractionState::Hovered)
    }

    /// The look while the button is pressed.
    pub open spec fn pressed(self) -> ResolvedVisual {
        self.interaction_visual(InteractionState::Pressed)
    }

    /// The look of a button that cannot be pressed.
    pub open spec fn disabled(self) -> ResolvedVisual {
        match self {
            ButtonTransition::ColorTint(tint) => ResolvedVisual::Color(tint.disabled_color),
            ButtonTransition::ImageSwap(swap) => ResolvedVisual::Image(swap.disabled_image),
        }
    }

    /// The look for an interaction state, leaving aside whether the button
    /// can be pressed.
    pub open spec fn interaction_visual(self, interaction: InteractionState) -> ResolvedVisual {
        match self {
            ButtonTransition::ColorTint(tint) => ResolvedVisual::Color(tint.color_for(interaction)),
            ButtonTransition::ImageSwap(swap) => ResolvedVisual::Image(swap.image_for(interaction)),
        }
    }

    /// The look of the button: the disabled one if it cannot be pressed,
    /// whatever the pointer does, and else the one for its interaction state.
    pub open spec fn resolved(self, enabled: bool, interaction: InteractionState) -> ResolvedVisual {
        if enabled {
            self.interaction_visual(interaction)
        } else {
            self.disabled()
        }
    }
}

} // verus!
