//! Resolving a button's look. The functions here are pure: they read a
//! transition, the flag and the interaction state, and return the look.
//! Writing it onto the button is left to the caller.

use crate::interaction::Interactable;
use crate::interaction::InteractionState;
use crate::transition::ButtonTransition;
use crate::transition::ResolvedVisual;
use vstd::prelude::*;

verus! {

/// What the flag lays over the look of the interaction state.
pub open spec fn overlay_of(style: ButtonTransition, enabled: bool) -> Option<ResolvedVisual> {
    if enabled {
        None
    } else {
        Some(style.disabled())
    }
}

/// A look with an overlay laid over it: the overlay where there is one.
pub open spec fn overlaid(under: ResolvedVisual, overlay: Option<ResolvedVisual>) -> ResolvedVisual {
    match overlay {
        Some(over) => over,
        None => under,
    }
}

/// The look that a transition gives for an interaction state, leaving aside
/// whether the button can be pressed.
pub fn resolve_interaction(style: &ButtonTransition, interaction: InteractionState) -> (visual:
    ResolvedVisual)
    ensures
        visual == style.interaction_visual(interaction),
        interaction == InteractionState::Idle ==> visual == style.normal(),
        interaction == InteractionState::Hovered ==> visual == style.hovered(),
        interaction == InteractionState::Pressed ==> visual == style.pressed(),
{
    match style {
        ButtonTransition::ColorTint(tint) => ResolvedVisual::Color(
            tint.interaction_color(interaction),
        ),
        ButtonTransition::ImageSwap(swap) => ResolvedVisual::Image(
            swap.interaction_image(interaction),
        ),
    }
}

/// The look that a transition gives to a button that cannot be pressed.
pub fn resolve_disabled(style: &ButtonTransition) -> (visual: ResolvedVisual)
    ensures
        visual == style.disabled(),
{
    match style {
        ButtonTransition::ColorTint(tint) => ResolvedVisual::Color(tint.disabled_color),
        ButtonTransition::ImageSwap(swap) => ResolvedVisual::Image(swap.disabled_image.clone()),
    }
}

/// What the flag lays over the look of the interaction state: the disabled
/// look for a button that cannot be pressed, and nothing for one that can.
pub fn resolve_overlay(style: &ButtonTransition, interactable: &Interactable) -> (overlay: Option<
    ResolvedVisual,
>)
    ensures
        overlay == overlay_of(*style, interactable.0),
        interactable.0 <==> overlay is None,
        !interactable.0 ==> overlay == Some(style.disabled()),
{
    if interactable.0 {
        None
    } else {
        Some(resolve_disabled(style))
    }
}

/// The look of a button.
///
/// A button that cannot be pressed has its disabled look, whether the pointer
/// hovers over it, presses it or is elsewhere. A button that can be pressed has
/// the look of its interaction state. Every state has a look: there is no
/// input on which this fails.
pub fn resolve(style: &ButtonTransition, enabled: bool, interaction: InteractionState) -> (visual:
    ResolvedVisual)
    ensures
        visual == style.resolved(enabled, interaction),
        !enabled ==> visual == style.disabled(),
        enabled && interaction == InteractionState::Idle ==> visual == style.normal(),
        enabled && interaction == InteractionState::Hovered ==> visual == style.hovered(),
        enabled && interaction == InteractionState::Pressed ==> visual == style.pressed(),
{
    if enabled {
        resolve_interaction(style, interaction)
    } else {
        resolve_disabled(style)
    }
}

/// Resolving in two steps, first the look of the interaction state and then
/// the flag's overlay, gives the look that resolving at once gives.
pub proof fn lemma_overlay_resolves(
    style: ButtonTransition,
    enabled: bool,
    interaction: InteractionState,
)
    ensures
        overlaid(style.interaction_visual(interaction), overlay_of(style, enabled))
            == style.resolved(enabled, interaction),
{
}

/// Resolving is a function of its three inputs: two looks resolved from the
/// same transition, flag and interaction state are the same look.
pub proof fn lemma_resolve_deterministic(
    style: ButtonTransition,
    enabled: bool,
    interaction: InteractionState,
    first: ResolvedVisual,
    second: ResolvedVisual,
)
    requires
        first == style.resolved(enabled, interaction),
        second == style.resolved(enabled, interaction),
    ensures
        first == second,
{
}

/// A disabled button looks the same in every interaction state.
pub proof fn lemma_disabled_ignores_interaction(
    style: ButtonTransition,
    first: InteractionState,
    second: InteractionState,
)
    ensures
        style.resolved(false, first) == style.disabled(),
        style.resolved(false, first) == style.resolved(false, second),
{
}

/// Disabling a button while its interaction state stays as it is gives it
/// the disabled look. Its look changes by that, unless the transition has the
/// same value for the disabled look and for the look of that state.
pub proof fn lemma_disabling_takes_precedence(style: ButtonTransition, interaction: InteractionState)
    ensures
        style.resolved(false, interaction) == style.disabled(),
        style.resolved(true, interaction) == style.interaction_visual(interaction),
        style.resolved(true, interaction) != style.resolved(false, interaction) <==> style.disabled()
            != style.interaction_visual(interaction),
{
}

} // verus!
