//! Button transitions: how a button looks, decided from its interaction state
//! and from whether it can be interacted with.
//!
//! A [`ButtonTransition`] holds a look for each of four conditions of a
//! button: normal, hovered, pressed and disabled. [`resolve`] picks among them.
//! A button that cannot be pressed always has the disabled look; one that can
//! be pressed has the look of its [`InteractionState`].

pub mod button;
pub mod host;
pub mod interaction;
pub mod plugin;
pub mod resolver;
pub mod transition;

pub use button::RenderTarget;
pub use button::TransitionButton;
pub use host::ImageHandle;
pub use interaction::Interactable;
pub use interaction::InteractionState;
pub use plugin::update_button_interactions;
pub use plugin::update_interactables;
pub use plugin::ButtonTransitionsPlugin;
pub use resolver::resolve;
pub use resolver::resolve_disabled;
pub use resolver::resolve_interaction;
pub use resolver::resolve_overlay;
pub use transition::ButtonTransition;
pub use transition::ColorTint;
pub use transition::ImageSwap;
pub use transition::ResolvedVisual;
