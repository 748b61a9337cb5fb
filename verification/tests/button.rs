use bevy_asset::Handle;
use bevy_button_transitions::update_button_interactions;
use bevy_button_transitions::update_interactables;
use bevy_button_transitions::ButtonTransition;
use bevy_button_transitions::ButtonTransitionsPlugin;
use bevy_button_transitions::ColorTint;
use bevy_button_transitions::ImageHandle;
use bevy_button_transitions::ImageSwap;
use bevy_button_transitions::Interactable;
use bevy_button_transitions::InteractionState;
use bevy_button_transitions::RenderTarget;
use bevy_button_transitions::ResolvedVisual;
use bevy_button_transitions::TransitionButton;
use bevy_color::palettes::css::WHITE;
use bevy_color::Color;
use bevy_image::Image;

fn picture(n: u128) -> Handle<Image> {
    Handle::weak_from_u128(n)
}

fn blank() -> RenderTarget {
    RenderTarget { color: Color::BLACK, image: ImageHandle(picture(99)) }
}

fn swap_button() -> TransitionButton {
    TransitionButton::new(
        ButtonTransition::ImageSwap(ImageSwap {
            normal_image: ImageHandle(picture(1)),
            hovered_image: ImageHandle(picture(2)),
            pressed_image: ImageHandle(picture(3)),
            disabled_image: ImageHandle(picture(4)),
        }),
        blank(),
    )
}

fn tint_button() -> TransitionButton {
    TransitionButton::new(
        ButtonTransition::ColorTint(ColorTint {
            normal_color: WHITE.into(),
            hovered_color: Color::srgba(0.9607843, 0.9607843, 0.9607843, 1.0),
            pressed_color: Color::srgba(0.7843137, 0.7843137, 0.7843137, 1.0),
            disabled_color: Color::srgba(0.7843137, 0.7843137, 0.7843137, 0.5019608),
        }),
        blank(),
    )
}

#[test]
fn new_button_is_enabled_and_idle_with_its_target_untouched() {
    let button = swap_button();
    assert_eq!(button.interactable, Interactable(true));
    assert_eq!(button.interaction, InteractionState::Idle);
    assert_eq!(button.target.color, Color::BLACK);
    assert_eq!(button.target.image.0, picture(99));
    match button.transition {
        ButtonTransition::ImageSwap(images) => assert_eq!(images.pressed_image.0, picture(3)),
        ButtonTransition::ColorTint(_) => panic!("the swap became a tint"),
    }
}

#[test]
fn applying_a_color_leaves_the_image() {
    let mut target = blank();
    target.apply(ResolvedVisual::Color(Color::srgb_u8(7, 8, 9)));
    assert_eq!(target.color, Color::srgb_u8(7, 8, 9));
    assert_eq!(target.image.0, picture(99));
}

#[test]
fn applying_an_image_leaves_the_color() {
    let mut target = blank();
    target.apply(ResolvedVisual::Image(ImageHandle(picture(5))));
    assert_eq!(target.color, Color::BLACK);
    assert_eq!(target.image.0, picture(5));
}

#[test]
fn swap_button_follows_interactions_and_the_flag() {
    let mut button = swap_button();
    let mut shown = Vec::new();
    for state in [
        InteractionState::Idle,
        InteractionState::Hovered,
        InteractionState::Pressed,
        InteractionState::Hovered,
        InteractionState::Idle,
    ] {
        button.interaction = state;
        button.update();
        shown.push(button.target.image.0.clone());
        assert_eq!(button.target.color, Color::BLACK);
    }
    assert_eq!(shown, vec![picture(1), picture(2), picture(3), picture(2), picture(1)]);

    button.interactable = Interactable(false);
    for state in [InteractionState::Pressed, InteractionState::Hovered, InteractionState::Idle] {
        button.interaction = state;
        button.update();
        assert_eq!(button.target.image.0, picture(4));
    }

    button.interactable = Interactable(true);
    button.update();
    assert_eq!(button.target.image.0, picture(1));
}

#[test]
fn tint_button_follows_interactions_and_the_flag() {
    let mut button = tint_button();
    button.update();
    assert_eq!(button.target.color, Color::Srgba(WHITE));
    assert_eq!(button.target.image.0, picture(99));
    button.interaction = InteractionState::Hovered;
    button.update();
    assert_eq!(button.target.color, Color::srgba(0.9607843, 0.9607843, 0.9607843, 1.0));
    button.interaction = InteractionState::Pressed;
    button.update();
    assert_eq!(button.target.color, Color::srgba(0.7843137, 0.7843137, 0.7843137, 1.0));
    button.interactable = Interactable(false);
    button.update();
    assert_eq!(button.target.color, Color::srgba(0.7843137, 0.7843137, 0.7843137, 0.5019608));
    assert_eq!(button.target.image.0, picture(99));
}

#[test]
fn update_changes_only_the_target() {
    let mut button = swap_button();
    button.interaction = InteractionState::Pressed;
    button.interactable = Interactable(false);
    button.update();
    assert_eq!(button.interaction, InteractionState::Pressed);
    assert_eq!(button.interactable, Interactable(false));
    match button.transition {
        ButtonTransition::ImageSwap(images) => {
            assert_eq!(images.normal_image.0, picture(1));
            assert_eq!(images.hovered_image.0, picture(2));
            assert_eq!(images.pressed_image.0, picture(3));
            assert_eq!(images.disabled_image.0, picture(4));
        }
        ButtonTransition::ColorTint(_) => panic!("the swap became a tint"),
    }
}

#[test]
fn second_update_changes_nothing() {
    let mut button = swap_button();
    button.interaction = InteractionState::Hovered;
    button.update();
    let image = button.target.image.0.clone();
    let color = button.target.color;
    button.update();
    assert_eq!(button.target.image.0, image);
    assert_eq!(button.target.color, color);
    assert_eq!(image, picture(2));
}

#[test]
fn interaction_step_ignores_the_flag() {
    let mut button = swap_button();
    button.interactable = Interactable(false);
    button.interaction = InteractionState::Pressed;
    button.show_interaction();
    assert_eq!(button.target.image.0, picture(3));
}

#[test]
fn interactable_step_writes_only_for_a_disabled_button() {
    let mut button = swap_button();
    button.interaction = InteractionState::Pressed;
    button.show_interactable();
    assert_eq!(button.target.image.0, picture(99));
    button.interactable = Interactable(false);
    button.show_interactable();
    assert_eq!(button.target.image.0, picture(4));
}

#[test]
fn two_steps_leave_a_button_as_one_update_does() {
    for enabled in [true, false] {
        for state in [InteractionState::Idle, InteractionState::Hovered, InteractionState::Pressed]
        {
            let mut stepped = swap_button();
            stepped.interactable = Interactable(enabled);
            stepped.interaction = state;
            stepped.show_interaction();
            stepped.show_interactable();
            let mut updated = swap_button();
            updated.interactable = Interactable(enabled);
            updated.interaction = state;
            updated.update();
            assert_eq!(stepped.target.image.0, updated.target.image.0);
            assert_eq!(stepped.target.color, updated.target.color);
        }
    }
}

fn scene() -> Vec<TransitionButton> {
    let mut hovered_swap = swap_button();
    hovered_swap.interaction = InteractionState::Hovered;
    let mut disabled_swap = swap_button();
    disabled_swap.interaction = InteractionState::Pressed;
    disabled_swap.interactable = Interactable(false);
    let mut pressed_tint = tint_button();
    pressed_tint.interaction = InteractionState::Pressed;
    let mut disabled_tint = tint_button();
    disabled_tint.interactable = Interactable(false);
    vec![hovered_swap, disabled_swap, pressed_tint, disabled_tint]
}

#[test]
fn pass_resolves_every_button_by_itself() {
    let mut buttons = scene();
    ButtonTransitionsPlugin.update(&mut buttons);
    assert_eq!(buttons.len(), 4);
    assert_eq!(buttons[0].target.image.0, picture(2));
    assert_eq!(buttons[0].target.color, Color::BLACK);
    assert_eq!(buttons[1].target.image.0, picture(4));
    assert_eq!(buttons[1].target.color, Color::BLACK);
    assert_eq!(buttons[2].target.color, Color::srgba(0.7843137, 0.7843137, 0.7843137, 1.0));
    assert_eq!(buttons[2].target.image.0, picture(99));
    assert_eq!(buttons[3].target.color, Color::srgba(0.7843137, 0.7843137, 0.7843137, 0.5019608));
    assert_eq!(buttons[3].target.image.0, picture(99));
}

#[test]
fn pass_over_no_buttons_does_nothing() {
    let mut buttons: Vec<TransitionButton> = Vec::new();
    ButtonTransitionsPlugin.update(&mut buttons);
    assert!(buttons.is_empty());
}

#[test]
fn interaction_pass_writes_every_button() {
    let mut buttons = scene();
    update_button_interactions(&mut buttons);
    assert_eq!(buttons[0].target.image.0, picture(2));
    assert_eq!(buttons[1].target.image.0, picture(3));
    assert_eq!(buttons[2].target.color, Color::srgba(0.7843137, 0.7843137, 0.7843137, 1.0));
    assert_eq!(buttons[3].target.color, Color::Srgba(WHITE));
}

#[test]
fn interactable_pass_writes_the_disabled_buttons_only() {
    let mut buttons = scene();
    update_interactables(&mut buttons);
    assert_eq!(buttons[0].target.image.0, picture(99));
    assert_eq!(buttons[1].target.image.0, picture(4));
    assert_eq!(buttons[2].target.color, Color::BLACK);
    assert_eq!(buttons[3].target.color, Color::srgba(0.7843137, 0.7843137, 0.7843137, 0.5019608));
}

#[test]
fn second_pass_changes_nothing() {
    let mut buttons = scene();
    ButtonTransitionsPlugin.update(&mut buttons);
    let images: Vec<Handle<Image>> =
        buttons.iter().map(|button| button.target.image.0.clone()).collect();
    let colors: Vec<Color> = buttons.iter().map(|button| button.target.color).collect();
    ButtonTransitionsPlugin.update(&mut buttons);
    for (i, button) in buttons.iter().enumerate() {
        assert_eq!(button.target.image.0, images[i]);
        assert_eq!(button.target.color, colors[i]);
    }
}
