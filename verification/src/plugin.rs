//! The pass over all buttons that the host runs once per update, after it has
//! settled every button's interaction state and before it draws.

use crate::button::lemma_two_steps_update;
use crate::button::TransitionButton;
use vstd::prelude::*;

verus! {

/// The buttons after the look of its interaction state was written onto each.
pub open spec fn all_after_interaction(buttons: Seq<TransitionButton>) -> Seq<TransitionButton> {
    Seq::new(buttons.len(), |i: int| buttons[i].after_interaction())
}

/// The buttons after the overlay of its flag was written onto each.
pub open spec fn all_after_interactable(buttons: Seq<TransitionButton>) -> Seq<TransitionButton> {
    Seq::new(buttons.len(), |i: int| buttons[i].after_interactable())
}

/// The buttons after the look of each was resolved and written onto it.
pub open spec fn all_updated(buttons: Seq<TransitionButton>) -> Seq<TransitionButton> {
    Seq::new(buttons.len(), |i: int| buttons[i].updated())
}

/// Writes onto every button the look of its interaction state, whether or
/// not the button can be pressed.
pub fn update_button_interactions(buttons: &mut Vec<TransitionButton>)
    ensures
        final(buttons)@ == all_after_interaction(old(buttons)@),
{
    let count: usize = buttons.len();
    let mut i: usize = 0;
    while i < count
        invariant
            i <= count,
            buttons@.len() == count,
            old(buttons)@.len() == count,
            forall|j: int| 0 <= j < i ==> buttons@[j] == old(buttons)@[j].after_interaction(),
            forall|j: int| i <= j < count ==> buttons@[j] == old(buttons)@[j],
        decreases count - i,
    {
        buttons[i].show_interaction();
        i += 1;
    }
    assert(buttons@ =~= all_after_interaction(old(buttons)@));
}

/// Writes the disabled look onto every button that cannot be pressed, and
/// leaves the others as they are.
pub fn update_interactables(buttons: &mut Vec<TransitionButton>)
    ensures
        final(buttons)@ == all_after_interactable(old(buttons)@),
{
    let count: usize = buttons.len();
    let mut i: usize = 0;
    while i < count
        invariant
            i <= count,
            buttons@.len() == count,
            old(buttons)@.len() == count,
            forall|j: int| 0 <= j < i ==> buttons@[j] == old(buttons)@[j].after_interactable(),
            forall|j: int| i <= j < count ==> buttons@[j] == old(buttons)@[j],
        decreases count - i,
    {
        buttons[i].show_interactable();
        i += 1;
    }
    assert(buttons@ =~= all_after_interactable(old(buttons)@));
}

/// Sets up button transitions: its pass gives every button the look that its
/// transition, its flag and its interaction state call for.
pub struct ButtonTransitionsPlugin;

impl ButtonTransitionsPlugin {
    /// One pass over the buttons: first the looks of the interaction states,
    /// then the overlays of the flags. After it each button is as resolving
    /// its look alone leaves it; no button's look depends on another button.
    pub fn update(&self, buttons: &mut Vec<TransitionButton>)
        ensures
            final(buttons)@ == all_updated(old(buttons)@),
    {
        update_button_interactions(buttons);
        update_interactables(buttons);
        proof {
            lemma_pass_in_two_steps(old(buttons)@);
        }
    }
}

/// The two steps of a pass, each over all buttons, leave every button as
/// resolving its look at once does.
pub proof fn lemma_pass_in_two_steps(buttons: Seq<TransitionButton>)
    ensures
        all_after_interactable(all_after_interaction(buttons)) == all_updated(buttons),
{
    assert forall|i: int| 0 <= i < buttons.len() implies #[trigger] buttons[i].after_interaction().after_interactable()
        == buttons[i].updated() by {
        lemma_two_steps_update(buttons[i]);
    }
    assert(all_after_interactable(all_after_interaction(buttons)) =~= all_updated(buttons));
}

/// A second pass with nothing changed in between changes nothing.
pub proof fn lemma_pass_idempotent(buttons: Seq<TransitionButton>)
    ensures
        all_updated(all_updated(buttons)) == all_updated(buttons),
{
    assert(all_updated(all_updated(buttons)) =~= all_updated(buttons));
}

} // verus!
