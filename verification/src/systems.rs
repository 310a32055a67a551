//! The two passes that run once per frame: presses flip the state, and a
//! changed state sets the indicators.

use vstd::prelude::*;

use crate::entity::{
    target_visibility, Child, Indicator, Interaction, ToggleEntity, ToggleEntityView,
};
use crate::indicator::{ToggleFault, ToggleOn, Visibility};
use crate::toggle::Toggle;

verus! {

/// Applies one written interaction to a state: a press flips it, anything
/// else leaves it alone. Reports whether the state was written.
pub fn handle_interaction<T: Toggle>(interaction: Interaction, toggle: &mut T) -> (flipped: bool)
    ensures
        flipped == (interaction == Interaction::Pressed),
        flipped ==> old(toggle).toggles_to(final(toggle)) && final(toggle).toggled() == !old(
            toggle,
        ).toggled(),
        !flipped ==> *final(toggle) == *old(toggle),
{
    if interaction == Interaction::Pressed {
        toggle.toggle();
        true
    } else {
        false
    }
}

/// What the visibility pass writes to `child` under the state `toggle`, if
/// anything.
pub fn indicator_visibility<T: Toggle>(toggle: &T, child: &Child) -> (write: Option<Visibility>)
    ensures
        write == target_visibility(toggle.toggled(), toggle.fault(), *child),
{
    match child.indicator() {
        Some(Indicator::On) => Some(ToggleOn::visibility(toggle)),
        Some(Indicator::Fault) => Some(ToggleFault::visibility(toggle)),
        None => None,
    }
}

/// How the press pass relates an entity before it to the entity after it.
pub open spec fn handled<T: Toggle>(before: ToggleEntityView<T>, after: ToggleEntityView<T>) -> bool {
    &&& after.markers == before.markers
    &&& after.interaction == before.interaction
    &&& !after.interaction_changed
    &&& after.children == before.children
    &&& if before.interaction_changed && before.interaction == Interaction::Pressed {
        &&& before.toggle.toggles_to(&after.toggle)
        &&& after.toggle.toggled() == !before.toggle.toggled()
        &&& after.toggle_changed
    } else {
        &&& after.toggle == before.toggle
        &&& after.toggle_changed == before.toggle_changed
    }
}

fn handle_entity<T: Toggle>(entity: &mut ToggleEntity<T>)
    ensures
        handled(old(entity)@, final(entity)@),
{
    if entity.interaction_changed {
        if handle_interaction(entity.interaction, &mut entity.toggle) {
            entity.toggle_changed = true;
        }
        entity.interaction_changed = false;
    }
}

/// The press pass: every entity whose interaction was written since the
/// last run has its state flipped if the interaction is a press.
pub fn handle_toggle_button_interactions<T: Toggle>(entities: &mut Vec<ToggleEntity<T>>)
    ensures
        final(entities).len() == old(entities).len(),
        forall|i: int|
            0 <= i < old(entities).len() ==> handled(
                old(entities)[i]@,
                #[trigger] final(entities)[i]@,
            ),
{
    let mut i: usize = 0;
    while i < entities.len()
        invariant
            i <= entities.len(),
            entities.len() == old(entities).len(),
            forall|k: int| 0 <= k < i ==> handled(old(entities)[k]@, #[trigger] entities[k]@),
            forall|k: int| i <= k < entities.len() ==> entities[k] == old(entities)[k],
        decreases entities.len() - i,
    {
        handle_entity(&mut entities[i]);
        i += 1;
    }
}

/// `child` after the visibility pass has visited it under a state with the
/// flags `toggled` and `fault`.
pub open spec fn synced_child(child: Child, toggled: bool, fault: bool) -> Child {
    match target_visibility(toggled, fault, child) {
        Some(visibility) => Child { visibility, visibility_changed: true, ..child },
        None => child,
    }
}

/// Whether the visibility pass visits `entity`: its state was written since
/// the last run, and it is not itself one of the indicators.
pub open spec fn pending<T: Toggle>(entity: ToggleEntityView<T>) -> bool {
    entity.toggle_changed && entity.markers.is_plain()
}

/// `entity` after the visibility pass.
pub open spec fn synced<T: Toggle>(entity: ToggleEntityView<T>) -> ToggleEntityView<T> {
    if pending(entity) {
        ToggleEntityView {
            toggle_changed: false,
            children: entity.children.map_values(
                |child: Child| synced_child(child, entity.toggle.toggled(), entity.toggle.fault()),
            ),
            ..entity
        }
    } else {
        entity
    }
}

fn sync_entity<T: Toggle>(entity: &mut ToggleEntity<T>)
    ensures
        final(entity)@ == synced(old(entity)@),
{
    if entity.toggle_changed && entity.markers.plain() {
        let mut j: usize = 0;
        while j < entity.children.len()
            invariant
                j <= entity.children.len(),
                entity.children.len() == old(entity).children.len(),
                entity.markers == old(entity).markers,
                entity.toggle == old(entity).toggle,
                entity.toggle_changed == old(entity).toggle_changed,
                entity.interaction == old(entity).interaction,
                entity.interaction_changed == old(entity).interaction_changed,
                forall|k: int|
                    0 <= k < j ==> #[trigger] entity.children[k] == synced_child(
                        old(entity).children[k],
                        entity.toggle.toggled(),
                        entity.toggle.fault(),
                    ),
                forall|k: int|
                    j <= k < entity.children.len() ==> #[trigger] entity.children[k] == old(
                        entity,
                    ).children[k],
            decreases entity.children.len() - j,
        {
            match indicator_visibility(&entity.toggle, &entity.children[j]) {
                Some(visibility) => {
                    let child = &mut entity.children[j];
                    child.visibility = visibility;
                    child.visibility_changed = true;
                },
                None => {},
            }
            j += 1;
        }
        entity.toggle_changed = false;
        assert(entity@.children =~= synced(old(entity)@).children);
    }
}

/// The visibility pass: every toggle entity whose state was written since
/// the last run has each of its indicator children set as the state has it.
pub fn sync_toggle_ui<T: Toggle>(entities: &mut Vec<ToggleEntity<T>>)
    ensures
        final(entities).len() == old(entities).len(),
        forall|i: int|
            0 <= i < old(entities).len() ==> #[trigger] final(entities)[i]@ == synced(
                old(entities)[i]@,
            ),
{
    let mut i: usize = 0;
    while i < entities.len()
        invariant
            i <= entities.len(),
            entities.len() == old(entities).len(),
            forall|k: int| 0 <= k < i ==> #[trigger] entities[k]@ == synced(old(entities)[k]@),
            forall|k: int| i <= k < entities.len() ==> entities[k] == old(entities)[k],
        decreases entities.len() - i,
    {
        sync_entity(&mut entities[i]);
        i += 1;
    }
}

} // verus!
