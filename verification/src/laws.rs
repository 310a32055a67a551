//! What holds of the passes taken together.

use vstd::prelude::*;

use crate::entity::{target_visibility, Interaction, ToggleEntityView};
use crate::indicator::Visibility;
use crate::plugin::updated;
use crate::spawn::spawned;
use crate::systems::{handled, pending, synced, synced_child};
use crate::toggle::Toggle;

verus! {

/// The number of presses among `interactions`.
pub open spec fn presses(interactions: Seq<Interaction>) -> nat
    decreases interactions.len(),
{
    if interactions.len() == 0 {
        0
    } else if interactions.last() == Interaction::Pressed {
        presses(interactions.drop_last()) + 1
    } else {
        presses(interactions.drop_last())
    }
}

/// Whether `frames` is a run of the press pass over one entity: before each
/// run the host records the next of `interactions` on what the run before
/// left.
pub open spec fn press_run<T: Toggle>(
    frames: Seq<ToggleEntityView<T>>,
    interactions: Seq<Interaction>,
) -> bool {
    &&& frames.len() == interactions.len() + 1
    &&& forall|k: int|
        0 <= k < interactions.len() ==> handled(
            (#[trigger] frames[k]).with_interaction(interactions[k]),
            frames[k + 1],
        )
}

/// Presses flip the state by their parity: after a run of the press pass the
/// state is switched on exactly if it was on before and the presses were
/// even in number, or it was off and they were odd.
pub proof fn lemma_presses_flip_by_parity<T: Toggle>(
    frames: Seq<ToggleEntityView<T>>,
    interactions: Seq<Interaction>,
)
    requires
        press_run(frames, interactions),
    ensures
        frames.last().toggle.toggled() == (frames[0].toggle.toggled() != (presses(interactions) % 2
            == 1)),
    decreases interactions.len(),
{
    if interactions.len() > 0 {
        let n = interactions.len() as int;
        let earlier = frames.drop_last();
        assert(press_run(earlier, interactions.drop_last())) by {
            assert forall|k: int| 0 <= k < n - 1 implies handled(
                (#[trigger] earlier[k]).with_interaction(interactions.drop_last()[k]),
                earlier[k + 1],
            ) by {
                assert(handled(frames[k].with_interaction(interactions[k]), frames[k + 1]));
            }
        }
        lemma_presses_flip_by_parity(earlier, interactions.drop_last());
        assert(handled(frames[n - 1].with_interaction(interactions[n - 1]), frames[n]));
        assert(earlier.last() == frames[n - 1]);
        assert(earlier[0] == frames[0]);
    }
}

/// Only a press writes the state: the press pass leaves the state of an
/// entity as it found it unless the entity's interaction was written and is
/// a press.
pub proof fn lemma_only_presses_write<T: Toggle>(
    before: ToggleEntityView<T>,
    after: ToggleEntityView<T>,
)
    requires
        handled(before, after),
        !before.interaction_changed || before.interaction != Interaction::Pressed,
    ensures
        after.toggle == before.toggle,
        after.toggle_changed == before.toggle_changed,
        after.children == before.children,
{
}

/// The visibility pass keeps what each child stands for.
proof fn lemma_sync_keeps_roles<T: Toggle>(entity: ToggleEntityView<T>)
    ensures
        synced(entity).children.len() == entity.children.len(),
        forall|k: int|
            0 <= k < entity.children.len() ==> (#[trigger] synced(entity).children[k]).role()
                == entity.children[k].role(),
{
}

/// After the visibility pass has visited an entity, the fault indicator
/// shows the state's fault flag and the "on" indicator its toggled flag,
/// both at once; and the entity is no longer due for a visit.
pub proof fn lemma_sync_shows_state<T: Toggle>(entity: ToggleEntityView<T>)
    requires
        pending(entity),
    ensures
        synced(entity).in_sync(),
        synced(entity).toggle == entity.toggle,
        !pending(synced(entity)),
{
    let after = synced(entity);
    assert forall|k: int| 0 <= k < after.children.len() implies match target_visibility(
        after.toggle.toggled(),
        after.toggle.fault(),
        #[trigger] after.children[k],
    ) {
        Some(visibility) => after.children[k].visibility == visibility,
        None => true,
    } by {
        assert(after.children[k] == synced_child(
            entity.children[k],
            entity.toggle.toggled(),
            entity.toggle.fault(),
        ));
    }
}

/// A whole frame shows every state change: where the state of a toggle
/// entity was written before the frame or is flipped in it, the indicators
/// show the new state when the frame ends.
pub proof fn lemma_update_shows_state<T: Toggle>(
    before: ToggleEntityView<T>,
    after: ToggleEntityView<T>,
)
    requires
        updated(before, after),
        before.markers.is_plain(),
        before.toggle_changed || (before.interaction_changed && before.interaction
            == Interaction::Pressed),
    ensures
        after.in_sync(),
        !after.toggle_changed,
{
    let between = choose|between: ToggleEntityView<T>| #[trigger]
        handled(before, between) && after == synced(between);
    lemma_sync_shows_state(between);
}

/// The visibility pass is idempotent: a second run right after the first
/// changes nothing.
pub proof fn lemma_sync_twice<T: Toggle>(entity: ToggleEntityView<T>)
    ensures
        synced(synced(entity)) == synced(entity),
{
}

/// Without a state change the visibility pass writes nothing: an entity
/// whose state was not written since the last run comes out as it went in,
/// each child with the visibility and the change flag it had.
pub proof fn lemma_sync_without_change<T: Toggle>(entity: ToggleEntityView<T>)
    requires
        !entity.toggle_changed,
    ensures
        synced(entity) == entity,
{
}

/// A button that was built from a state, each indicator as the state has
/// it, is well formed and shows that state.
pub proof fn lemma_spawned_well_formed<T: Toggle>(toggle: T)
    ensures
        spawned(
            toggle,
            Visibility::indicating(toggle.fault()),
            Visibility::indicating(toggle.toggled()),
        ).well_formed(),
        spawned(
            toggle,
            Visibility::indicating(toggle.fault()),
            Visibility::indicating(toggle.toggled()),
        ).in_sync(),
{
}

/// The press pass keeps an entity well formed.
pub proof fn lemma_handled_well_formed<T: Toggle>(
    before: ToggleEntityView<T>,
    after: ToggleEntityView<T>,
)
    requires
        before.well_formed(),
        handled(before, after),
    ensures
        after.well_formed(),
{
}

/// The visibility pass keeps an entity well formed.
pub proof fn lemma_synced_well_formed<T: Toggle>(entity: ToggleEntityView<T>)
    requires
        entity.well_formed(),
    ensures
        synced(entity).well_formed(),
{
    lemma_sync_keeps_roles(entity);
    if pending(entity) {
        lemma_sync_shows_state(entity);
    }
}

/// A whole frame keeps an entity well formed.
pub proof fn lemma_updated_well_formed<T: Toggle>(
    before: ToggleEntityView<T>,
    after: ToggleEntityView<T>,
)
    requires
        before.well_formed(),
        updated(before, after),
    ensures
        after.well_formed(),
{
    let between = choose|between: ToggleEntityView<T>| #[trigger]
        handled(before, between) && after == synced(between);
    lemma_handled_well_formed(before, between);
    lemma_synced_well_formed(between);
}

} // verus!
